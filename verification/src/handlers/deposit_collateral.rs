//! Lock: the host puts the collateral unit into the obligation's custody
//! and receives the advance from the pool.

use vstd::prelude::*;

use crate::address::Address;
use crate::custody::{Asset, Authority, Custodian, Order};
use crate::error::ErrorCode;
use crate::state::{BookingObligation, PoolVault};

verus! {

/// A request to lock an obligation's collateral against an advance.
#[derive(Clone, Debug, PartialEq, Eq)]
pub struct DepositCollateral {
    /// The wallet that signed the request.
    pub host: Address,
    pub obligation: BookingObligation,
    pub pool_vault: PoolVault,
}

/// Why a lock is rejected, if it is; the first failing check names the
/// error. A locked obligation cannot be locked again, and the pool pays out
/// no more than the liquidity it tracks.
pub open spec fn rejection(ctx: DepositCollateral, funding_amount: u64) -> Option<ErrorCode> {
    if ctx.obligation.is_locked {
        Some(ErrorCode::AlreadyLocked)
    } else if funding_amount > ctx.pool_vault.total_liquidity_tracked {
        Some(ErrorCode::MathOverflow)
    } else {
        None
    }
}

/// The records after an accepted lock: the obligation is locked, and the
/// pool tracks the advance no longer.
pub open spec fn effect(ctx: DepositCollateral, funding_amount: u64) -> DepositCollateral {
    DepositCollateral {
        obligation: BookingObligation { is_locked: true, ..ctx.obligation },
        pool_vault: PoolVault {
            total_liquidity_tracked: (ctx.pool_vault.total_liquidity_tracked
                - funding_amount) as u64,
            ..ctx.pool_vault
        },
        ..ctx
    }
}

/// The orders of an accepted lock: first the host's collateral unit goes
/// into the obligation's custody, then the pool pays the advance to the host.
pub open spec fn orders(ctx: DepositCollateral, funding_amount: u64) -> Seq<Order> {
    seq![
        Order::Transfer {
            asset: Asset::Collateral,
            from: Custodian::Host,
            to: Custodian::Obligation,
            amount: 1,
            authority: Authority::Signer,
        },
        Order::Transfer {
            asset: Asset::Cash,
            from: Custodian::Pool,
            to: Custodian::Host,
            amount: funding_amount,
            authority: Authority::Pool,
        },
    ]
}

/// Locks the obligation of the request against an advance of
/// `funding_amount`. The amount is the caller's to choose; it is not held
/// against a loan-to-value ratio here. Being unlocked is all that is asked
/// of the obligation: one that was settled and released can be locked anew,
/// and then stays locked for good.
///
/// The request is rejected with the error that `rejection` names, and is
/// then left as it was. Otherwise the records become what `effect` says and
/// the orders of `orders` are returned.
pub fn handler(ctx: &mut DepositCollateral, funding_amount: u64) -> (r: Result<
    Vec<Order>,
    ErrorCode,
>)
    ensures
        match r {
            Ok(issued) => rejection(*old(ctx), funding_amount) is None && *final(ctx) == effect(
                *old(ctx),
                funding_amount,
            ) && issued@ == orders(*old(ctx), funding_amount),
            Err(e) => rejection(*old(ctx), funding_amount) == Some(e) && *final(ctx) == *old(ctx),
        },
{
    if ctx.obligation.is_locked {
        return Err(ErrorCode::AlreadyLocked);
    }
    match ctx.pool_vault.debit(funding_amount) {
        Ok(()) => {},
        Err(e) => { return Err(e); },
    }
    ctx.obligation.is_locked = true;
    let mut issued: Vec<Order> = Vec::new();
    issued.push(
        Order::Transfer {
            asset: Asset::Collateral,
            from: Custodian::Host,
            to: Custodian::Obligation,
            amount: 1,
            authority: Authority::Signer,
        },
    );
    issued.push(
        Order::Transfer {
            asset: Asset::Cash,
            from: Custodian::Pool,
            to: Custodian::Host,
            amount: funding_amount,
            authority: Authority::Pool,
        },
    );
    assert(issued@ =~= orders(*old(ctx), funding_amount));
    Ok(issued)
}

} // verus!
