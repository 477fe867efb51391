//! Settle: the host repays the advance with its yield and gets the
//! collateral back.

use vstd::prelude::*;

use crate::address::Address;
use crate::calculator::{is_early, repayment_computable, repayment_due, total_repayment};
use crate::custody::{Asset, Authority, Custodian, Order};
use crate::error::ErrorCode;
use crate::state::{BookingObligation, PoolVault};

verus! {

/// A request to settle an obligation.
#[derive(Clone, Debug, PartialEq, Eq)]
pub struct SettleBooking {
    /// The wallet that signed the request.
    pub host: Address,
    pub obligation: BookingObligation,
    pub pool_vault: PoolVault,
    /// The current time, in seconds.
    pub unix_timestamp: i64,
}

/// What the host has to pay to settle the obligation at the time of the
/// request.
pub open spec fn amount_due(ctx: SettleBooking) -> nat {
    repayment_due(
        ctx.obligation.booking_value as nat,
        is_early(ctx.unix_timestamp as int, ctx.obligation.end_date as int),
    )
}

/// Why a settlement is rejected, if it is; the first failing check names the
/// error. An obligation settles once; only its recorded host may settle it;
/// the repayment must be computable, and the pool's tracked liquidity must
/// have room for it.
pub open spec fn rejection(ctx: SettleBooking) -> Option<ErrorCode> {
    if ctx.obligation.is_settled {
        Some(ErrorCode::AlreadySettled)
    } else if ctx.obligation.host_wallet@ != ctx.host@ {
        Some(ErrorCode::NotHubOwner)
    } else if !repayment_computable(ctx.obligation.booking_value as nat) {
        Some(ErrorCode::MathOverflow)
    } else if ctx.pool_vault.total_liquidity_tracked + amount_due(ctx) > u64::MAX {
        Some(ErrorCode::MathOverflow)
    } else {
        None
    }
}

/// The records after an accepted settlement: the obligation is settled and
/// unlocked, and the pool tracks the repayment.
pub open spec fn effect(ctx: SettleBooking) -> SettleBooking {
    SettleBooking {
        obligation: BookingObligation { is_settled: true, is_locked: false, ..ctx.obligation },
        pool_vault: PoolVault {
            total_liquidity_tracked: (ctx.pool_vault.total_liquidity_tracked + amount_due(
                ctx,
            )) as u64,
            ..ctx.pool_vault
        },
        ..ctx
    }
}

/// The orders of an accepted settlement: first the host pays what is due into
/// the pool, then the obligation releases the collateral unit to the host.
pub open spec fn orders(ctx: SettleBooking) -> Seq<Order> {
    seq![
        Order::Transfer {
            asset: Asset::Cash,
            from: Custodian::Host,
            to: Custodian::Pool,
            amount: amount_due(ctx) as u64,
            authority: Authority::Signer,
        },
        Order::Transfer {
            asset: Asset::Collateral,
            from: Custodian::Obligation,
            to: Custodian::Host,
            amount: 1,
            authority: Authority::Obligation,
        },
    ]
}

/// Settles the obligation of the request. The principal is the booking's
/// value, whatever was advanced. Whether the obligation is locked is not
/// asked: where it never was, its custody is empty and the second order
/// cannot be carried out.
///
/// The request is rejected with the error that `rejection` names, and is
/// then left as it was. Otherwise the records become what `effect` says and
/// the orders of `orders` are returned.
pub fn handler(ctx: &mut SettleBooking) -> (r: Result<Vec<Order>, ErrorCode>)
    ensures
        match r {
            Ok(issued) => rejection(*old(ctx)) is None && *final(ctx) == effect(*old(ctx))
                && issued@ == orders(*old(ctx)),
            Err(e) => rejection(*old(ctx)) == Some(e) && *final(ctx) == *old(ctx),
        },
{
    if ctx.obligation.is_settled {
        return Err(ErrorCode::AlreadySettled);
    }
    if ctx.obligation.host_wallet != ctx.host {
        return Err(ErrorCode::NotHubOwner);
    }
    let due = match total_repayment(
        ctx.obligation.booking_value,
        ctx.unix_timestamp,
        ctx.obligation.end_date,
    ) {
        Ok(due) => due,
        Err(e) => { return Err(e); },
    };
    match ctx.pool_vault.credit(due) {
        Ok(()) => {},
        Err(e) => { return Err(e); },
    }
    ctx.obligation.is_settled = true;
    ctx.obligation.is_locked = false;
    let mut issued: Vec<Order> = Vec::new();
    issued.push(
        Order::Transfer {
            asset: Asset::Cash,
            from: Custodian::Host,
            to: Custodian::Pool,
            amount: due,
            authority: Authority::Signer,
        },
    );
    issued.push(
        Order::Transfer {
            asset: Asset::Collateral,
            from: Custodian::Obligation,
            to: Custodian::Host,
            amount: 1,
            authority: Authority::Obligation,
        },
    );
    assert(issued@ =~= orders(*old(ctx)));
    Ok(issued)
}

} // verus!
