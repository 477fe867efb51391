//! Pool deposit: an investor adds cash to the pool and is credited with it.

use vstd::prelude::*;

use crate::address::Address;
use crate::custody::{Asset, Authority, Custodian, Order};
use crate::error::ErrorCode;
use crate::state::{PoolVault, Position};

verus! {

/// A request to deposit into the pool. The position is the investor's own:
/// the one it already has, or a fresh one that holds nothing.
#[derive(Clone, Debug, PartialEq, Eq)]
pub struct DepositLiquidity {
    /// The wallet that signed the request.
    pub investor: Address,
    pub position: Position,
    /// The bump found for the position's record.
    pub position_bump: u8,
    pub pool_vault: PoolVault,
}

/// Why a deposit is rejected, if it is: the position's principal or the
/// pool's tracked liquidity would no longer fit in 64 bits.
pub open spec fn rejection(ctx: DepositLiquidity, amount: u64) -> Option<ErrorCode> {
    if ctx.position.principal + amount > u64::MAX {
        Some(ErrorCode::MathOverflow)
    } else if ctx.pool_vault.total_liquidity_tracked + amount > u64::MAX {
        Some(ErrorCode::MathOverflow)
    } else {
        None
    }
}

/// The records after an accepted deposit: the position belongs to the
/// investor and holds its bump, its principal has grown by the amount, and
/// so has the liquidity that the pool tracks.
pub open spec fn effect(ctx: DepositLiquidity, amount: u64) -> DepositLiquidity {
    DepositLiquidity {
        position: Position {
            owner: ctx.investor,
            principal: (ctx.position.principal + amount) as u64,
            bump: ctx.position_bump,
            ..ctx.position
        },
        pool_vault: PoolVault {
            total_liquidity_tracked: (ctx.pool_vault.total_liquidity_tracked + amount) as u64,
            ..ctx.pool_vault
        },
        ..ctx
    }
}

/// The one order of an accepted deposit: the investor pays the amount into
/// the pool.
pub open spec fn orders(ctx: DepositLiquidity, amount: u64) -> Seq<Order> {
    seq![
        Order::Transfer {
            asset: Asset::Cash,
            from: Custodian::Investor,
            to: Custodian::Pool,
            amount: amount,
            authority: Authority::Signer,
        },
    ]
}

/// Deposits `amount` into the pool for the investor of the request.
///
/// The request is rejected with the error that `rejection` names, and is
/// then left as it was. Otherwise the records become what `effect` says and
/// the orders of `orders` are returned.
pub fn handler(ctx: &mut DepositLiquidity, amount: u64) -> (r: Result<Vec<Order>, ErrorCode>)
    ensures
        match r {
            Ok(issued) => rejection(*old(ctx), amount) is None && *final(ctx) == effect(
                *old(ctx),
                amount,
            ) && issued@ == orders(*old(ctx), amount),
            Err(e) => rejection(*old(ctx), amount) == Some(e) && *final(ctx) == *old(ctx),
        },
{
    let principal = match ctx.position.principal.checked_add(amount) {
        Some(sum) => sum,
        None => { return Err(ErrorCode::MathOverflow); },
    };
    match ctx.pool_vault.credit(amount) {
        Ok(()) => {},
        Err(e) => { return Err(e); },
    }
    ctx.position.owner = ctx.investor;
    ctx.position.principal = principal;
    ctx.position.bump = ctx.position_bump;
    let mut issued: Vec<Order> = Vec::new();
    issued.push(
        Order::Transfer {
            asset: Asset::Cash,
            from: Custodian::Investor,
            to: Custodian::Pool,
            amount: amount,
            authority: Authority::Signer,
        },
    );
    assert(issued@ =~= orders(*old(ctx), amount));
    Ok(issued)
}

} // verus!
