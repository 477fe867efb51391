//! Pool withdrawal: an investor takes out principal and profit, and the
//! position is closed.

use vstd::prelude::*;

use crate::address::Address;
use crate::calculator::checked_sum;
use crate::custody::{Asset, Authority, Custodian, Order, Record};
use crate::error::ErrorCode;
use crate::state::{PoolVault, Position};

verus! {

/// A request to withdraw a position from the pool.
#[derive(Clone, Debug, PartialEq, Eq)]
pub struct WithdrawLiquidity {
    /// The wallet that signed the request.
    pub investor: Address,
    pub position: Position,
    pub pool_vault: PoolVault,
}

/// What a position pays out: its principal and its realized profit.
pub open spec fn payout(position: Position) -> nat {
    position.principal as nat + position.realized_profit as nat
}

/// Why a pool withdrawal is rejected, if it is: the payout does not fit in
/// 64 bits, or it is more than the liquidity that the pool tracks.
pub open spec fn rejection(ctx: WithdrawLiquidity) -> Option<ErrorCode> {
    if payout(ctx.position) > u64::MAX {
        Some(ErrorCode::MathOverflow)
    } else if payout(ctx.position) > ctx.pool_vault.total_liquidity_tracked {
        Some(ErrorCode::MathOverflow)
    } else {
        None
    }
}

/// The records after an accepted pool withdrawal: the pool tracks the payout
/// no longer, and the position holds nothing.
pub open spec fn effect(ctx: WithdrawLiquidity) -> WithdrawLiquidity {
    WithdrawLiquidity {
        position: Position { principal: 0, realized_profit: 0, ..ctx.position },
        pool_vault: PoolVault {
            total_liquidity_tracked: (ctx.pool_vault.total_liquidity_tracked - payout(
                ctx.position,
            )) as u64,
            ..ctx.pool_vault
        },
        ..ctx
    }
}

/// The orders of an accepted pool withdrawal: the pool pays the investor,
/// and the position's storage is given back.
pub open spec fn orders(ctx: WithdrawLiquidity) -> Seq<Order> {
    seq![
        Order::Transfer {
            asset: Asset::Cash,
            from: Custodian::Pool,
            to: Custodian::Investor,
            amount: payout(ctx.position) as u64,
            authority: Authority::Pool,
        },
        Order::Close { record: Record::Position, refund_to: Custodian::Investor },
    ]
}

/// Pays out the position of the request and closes it.
///
/// The request is rejected with the error that `rejection` names, and is
/// then left as it was. Otherwise the records become what `effect` says and
/// the orders of `orders` are returned.
pub fn handler(ctx: &mut WithdrawLiquidity) -> (r: Result<Vec<Order>, ErrorCode>)
    ensures
        match r {
            Ok(issued) => rejection(*old(ctx)) is None && *final(ctx) == effect(*old(ctx))
                && issued@ == orders(*old(ctx)),
            Err(e) => rejection(*old(ctx)) == Some(e) && *final(ctx) == *old(ctx),
        },
{
    let total_payout = match checked_sum(ctx.position.principal, ctx.position.realized_profit) {
        Ok(total) => total,
        Err(e) => { return Err(e); },
    };
    match ctx.pool_vault.debit(total_payout) {
        Ok(()) => {},
        Err(e) => { return Err(e); },
    }
    ctx.position.principal = 0;
    ctx.position.realized_profit = 0;
    let mut issued: Vec<Order> = Vec::new();
    issued.push(
        Order::Transfer {
            asset: Asset::Cash,
            from: Custodian::Pool,
            to: Custodian::Investor,
            amount: total_payout,
            authority: Authority::Pool,
        },
    );
    issued.push(Order::Close { record: Record::Position, refund_to: Custodian::Investor });
    assert(issued@ =~= orders(*old(ctx)));
    Ok(issued)
}

} // verus!
