//! Liquidate: after a missed repayment and the grace period, the collateral
//! is seized for the pool.

use vstd::prelude::*;

use crate::address::Address;
use crate::calculator::{grace_period_over, is_grace_period_over};
use crate::custody::{Asset, Authority, Custodian, Order};
use crate::error::ErrorCode;
use crate::state::BookingObligation;

verus! {

/// A request to liquidate an obligation. Anyone may make it.
#[derive(Clone, Debug, PartialEq, Eq)]
pub struct LiquidateDefault {
    /// The wallet that signed the request.
    pub liquidator: Address,
    pub obligation: BookingObligation,
    /// The current time, in seconds.
    pub unix_timestamp: i64,
}

/// Why a liquidation is rejected, if it is; the first failing check names
/// the error. A settled obligation cannot be liquidated, and an open one
/// only strictly after its end date and the grace period.
pub open spec fn rejection(ctx: LiquidateDefault) -> Option<ErrorCode> {
    if ctx.obligation.is_settled {
        Some(ErrorCode::AlreadySettled)
    } else if !grace_period_over(ctx.unix_timestamp as int, ctx.obligation.end_date as int) {
        Some(ErrorCode::GracePeriodNotOver)
    } else {
        None
    }
}

/// The records after an accepted liquidation: the obligation is settled.
/// Whether it is locked stays as it was, so that an obligation seized while
/// locked can never be withdrawn.
pub open spec fn effect(ctx: LiquidateDefault) -> LiquidateDefault {
    LiquidateDefault { obligation: BookingObligation { is_settled: true, ..ctx.obligation }, ..ctx }
}

/// The one order of an accepted liquidation: the obligation hands the
/// collateral unit over to the pool.
pub open spec fn orders(ctx: LiquidateDefault) -> Seq<Order> {
    seq![
        Order::Transfer {
            asset: Asset::Collateral,
            from: Custodian::Obligation,
            to: Custodian::Pool,
            amount: 1,
            authority: Authority::Obligation,
        },
    ]
}

/// Liquidates the obligation of the request. Whether the obligation is
/// locked is not asked: where it never was, its custody is empty and the
/// order cannot be carried out.
///
/// The request is rejected with the error that `rejection` names, and is
/// then left as it was. Otherwise the records become what `effect` says and
/// the orders of `orders` are returned.
pub fn handler(ctx: &mut LiquidateDefault) -> (r: Result<Vec<Order>, ErrorCode>)
    ensures
        match r {
            Ok(issued) => rejection(*old(ctx)) is None && *final(ctx) == effect(*old(ctx))
                && issued@ == orders(*old(ctx)),
            Err(e) => rejection(*old(ctx)) == Some(e) && *final(ctx) == *old(ctx),
        },
{
    if ctx.obligation.is_settled {
        return Err(ErrorCode::AlreadySettled);
    }
    if !is_grace_period_over(ctx.unix_timestamp, ctx.obligation.end_date) {
        return Err(ErrorCode::GracePeriodNotOver);
    }
    ctx.obligation.is_settled = true;
    let mut issued: Vec<Order> = Vec::new();
    issued.push(
        Order::Transfer {
            asset: Asset::Collateral,
            from: Custodian::Obligation,
            to: Custodian::Pool,
            amount: 1,
            authority: Authority::Obligation,
        },
    );
    assert(issued@ =~= orders(*old(ctx)));
    Ok(issued)
}

} // verus!
