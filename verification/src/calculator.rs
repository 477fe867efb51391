//! Settlement calculator: fixed-point arithmetic in basis points.
//!
//! Nothing here holds state. Every product, sum and quotient is checked, and
//! division rounds toward zero.

use vstd::prelude::*;

use crate::error::ErrorCode;

verus! {

/// One hundred percent, in basis points.
pub const BPS_DENOMINATOR: u64 = 10_000;

/// The flat yield owed on every settlement: ten percent.
pub const YIELD_BPS: u64 = 1_000;

/// The surcharge owed when a booking is settled before its end date: five percent.
pub const PENALTY_BPS: u64 = 500;

/// Seconds after a booking's end date during which liquidation is barred: seven days.
pub const GRACE_PERIOD: i64 = 604_800;

/// `bps` basis points of `amount`, rounded down.
pub open spec fn share(amount: nat, bps: nat) -> nat {
    amount * bps / 10_000
}

/// The yield owed on `principal`.
pub open spec fn yield_due(principal: nat) -> nat {
    share(principal, YIELD_BPS as nat)
}

/// The early-exit penalty owed on `principal`.
pub open spec fn penalty_due(principal: nat) -> nat {
    share(principal, PENALTY_BPS as nat)
}

/// A settlement is early when it happens strictly before the booking's end date.
pub open spec fn is_early(now: int, end_date: int) -> bool {
    now < end_date
}

/// What the host owes at settlement: the principal and its yield, and the
/// penalty on top when the settlement is early.
pub open spec fn repayment_due(principal: nat, early: bool) -> nat {
    principal + yield_due(principal) + if early {
        penalty_due(principal)
    } else {
        0
    }
}

/// Whether the repayment on `principal` can be computed in 64 bits. The first
/// product taken, `principal * YIELD_BPS`, decides: once it fits, every later
/// step fits too.
pub open spec fn repayment_computable(principal: nat) -> bool {
    principal * YIELD_BPS as nat <= u64::MAX as nat
}

/// The first instant at which a booking that ended at `end_date` is no longer
/// protected by the grace period is the one after this threshold.
pub open spec fn liquidation_threshold(end_date: int) -> int {
    end_date + GRACE_PERIOD as int
}

/// Liquidation is open strictly after the threshold.
pub open spec fn grace_period_over(now: int, end_date: int) -> bool {
    now > liquidation_threshold(end_date)
}

/// The most that may be advanced against a booking worth `value` at a
/// loan-to-value ratio of `ltv_bps` basis points.
pub open spec fn advance_limit(value: nat, ltv_bps: nat) -> nat {
    share(value, ltv_bps)
}

/// `bps` basis points of `amount`, rounded down. Fails when the product
/// `amount * bps` does not fit in 64 bits, whatever the quotient would be.
pub fn basis_points(amount: u64, bps: u64) -> (r: Result<u64, ErrorCode>)
    ensures
        amount * bps <= u64::MAX ==> r == Ok::<u64, ErrorCode>(
            share(amount as nat, bps as nat) as u64,
        ),
        amount * bps > u64::MAX ==> r == Err::<u64, ErrorCode>(ErrorCode::MathOverflow),
{
    match amount.checked_mul(bps) {
        Some(product) => Ok(product / BPS_DENOMINATOR),
        None => Err(ErrorCode::MathOverflow),
    }
}

/// The sum of two amounts, or `MathOverflow` when it does not fit in 64 bits.
pub fn checked_sum(a: u64, b: u64) -> (r: Result<u64, ErrorCode>)
    ensures
        a + b <= u64::MAX ==> r == Ok::<u64, ErrorCode>((a + b) as u64),
        a + b > u64::MAX ==> r == Err::<u64, ErrorCode>(ErrorCode::MathOverflow),
{
    match a.checked_add(b) {
        Some(sum) => Ok(sum),
        None => Err(ErrorCode::MathOverflow),
    }
}

/// What is left of `a` after taking `b` away, or `MathOverflow` when `b` is
/// the larger.
pub fn checked_difference(a: u64, b: u64) -> (r: Result<u64, ErrorCode>)
    ensures
        b <= a ==> r == Ok::<u64, ErrorCode>((a - b) as u64),
        b > a ==> r == Err::<u64, ErrorCode>(ErrorCode::MathOverflow),
{
    match a.checked_sub(b) {
        Some(rest) => Ok(rest),
        None => Err(ErrorCode::MathOverflow),
    }
}

/// The amount the host has to repay when settling at `now` a booking of value
/// `principal` that ends at `end_date`.
///
/// Returns `MathOverflow` exactly when `principal * YIELD_BPS` exceeds 64 bits.
pub fn total_repayment(principal: u64, now: i64, end_date: i64) -> (r: Result<u64, ErrorCode>)
    ensures
        repayment_computable(principal as nat) ==> r == Ok::<u64, ErrorCode>(
            repayment_due(principal as nat, is_early(now as int, end_date as int)) as u64,
        ),
        repayment_computable(principal as nat) ==> repayment_due(
            principal as nat,
            is_early(now as int, end_date as int),
        ) <= u64::MAX,
        !repayment_computable(principal as nat) ==> r == Err::<u64, ErrorCode>(
            ErrorCode::MathOverflow,
        ),
{
    let yield_amount = match basis_points(principal, YIELD_BPS) {
        Ok(v) => v,
        Err(e) => { return Err(e); },
    };
    let mut total = match checked_sum(principal, yield_amount) {
        Ok(v) => v,
        Err(e) => { return Err(e); },
    };
    if now < end_date {
        let penalty = match basis_points(principal, PENALTY_BPS) {
            Ok(v) => v,
            Err(e) => { return Err(e); },
        };
        total = match checked_sum(total, penalty) {
            Ok(v) => v,
            Err(e) => { return Err(e); },
        };
    }
    Ok(total)
}

/// Whether a booking that ended at `end_date` may be liquidated at `now`:
/// strictly more than the grace period must have passed. An end date so late
/// that the threshold lies beyond the last representable instant is never
/// reached.
pub fn is_grace_period_over(now: i64, end_date: i64) -> (r: bool)
    ensures
        r == grace_period_over(now as int, end_date as int),
{
    match end_date.checked_add(GRACE_PERIOD) {
        Some(threshold) => now > threshold,
        None => false,
    }
}

/// The most that may be advanced against a booking worth `value` at a
/// loan-to-value ratio of `ltv_bps` basis points, rounded down.
pub fn max_advance(value: u64, ltv_bps: u16) -> (r: Result<u64, ErrorCode>)
    ensures
        value * ltv_bps <= u64::MAX ==> r == Ok::<u64, ErrorCode>(
            advance_limit(value as nat, ltv_bps as nat) as u64,
        ),
        value * ltv_bps > u64::MAX ==> r == Err::<u64, ErrorCode>(ErrorCode::MathOverflow),
{
    basis_points(value, ltv_bps as u64)
}

/// On time, the host owes the principal and a tenth of it; early, a further
/// twentieth. Each fraction is rounded down on its own.
pub proof fn repayment_formula(principal: nat)
    ensures
        repayment_due(principal, false) == principal + principal * 1000 / 10000,
        repayment_due(principal, true) == principal + principal * 1000 / 10000 + principal * 500
            / 10000,
        repayment_due(principal, false) <= repayment_due(principal, true),
{
}

} // verus!
