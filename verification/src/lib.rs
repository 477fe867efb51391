//! Lifecycle rules for rental bookings that are tokenized and used as collateral
//! for a cash advance.
//!
//! The crate holds the decisions only: every operation takes the records it
//! works on as plain values, checks its preconditions, computes the amounts and
//! returns the custody orders that the surrounding program has to carry out.

pub mod address;
pub mod attestation;
pub mod bytes;
pub mod calculator;
pub mod custody;
pub mod error;
pub mod handlers;
pub mod lifecycle;
pub mod oracle;
pub mod state;

use vstd::prelude::*;

use crate::attestation::BookingProof;
use crate::custody::Order;
use crate::error::ErrorCode;
use crate::handlers::deposit_collateral::DepositCollateral;
use crate::handlers::init_vault::InitializeSupportedToken;
use crate::handlers::initialize::Initialize;
use crate::handlers::liquidate_default::LiquidateDefault;
use crate::handlers::mint_booking::MintBooking;
use crate::handlers::settle_booking::SettleBooking;
use crate::handlers::withdraw_liquidity::WithdrawLiquidity;
use crate::state::booking_id_fits;

verus! {

/// Registers an integrator and sets up the pool.
pub fn initialize(ctx: &mut Initialize) -> (r: Result<(), ErrorCode>)
    ensures
        r == Ok::<(), ErrorCode>(()),
        *final(ctx) == handlers::initialize::effect(*old(ctx)),
{
    handlers::initialize::handler(ctx)
}

/// Adds a supported asset with its loan-to-value ratio in basis points.
pub fn add_token(ctx: &mut InitializeSupportedToken, ltv_bps: u16) -> (r: Result<(), ErrorCode>)
    ensures
        r == Ok::<(), ErrorCode>(()),
        *final(ctx) == handlers::init_vault::effect(*old(ctx), ltv_bps),
{
    handlers::init_vault::handler(ctx, ltv_bps)
}

/// Mints an obligation and its collateral unit from an attestation.
pub fn mint_booking(ctx: &mut MintBooking, booking_data: BookingProof) -> (r: Result<
    Vec<Order>,
    ErrorCode,
>)
    requires
        booking_id_fits(booking_data.booking_id@),
    ensures
        match r {
            Ok(issued) => handlers::mint_booking::rejection(*old(ctx), booking_data) is None
                && *final(ctx) == handlers::mint_booking::effect(*old(ctx), booking_data)
                && issued@ == handlers::mint_booking::orders()
                && final(ctx).booking_obligation.well_formed(),
            Err(e) => handlers::mint_booking::rejection(*old(ctx), booking_data) == Some(e)
                && *final(ctx) == *old(ctx),
        },
{
    handlers::mint_booking::handler(ctx, booking_data)
}

/// Locks an obligation's collateral against an advance of `funding_amount`.
pub fn deposit_collateral(ctx: &mut DepositCollateral, funding_amount: u64) -> (r: Result<
    Vec<Order>,
    ErrorCode,
>)
    ensures
        match r {
            Ok(issued) => handlers::deposit_collateral::rejection(*old(ctx), funding_amount)
                is None && *final(ctx) == handlers::deposit_collateral::effect(
                *old(ctx),
                funding_amount,
            ) && issued@ == handlers::deposit_collateral::orders(*old(ctx), funding_amount),
            Err(e) => handlers::deposit_collateral::rejection(*old(ctx), funding_amount) == Some(
                e,
            ) && *final(ctx) == *old(ctx),
        },
{
    handlers::deposit_collateral::handler(ctx, funding_amount)
}

/// Settles an obligation: repayment in, collateral out.
pub fn settle_booking(ctx: &mut SettleBooking) -> (r: Result<Vec<Order>, ErrorCode>)
    ensures
        match r {
            Ok(issued) => handlers::settle_booking::rejection(*old(ctx)) is None && *final(ctx)
                == handlers::settle_booking::effect(*old(ctx)) && issued@
                == handlers::settle_booking::orders(*old(ctx)),
            Err(e) => handlers::settle_booking::rejection(*old(ctx)) == Some(e) && *final(ctx)
                == *old(ctx),
        },
{
    handlers::settle_booking::handler(ctx)
}

/// Pays out an investor's position and closes it.
pub fn withdraw_liquidity(ctx: &mut WithdrawLiquidity) -> (r: Result<Vec<Order>, ErrorCode>)
    ensures
        match r {
            Ok(issued) => handlers::withdraw_liquidity::rejection(*old(ctx)) is None
                && *final(ctx) == handlers::withdraw_liquidity::effect(*old(ctx))
                && issued@ == handlers::withdraw_liquidity::orders(*old(ctx)),
            Err(e) => handlers::withdraw_liquidity::rejection(*old(ctx)) == Some(e) && *final(ctx)
                == *old(ctx),
        },
{
    handlers::withdraw_liquidity::handler(ctx)
}

/// Seizes the collateral of an obligation in default.
pub fn liquidate_default(ctx: &mut LiquidateDefault) -> (r: Result<Vec<Order>, ErrorCode>)
    ensures
        match r {
            Ok(issued) => handlers::liquidate_default::rejection(*old(ctx)) is None && *final(ctx)
                == handlers::liquidate_default::effect(*old(ctx)) && issued@
                == handlers::liquidate_default::orders(*old(ctx)),
            Err(e) => handlers::liquidate_default::rejection(*old(ctx)) == Some(e) && *final(ctx)
                == *old(ctx),
        },
{
    handlers::liquidate_default::handler(ctx)
}

} // verus!
