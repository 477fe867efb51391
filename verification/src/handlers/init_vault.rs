//! Add a supported asset: records the loan-to-value ratio of an asset that
//! can be advanced.

use vstd::prelude::*;

use crate::address::Address;
use crate::error::ErrorCode;
use crate::state::SupportedToken;

verus! {

/// A request to support an asset. The asset's record is fresh.
#[derive(Clone, Debug, PartialEq, Eq)]
pub struct InitializeSupportedToken {
    /// The identity of the asset.
    pub mint: Address,
    pub supported_token: SupportedToken,
    /// The bump found for the asset's record.
    pub supported_token_bump: u8,
}

/// The records after the asset was added: its record names it, holds the
/// ratio and the bump, and is active.
pub open spec fn effect(ctx: InitializeSupportedToken, ltv_bps: u16) -> InitializeSupportedToken {
    InitializeSupportedToken {
        supported_token: SupportedToken {
            mint: ctx.mint,
            ltv_bps: ltv_bps,
            is_active: true,
            bump: ctx.supported_token_bump,
        },
        ..ctx
    }
}

/// Records the asset of the request with a loan-to-value ratio of `ltv_bps`
/// basis points. Any ratio is taken, above one hundred percent too. The
/// request is never rejected.
pub fn handler(ctx: &mut InitializeSupportedToken, ltv_bps: u16) -> (r: Result<(), ErrorCode>)
    ensures
        r == Ok::<(), ErrorCode>(()),
        *final(ctx) == effect(*old(ctx), ltv_bps),
{
    ctx.supported_token.mint = ctx.mint;
    ctx.supported_token.ltv_bps = ltv_bps;
    ctx.supported_token.is_active = true;
    ctx.supported_token.bump = ctx.supported_token_bump;
    Ok(())
}

} // verus!
