//! Initialize: registers an integrator and sets up the pool.

use vstd::prelude::*;

use crate::address::Address;
use crate::error::ErrorCode;
use crate::state::{IntegratorConfig, PoolVault};

verus! {

/// A request to register an integrator. The integrator's record is fresh;
/// the pool's record is the existing one, or a fresh one that tracks nothing.
#[derive(Clone, Debug, PartialEq, Eq)]
pub struct Initialize {
    /// The wallet that signed the request.
    pub authority: Address,
    pub integration_config: IntegratorConfig,
    /// The bump found for the integrator's record.
    pub integration_config_bump: u8,
    pub pool_vault: PoolVault,
    /// The bump found for the pool's record.
    pub pool_vault_bump: u8,
}

/// The records after initialization: the integrator is active under the
/// signer's authority, and both records hold their bumps. What the pool
/// tracks stays as it was.
pub open spec fn effect(ctx: Initialize) -> Initialize {
    Initialize {
        integration_config: IntegratorConfig {
            bump: ctx.integration_config_bump,
            is_active: true,
            authority: ctx.authority,
        },
        pool_vault: PoolVault { bump: ctx.pool_vault_bump, ..ctx.pool_vault },
        ..ctx
    }
}

/// Registers the integrator of the request and records the pool's bump. The
/// request is never rejected.
pub fn handler(ctx: &mut Initialize) -> (r: Result<(), ErrorCode>)
    ensures
        r == Ok::<(), ErrorCode>(()),
        *final(ctx) == effect(*old(ctx)),
{
    ctx.integration_config.authority = ctx.authority;
    ctx.integration_config.is_active = true;
    ctx.integration_config.bump = ctx.integration_config_bump;
    ctx.pool_vault.bump = ctx.pool_vault_bump;
    Ok(())
}

} // verus!
