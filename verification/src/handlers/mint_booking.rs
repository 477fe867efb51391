//! Mint: turns a verified attestation into an obligation and its collateral
//! unit.

use vstd::prelude::*;

use crate::address::Address;
use crate::attestation::BookingProof;
use crate::custody::{Authority, Custodian, Order};
use crate::error::ErrorCode;
use crate::oracle::{verify_attestation, SignatureInstruction, VerifiedAttestation};
use crate::state::{booking_id_fits, tier_at, BookingObligation, IntegratorConfig, ProfitTier};

verus! {

/// A request to mint an obligation.
#[derive(Clone, Debug, PartialEq, Eq)]
pub struct MintBooking {
    /// The wallet that signed the request.
    pub host: Address,
    pub integration_config: IntegratorConfig,
    /// The wallet from which the integrator's record is derived.
    pub integration_wallet: Address,
    /// The identity of the collateral asset to bind.
    pub nft_mint: Address,
    /// The obligation's record, freshly allocated.
    pub booking_obligation: BookingObligation,
    /// The bump found for the obligation's record.
    pub booking_obligation_bump: u8,
    /// The place of this instruction in its request.
    pub instruction_index: u16,
    /// The instruction directly before this one, if there is one.
    pub preceding_instruction: Option<SignatureInstruction>,
}

/// The obligation that is minted for an attestation of tier `tier`, bound to
/// the collateral asset `nft_mint`: it holds what was attested, the investor
/// as its integrator identity, and is neither locked nor settled.
pub open spec fn minted(
    attested: BookingProof,
    tier: ProfitTier,
    nft_mint: Address,
    bump: u8,
) -> BookingObligation {
    BookingObligation {
        booking_id: attested.booking_id,
        booking_value: attested.amount,
        max_principal: 0,
        borrowed_amount: 0,
        start_date: attested.start_date,
        end_date: attested.end_date,
        host_wallet: attested.host_wallet,
        integrator_wallet: attested.investor_wallet,
        nft_mint: nft_mint,
        is_locked: false,
        is_settled: false,
        tier: tier,
        bump: bump,
    }
}

/// Why a mint is rejected, if it is; the first failing check names the
/// error. The integrator must be active; the attestation must pass the
/// oracle proof verifier, with the integrator's authority as the trusted
/// oracle; and the tier index must be one of the four.
pub open spec fn rejection(ctx: MintBooking, booking_data: BookingProof) -> Option<ErrorCode> {
    if !ctx.integration_config.is_active {
        Some(ErrorCode::IntegratorNotAuthorized)
    } else if crate::oracle::rejection(
        booking_data,
        ctx.instruction_index,
        ctx.preceding_instruction,
        ctx.integration_config.authority,
    ) is Some {
        crate::oracle::rejection(
            booking_data,
            ctx.instruction_index,
            ctx.preceding_instruction,
            ctx.integration_config.authority,
        )
    } else if tier_at(booking_data.tier_index as int) is None {
        Some(ErrorCode::InvalidTier)
    } else {
        None
    }
}

/// The records after an accepted mint: the obligation's record is the
/// minted obligation.
pub open spec fn effect(ctx: MintBooking, booking_data: BookingProof) -> MintBooking {
    MintBooking {
        booking_obligation: minted(
            booking_data,
            tier_at(booking_data.tier_index as int)->0,
            ctx.nft_mint,
            ctx.booking_obligation_bump,
        ),
        ..ctx
    }
}

/// The one order of an accepted mint: exactly one collateral unit comes
/// into being in the host's account, on the integrator's word.
pub open spec fn orders() -> Seq<Order> {
    seq![Order::Issue { to: Custodian::Host, amount: 1, authority: Authority::Integrator }]
}

/// The obligation for a verified attestation, bound to the collateral asset
/// `nft_mint`, or `InvalidTier` when the attested tier index is none of the
/// four.
pub fn open_obligation(verified: VerifiedAttestation, nft_mint: Address, bump: u8) -> (r: Result<
    BookingObligation,
    ErrorCode,
>)
    requires
        booking_id_fits(verified.claims().booking_id@),
    ensures
        match tier_at(verified.claims().tier_index as int) {
            Some(tier) => r == Ok::<BookingObligation, ErrorCode>(
                minted(verified.claims(), tier, nft_mint, bump),
            ),
            None => r == Err::<BookingObligation, ErrorCode>(ErrorCode::InvalidTier),
        },
        r matches Ok(obligation) ==> obligation.well_formed(),
{
    let attested = verified.into_attested();
    let tier = match ProfitTier::from_index(attested.tier_index) {
        Ok(tier) => tier,
        Err(e) => { return Err(e); },
    };
    Ok(
        BookingObligation {
            booking_id: attested.booking_id,
            booking_value: attested.amount,
            max_principal: 0,
            borrowed_amount: 0,
            start_date: attested.start_date,
            end_date: attested.end_date,
            host_wallet: attested.host_wallet,
            integrator_wallet: attested.investor_wallet,
            nft_mint: nft_mint,
            is_locked: false,
            is_settled: false,
            tier: tier,
            bump: bump,
        },
    )
}

/// Mints the obligation of the request from the attestation `booking_data`.
///
/// The request is rejected with the error that `rejection` names, and is
/// then left as it was. Otherwise the records become what `effect` says and
/// the orders of `orders` are returned.
pub fn handler(ctx: &mut MintBooking, booking_data: BookingProof) -> (r: Result<
    Vec<Order>,
    ErrorCode,
>)
    requires
        booking_id_fits(booking_data.booking_id@),
    ensures
        match r {
            Ok(issued) => rejection(*old(ctx), booking_data) is None && *final(ctx) == effect(
                *old(ctx),
                booking_data,
            ) && issued@ == orders() && final(ctx).booking_obligation.well_formed(),
            Err(e) => rejection(*old(ctx), booking_data) == Some(e) && *final(ctx) == *old(ctx),
        },
{
    if !ctx.integration_config.is_active {
        return Err(ErrorCode::IntegratorNotAuthorized);
    }
    let oracle = ctx.integration_config.authority;
    let verified = match verify_attestation(
        booking_data,
        ctx.instruction_index,
        ctx.preceding_instruction.as_ref(),
        &oracle,
    ) {
        Ok(verified) => verified,
        Err(e) => { return Err(e); },
    };
    let obligation = match open_obligation(verified, ctx.nft_mint, ctx.booking_obligation_bump) {
        Ok(obligation) => obligation,
        Err(e) => { return Err(e); },
    };
    ctx.booking_obligation = obligation;
    let mut issued: Vec<Order> = Vec::new();
    issued.push(Order::Issue { to: Custodian::Host, amount: 1, authority: Authority::Integrator });
    assert(issued@ =~= orders());
    Ok(issued)
}

} // verus!
