use anchor_lang::prelude::Pubkey;
use anchor_lang::AnchorSerialize;

use rent_flow::address::Address;
use rent_flow::attestation::BookingProof;
use rent_flow::error::{ErrorCode, ERROR_CODE_OFFSET};
use rent_flow::oracle::ED25519_PROGRAM_ID;
use rent_flow::state::{BookingObligation, IntegratorConfig, PoolVault, ProfitTier};

fn outside_claim(id: &str) -> BookingProof {
    BookingProof {
        booking_id: id.to_string(),
        amount: 123_456_789_012,
        start_date: -5,
        end_date: 1_900_000_000,
        host_wallet: Address::new([11; 32]),
        oracle_pubkey: Address::new([22; 32]),
        tier_index: 3,
        investor_wallet: Address::new([33; 32]),
    }
}

/// The attestation written field by field with the platform's own
/// serializer.
fn outside_serialized(claim: &BookingProof) -> Vec<u8> {
    let mut out = Vec::new();
    claim.booking_id.serialize(&mut out).unwrap();
    claim.amount.serialize(&mut out).unwrap();
    claim.start_date.serialize(&mut out).unwrap();
    claim.end_date.serialize(&mut out).unwrap();
    Pubkey::new_from_array(claim.host_wallet.bytes).serialize(&mut out).unwrap();
    Pubkey::new_from_array(claim.oracle_pubkey.bytes).serialize(&mut out).unwrap();
    claim.tier_index.serialize(&mut out).unwrap();
    Pubkey::new_from_array(claim.investor_wallet.bytes).serialize(&mut out).unwrap();
    out
}

#[test]
fn signature_program_identity_is_the_platform_s() {
    assert_eq!(ED25519_PROGRAM_ID, anchor_lang::solana_program::ed25519_program::ID.to_bytes());
    assert_eq!(
        Pubkey::new_from_array(ED25519_PROGRAM_ID).to_string(),
        "Ed25519SigVerify111111111111111111111111111"
    );
}

#[test]
fn message_is_the_serialized_attestation() {
    for id in ["", "BK-1", "a booking id of thirty-two bytes", "caf\u{e9} \u{20ac}"] {
        let claim = outside_claim(id);
        assert_eq!(claim.encode().unwrap(), outside_serialized(&claim));
    }
}

#[test]
fn error_codes_start_where_the_platform_s_custom_codes_do() {
    assert_eq!(ERROR_CODE_OFFSET, anchor_lang::error::ERROR_CODE_OFFSET);
    assert_eq!(ErrorCode::IntegratorNotAuthorized.code(), anchor_lang::error::ERROR_CODE_OFFSET);
}

#[test]
fn seeds_derive_an_address_for_each_record() {
    let program = Pubkey::new_from_array([17; 32]);
    let mint = Pubkey::new_from_array([4; 32]);
    let (address, bump) = Pubkey::find_program_address(&[b"obligation", mint.as_ref()], &program);
    let obligation = BookingObligation {
        booking_id: "BK-1".to_string(),
        booking_value: 1,
        max_principal: 0,
        borrowed_amount: 0,
        start_date: 0,
        end_date: 1,
        host_wallet: Address::new([1; 32]),
        integrator_wallet: Address::new([3; 32]),
        nft_mint: Address::new(mint.to_bytes()),
        is_locked: false,
        is_settled: false,
        tier: ProfitTier::OneMonth,
        bump,
    };
    let seeds = obligation.signer_seeds();
    let rows: Vec<&[u8]> = seeds.iter().map(|s| s.as_slice()).collect();
    assert_eq!(Pubkey::create_program_address(&rows, &program), Ok(address));

    let (address, bump) = Pubkey::find_program_address(&[b"pool_vault"], &program);
    let seeds = PoolVault { total_liquidity_tracked: 0, bump }.signer_seeds();
    let rows: Vec<&[u8]> = seeds.iter().map(|s| s.as_slice()).collect();
    assert_eq!(Pubkey::create_program_address(&rows, &program), Ok(address));

    let wallet = Pubkey::new_from_array([6; 32]);
    let (address, bump) = Pubkey::find_program_address(&[b"integrator", wallet.as_ref()], &program);
    let config = IntegratorConfig { bump, is_active: true, authority: Address::new([2; 32]) };
    let seeds = config.signer_seeds(&Address::new(wallet.to_bytes()));
    let rows: Vec<&[u8]> = seeds.iter().map(|s| s.as_slice()).collect();
    assert_eq!(Pubkey::create_program_address(&rows, &program), Ok(address));
}
