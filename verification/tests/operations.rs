use rent_flow::address::Address;
use rent_flow::attestation::BookingProof;
use rent_flow::custody::{Asset, Authority, Custodian, Order, Record};
use rent_flow::error::ErrorCode;
use rent_flow::handlers::deposit_collateral::DepositCollateral;
use rent_flow::handlers::deposit_liquidity::DepositLiquidity;
use rent_flow::handlers::init_vault::InitializeSupportedToken;
use rent_flow::handlers::initialize::Initialize;
use rent_flow::handlers::liquidate_default::LiquidateDefault;
use rent_flow::handlers::mint_booking::{open_obligation, MintBooking};
use rent_flow::handlers::settle_booking::SettleBooking;
use rent_flow::handlers::withdraw_collateral::WithdrawCollateral;
use rent_flow::handlers::withdraw_liquidity::WithdrawLiquidity;
use rent_flow::handlers::{
    deposit_collateral, deposit_liquidity, init_vault, initialize, liquidate_default,
    mint_booking, settle_booking, withdraw_collateral, withdraw_liquidity,
};
use rent_flow::oracle::{verify_attestation, SignatureInstruction, ED25519_PROGRAM_ID};
use rent_flow::state::{
    BookingObligation, IntegratorConfig, PoolVault, Position, ProfitTier, SupportedToken,
};

const OPS_END: i64 = 1_700_600_000;

fn ops_key(seed: u8) -> Address {
    Address::new([seed; 32])
}

fn ops_host() -> Address {
    ops_key(1)
}

fn ops_oracle() -> Address {
    ops_key(2)
}

fn ops_obligation(is_locked: bool, is_settled: bool) -> BookingObligation {
    BookingObligation {
        booking_id: "BK-77".to_string(),
        booking_value: 10_000_000,
        max_principal: 0,
        borrowed_amount: 0,
        start_date: 1_700_000_000,
        end_date: OPS_END,
        host_wallet: ops_host(),
        integrator_wallet: ops_key(3),
        nft_mint: ops_key(4),
        is_locked,
        is_settled,
        tier: ProfitTier::SixMonth,
        bump: 250,
    }
}

fn ops_pool(total: u64) -> PoolVault {
    PoolVault { total_liquidity_tracked: total, bump: 9 }
}

fn ops_empty_obligation() -> BookingObligation {
    BookingObligation {
        booking_id: String::new(),
        booking_value: 0,
        max_principal: 0,
        borrowed_amount: 0,
        start_date: 0,
        end_date: 0,
        host_wallet: ops_key(0),
        integrator_wallet: ops_key(0),
        nft_mint: ops_key(0),
        is_locked: false,
        is_settled: false,
        tier: ProfitTier::OneMonth,
        bump: 0,
    }
}

fn ops_claim(tier_index: u8) -> BookingProof {
    BookingProof {
        booking_id: "BK-77".to_string(),
        amount: 5_000_000,
        start_date: 1_700_000_000,
        end_date: OPS_END,
        host_wallet: ops_host(),
        oracle_pubkey: ops_oracle(),
        tier_index,
        investor_wallet: ops_key(3),
    }
}

fn ops_signature(key: &Address, message: &[u8]) -> SignatureInstruction {
    let mut data = vec![1u8, 0u8];
    for field in [48u16, u16::MAX, 16, u16::MAX, 112, message.len() as u16, u16::MAX] {
        data.extend_from_slice(&field.to_le_bytes());
    }
    data.extend_from_slice(&key.bytes);
    data.extend_from_slice(&[0x5au8; 64]);
    data.extend_from_slice(message);
    SignatureInstruction { program_id: Address::new(ED25519_PROGRAM_ID), data }
}

fn ops_mint_request(claim: &BookingProof) -> MintBooking {
    MintBooking {
        host: ops_host(),
        integration_config: IntegratorConfig { bump: 7, is_active: true, authority: ops_oracle() },
        integration_wallet: ops_key(6),
        nft_mint: ops_key(4),
        booking_obligation: ops_empty_obligation(),
        booking_obligation_bump: 250,
        instruction_index: 1,
        preceding_instruction: Some(ops_signature(&ops_oracle(), &claim.encode().unwrap())),
    }
}

fn ops_collateral(from: Custodian, to: Custodian, authority: Authority) -> Order {
    Order::Transfer { asset: Asset::Collateral, from, to, amount: 1, authority }
}

fn ops_cash(from: Custodian, to: Custodian, amount: u64, authority: Authority) -> Order {
    Order::Transfer { asset: Asset::Cash, from, to, amount, authority }
}

#[test]
fn initialize_registers_the_integrator() {
    let mut ctx = Initialize {
        authority: ops_key(11),
        integration_config: IntegratorConfig { bump: 0, is_active: false, authority: ops_key(0) },
        integration_config_bump: 253,
        pool_vault: ops_pool(0),
        pool_vault_bump: 251,
    };
    assert_eq!(initialize::handler(&mut ctx), Ok(()));
    assert_eq!(
        ctx.integration_config,
        IntegratorConfig { bump: 253, is_active: true, authority: ops_key(11) }
    );
    assert_eq!(ctx.pool_vault, PoolVault { total_liquidity_tracked: 0, bump: 251 });
    assert_eq!(ctx.authority, ops_key(11));
}

#[test]
fn initialize_keeps_what_an_existing_pool_tracks() {
    let mut ctx = Initialize {
        authority: ops_key(12),
        integration_config: IntegratorConfig { bump: 0, is_active: false, authority: ops_key(0) },
        integration_config_bump: 1,
        pool_vault: ops_pool(777),
        pool_vault_bump: 9,
    };
    assert_eq!(rent_flow::initialize(&mut ctx), Ok(()));
    assert_eq!(ctx.pool_vault, PoolVault { total_liquidity_tracked: 777, bump: 9 });
    assert!(ctx.integration_config.is_active);
}

#[test]
fn add_token_records_ratio_and_activates() {
    let mut ctx = InitializeSupportedToken {
        mint: ops_key(30),
        supported_token: SupportedToken { mint: ops_key(0), ltv_bps: 0, is_active: false, bump: 0 },
        supported_token_bump: 252,
    };
    assert_eq!(init_vault::handler(&mut ctx, 7_500), Ok(()));
    assert_eq!(
        ctx.supported_token,
        SupportedToken { mint: ops_key(30), ltv_bps: 7_500, is_active: true, bump: 252 }
    );
    assert_eq!(rent_flow::add_token(&mut ctx, 12_000), Ok(()));
    assert_eq!(ctx.supported_token.ltv_bps, 12_000);
}

#[test]
fn mint_records_what_was_attested() {
    let claim = ops_claim(2);
    let mut ctx = ops_mint_request(&claim);
    let orders = mint_booking::handler(&mut ctx, claim).unwrap();
    assert_eq!(
        orders,
        vec![Order::Issue { to: Custodian::Host, amount: 1, authority: Authority::Integrator }]
    );
    assert_eq!(
        ctx.booking_obligation,
        BookingObligation {
            booking_id: "BK-77".to_string(),
            booking_value: 5_000_000,
            max_principal: 0,
            borrowed_amount: 0,
            start_date: 1_700_000_000,
            end_date: OPS_END,
            host_wallet: ops_host(),
            integrator_wallet: ops_key(3),
            nft_mint: ops_key(4),
            is_locked: false,
            is_settled: false,
            tier: ProfitTier::SixMonth,
            bump: 250,
        }
    );
}

#[test]
fn mint_overwrites_whatever_the_fresh_record_held() {
    let claim = ops_claim(0);
    let mut ctx = ops_mint_request(&claim);
    ctx.booking_obligation = ops_obligation(true, true);
    ctx.booking_obligation.borrowed_amount = 5;
    ctx.booking_obligation.max_principal = 6;
    rent_flow::mint_booking(&mut ctx, claim).unwrap();
    assert!(!ctx.booking_obligation.is_locked);
    assert!(!ctx.booking_obligation.is_settled);
    assert_eq!(ctx.booking_obligation.borrowed_amount, 0);
    assert_eq!(ctx.booking_obligation.max_principal, 0);
    assert_eq!(ctx.booking_obligation.tier, ProfitTier::OneMonth);
}

#[test]
fn mint_maps_each_tier_index() {
    let tiers = [
        ProfitTier::OneMonth,
        ProfitTier::ThreeMonth,
        ProfitTier::SixMonth,
        ProfitTier::TwelveMonth,
    ];
    for (index, tier) in tiers.iter().enumerate() {
        let claim = ops_claim(index as u8);
        let mut ctx = ops_mint_request(&claim);
        assert!(mint_booking::handler(&mut ctx, claim).is_ok());
        assert_eq!(ctx.booking_obligation.tier, *tier);
    }
}

#[test]
fn mint_with_tier_four_or_more_is_invalid() {
    for index in [4u8, 5, 100, 255] {
        let claim = ops_claim(index);
        let mut ctx = ops_mint_request(&claim);
        let before = ctx.clone();
        assert_eq!(mint_booking::handler(&mut ctx, claim), Err(ErrorCode::InvalidTier));
        assert_eq!(ctx, before);
    }
}

#[test]
fn mint_needs_an_active_integrator() {
    let claim = ops_claim(1);
    let mut ctx = ops_mint_request(&claim);
    ctx.integration_config.is_active = false;
    let before = ctx.clone();
    assert_eq!(mint_booking::handler(&mut ctx, claim), Err(ErrorCode::IntegratorNotAuthorized));
    assert_eq!(ctx, before);
    // an inactive integrator is named before any fault of the attestation
    let claim = ops_claim(9);
    let mut ctx = ops_mint_request(&claim);
    ctx.integration_config.is_active = false;
    ctx.instruction_index = 0;
    assert_eq!(mint_booking::handler(&mut ctx, claim), Err(ErrorCode::IntegratorNotAuthorized));
}

#[test]
fn mint_passes_on_the_verifier_s_errors() {
    let claim = ops_claim(1);
    let mut first = ops_mint_request(&claim);
    first.instruction_index = 0;
    assert_eq!(
        mint_booking::handler(&mut first, claim.clone()),
        Err(ErrorCode::InvalidInstructionIndex)
    );
    let mut missing = ops_mint_request(&claim);
    missing.preceding_instruction = None;
    assert_eq!(
        mint_booking::handler(&mut missing, claim.clone()),
        Err(ErrorCode::InvalidInstructionIndex)
    );
    let mut other_program = ops_mint_request(&claim);
    other_program.preceding_instruction.as_mut().unwrap().program_id = ops_key(0);
    assert_eq!(
        mint_booking::handler(&mut other_program, claim.clone()),
        Err(ErrorCode::InvalidProgramId)
    );
    let mut cut = ops_mint_request(&claim);
    cut.preceding_instruction.as_mut().unwrap().data.truncate(40);
    assert_eq!(mint_booking::handler(&mut cut, claim.clone()), Err(ErrorCode::InvalidOffset));
    let mut other_authority = ops_mint_request(&claim);
    other_authority.integration_config.authority = ops_key(50);
    assert_eq!(
        mint_booking::handler(&mut other_authority, claim.clone()),
        Err(ErrorCode::InvalidOracleKey)
    );
    let mut changed = claim.clone();
    changed.amount = 6_000_000;
    let mut ctx = ops_mint_request(&claim);
    let before = ctx.clone();
    assert_eq!(mint_booking::handler(&mut ctx, changed), Err(ErrorCode::OracleMessageMismatch));
    assert_eq!(ctx, before);
    // a bad tier is named only once the attestation is verified
    let mut bad_tier = ops_claim(4);
    let mut ctx = ops_mint_request(&bad_tier);
    bad_tier.amount = 1;
    assert_eq!(mint_booking::handler(&mut ctx, bad_tier), Err(ErrorCode::OracleMessageMismatch));
}

#[test]
fn obligation_opens_from_a_verified_attestation() {
    let claim = ops_claim(3);
    let signature = ops_signature(&ops_oracle(), &claim.encode().unwrap());
    let verified = verify_attestation(claim, 2, Some(&signature), &ops_oracle()).unwrap();
    let obligation = open_obligation(verified, ops_key(44), 8).unwrap();
    assert_eq!(obligation.tier, ProfitTier::TwelveMonth);
    assert_eq!(obligation.nft_mint, ops_key(44));
    assert_eq!(obligation.bump, 8);
    assert_eq!(obligation.booking_value, 5_000_000);
    assert_eq!(obligation.integrator_wallet, ops_key(3));
    let claim = ops_claim(4);
    let signature = ops_signature(&ops_oracle(), &claim.encode().unwrap());
    let verified = verify_attestation(claim, 2, Some(&signature), &ops_oracle()).unwrap();
    assert_eq!(open_obligation(verified, ops_key(44), 8), Err(ErrorCode::InvalidTier));
}

#[test]
fn lock_moves_collateral_in_and_cash_out() {
    let mut ctx = DepositCollateral {
        host: ops_host(),
        obligation: ops_obligation(false, false),
        pool_vault: ops_pool(8_000_000),
    };
    let orders = deposit_collateral::handler(&mut ctx, 5_000_000).unwrap();
    assert_eq!(
        orders,
        vec![
            ops_collateral(Custodian::Host, Custodian::Obligation, Authority::Signer),
            ops_cash(Custodian::Pool, Custodian::Host, 5_000_000, Authority::Pool),
        ]
    );
    assert_eq!(ctx.obligation, ops_obligation(true, false));
    assert_eq!(ctx.pool_vault, ops_pool(3_000_000));
}

#[test]
fn lock_twice_fails_as_already_locked() {
    let mut ctx = DepositCollateral {
        host: ops_host(),
        obligation: ops_obligation(false, false),
        pool_vault: ops_pool(8_000_000),
    };
    assert!(deposit_collateral::handler(&mut ctx, 1_000_000).is_ok());
    let before = ctx.clone();
    assert_eq!(deposit_collateral::handler(&mut ctx, 1_000_000), Err(ErrorCode::AlreadyLocked));
    assert_eq!(ctx, before);
    assert_eq!(rent_flow::deposit_collateral(&mut ctx, 0), Err(ErrorCode::AlreadyLocked));
    // already locked is named before a want of liquidity
    assert_eq!(deposit_collateral::handler(&mut ctx, u64::MAX), Err(ErrorCode::AlreadyLocked));
}

#[test]
fn lock_pays_out_no_more_than_the_pool_tracks() {
    let mut ctx = DepositCollateral {
        host: ops_host(),
        obligation: ops_obligation(false, false),
        pool_vault: ops_pool(4_999_999),
    };
    let before = ctx.clone();
    assert_eq!(deposit_collateral::handler(&mut ctx, 5_000_000), Err(ErrorCode::MathOverflow));
    assert_eq!(ctx, before);
    assert!(deposit_collateral::handler(&mut ctx, 4_999_999).is_ok());
    assert_eq!(ctx.pool_vault.total_liquidity_tracked, 0);
}

#[test]
fn lock_is_open_again_after_a_settlement() {
    let mut ctx = DepositCollateral {
        host: ops_host(),
        obligation: ops_obligation(false, true),
        pool_vault: ops_pool(10),
    };
    assert!(deposit_collateral::handler(&mut ctx, 10).is_ok());
    assert_eq!(ctx.obligation, ops_obligation(true, true));
}

#[test]
fn settle_on_time_takes_principal_and_yield() {
    let mut ctx = SettleBooking {
        host: ops_host(),
        obligation: ops_obligation(true, false),
        pool_vault: ops_pool(100),
        unix_timestamp: OPS_END,
    };
    let orders = settle_booking::handler(&mut ctx).unwrap();
    assert_eq!(
        orders,
        vec![
            ops_cash(Custodian::Host, Custodian::Pool, 11_000_000, Authority::Signer),
            ops_collateral(Custodian::Obligation, Custodian::Host, Authority::Obligation),
        ]
    );
    assert_eq!(ctx.obligation, ops_obligation(false, true));
    assert_eq!(ctx.pool_vault, ops_pool(11_000_100));
}

#[test]
fn settle_early_adds_the_penalty() {
    let mut ctx = SettleBooking {
        host: ops_host(),
        obligation: ops_obligation(true, false),
        pool_vault: ops_pool(0),
        unix_timestamp: OPS_END - 1,
    };
    let orders = rent_flow::settle_booking(&mut ctx).unwrap();
    assert_eq!(
        orders[0],
        ops_cash(Custodian::Host, Custodian::Pool, 11_500_000, Authority::Signer)
    );
    assert_eq!(ctx.pool_vault.total_liquidity_tracked, 11_500_000);
}

#[test]
fn settle_twice_fails_as_already_settled() {
    let mut ctx = SettleBooking {
        host: ops_host(),
        obligation: ops_obligation(true, false),
        pool_vault: ops_pool(0),
        unix_timestamp: OPS_END + 5,
    };
    assert!(settle_booking::handler(&mut ctx).is_ok());
    let before = ctx.clone();
    assert_eq!(settle_booking::handler(&mut ctx), Err(ErrorCode::AlreadySettled));
    assert_eq!(ctx, before);
    // already settled is named before a wrong host
    ctx.host = ops_key(99);
    assert_eq!(settle_booking::handler(&mut ctx), Err(ErrorCode::AlreadySettled));
}

#[test]
fn settle_is_for_the_recorded_host_only() {
    let mut ctx = SettleBooking {
        host: ops_key(99),
        obligation: ops_obligation(true, false),
        pool_vault: ops_pool(0),
        unix_timestamp: OPS_END,
    };
    let before = ctx.clone();
    assert_eq!(settle_booking::handler(&mut ctx), Err(ErrorCode::NotHubOwner));
    assert_eq!(ctx, before);
}

#[test]
fn settle_reports_overflow_before_anything_moves() {
    let mut huge = ops_obligation(true, false);
    huge.booking_value = u64::MAX / 1000 + 1;
    let mut ctx = SettleBooking {
        host: ops_host(),
        obligation: huge,
        pool_vault: ops_pool(0),
        unix_timestamp: OPS_END,
    };
    let before = ctx.clone();
    assert_eq!(settle_booking::handler(&mut ctx), Err(ErrorCode::MathOverflow));
    assert_eq!(ctx, before);
    // the repayment fits, but the pool's count of liquidity has no room for it
    let mut ctx = SettleBooking {
        host: ops_host(),
        obligation: ops_obligation(true, false),
        pool_vault: ops_pool(u64::MAX - 10_999_999),
        unix_timestamp: OPS_END,
    };
    let before = ctx.clone();
    assert_eq!(settle_booking::handler(&mut ctx), Err(ErrorCode::MathOverflow));
    assert_eq!(ctx, before);
    ctx.pool_vault.total_liquidity_tracked -= 1;
    assert!(settle_booking::handler(&mut ctx).is_ok());
    assert_eq!(ctx.pool_vault.total_liquidity_tracked, u64::MAX);
}

#[test]
fn liquidate_fails_until_the_grace_period_is_over() {
    let mut ctx = LiquidateDefault {
        liquidator: ops_key(70),
        obligation: ops_obligation(true, false),
        unix_timestamp: OPS_END + 604_800,
    };
    let before = ctx.clone();
    assert_eq!(liquidate_default::handler(&mut ctx), Err(ErrorCode::GracePeriodNotOver));
    assert_eq!(ctx, before);
    ctx.unix_timestamp = OPS_END;
    assert_eq!(liquidate_default::handler(&mut ctx), Err(ErrorCode::GracePeriodNotOver));
    ctx.unix_timestamp = i64::MIN;
    assert_eq!(rent_flow::liquidate_default(&mut ctx), Err(ErrorCode::GracePeriodNotOver));
}

#[test]
fn liquidate_succeeds_one_second_after_the_grace_period() {
    let mut ctx = LiquidateDefault {
        liquidator: ops_key(70),
        obligation: ops_obligation(true, false),
        unix_timestamp: OPS_END + 604_801,
    };
    let orders = liquidate_default::handler(&mut ctx).unwrap();
    assert_eq!(
        orders,
        vec![ops_collateral(Custodian::Obligation, Custodian::Pool, Authority::Obligation)]
    );
    // settled, and still locked
    assert_eq!(ctx.obligation, ops_obligation(true, true));
}

#[test]
fn liquidate_of_a_settled_obligation_fails() {
    let mut ctx = LiquidateDefault {
        liquidator: ops_key(70),
        obligation: ops_obligation(false, true),
        unix_timestamp: OPS_END + 1_000_000,
    };
    let before = ctx.clone();
    assert_eq!(liquidate_default::handler(&mut ctx), Err(ErrorCode::AlreadySettled));
    assert_eq!(ctx, before);
    // already settled is named before the grace period
    ctx.unix_timestamp = 0;
    assert_eq!(liquidate_default::handler(&mut ctx), Err(ErrorCode::AlreadySettled));
}

#[test]
fn liquidate_never_opens_when_the_threshold_is_out_of_reach() {
    let mut late = ops_obligation(true, false);
    late.end_date = i64::MAX - 604_799;
    let mut ctx =
        LiquidateDefault { liquidator: ops_key(70), obligation: late, unix_timestamp: i64::MAX };
    assert_eq!(liquidate_default::handler(&mut ctx), Err(ErrorCode::GracePeriodNotOver));
    ctx.obligation.end_date = i64::MAX - 604_801;
    assert!(liquidate_default::handler(&mut ctx).is_ok());
}

#[test]
fn withdraw_succeeds_only_when_settled_and_unlocked() {
    for (is_settled, is_locked, expected) in [
        (false, false, Some(ErrorCode::NotYetSettled)),
        (false, true, Some(ErrorCode::NotYetSettled)),
        (true, true, Some(ErrorCode::ObligationStillLocked)),
        (true, false, None),
    ] {
        let ctx = WithdrawCollateral {
            host: ops_host(),
            obligation: ops_obligation(is_locked, is_settled),
            vault_balance: 0,
        };
        assert_eq!(withdraw_collateral::handler(&ctx).err(), expected);
    }
}

#[test]
fn withdraw_is_for_the_recorded_host_only() {
    let mut ctx = WithdrawCollateral {
        host: ops_key(99),
        obligation: ops_obligation(false, true),
        vault_balance: 0,
    };
    assert_eq!(withdraw_collateral::handler(&ctx), Err(ErrorCode::NotAuthorizedOwner));
    // the flags are named before the host
    ctx.obligation = ops_obligation(true, true);
    assert_eq!(withdraw_collateral::handler(&ctx), Err(ErrorCode::ObligationStillLocked));
    ctx.obligation = ops_obligation(false, false);
    assert_eq!(withdraw_collateral::handler(&ctx), Err(ErrorCode::NotYetSettled));
}

#[test]
fn withdraw_closes_and_returns_what_is_left() {
    let mut ctx = WithdrawCollateral {
        host: ops_host(),
        obligation: ops_obligation(false, true),
        vault_balance: 0,
    };
    let close = Order::Close { record: Record::Obligation, refund_to: Custodian::Host };
    assert_eq!(withdraw_collateral::handler(&ctx), Ok(vec![close]));
    ctx.vault_balance = 1;
    assert_eq!(
        withdraw_collateral::handler(&ctx),
        Ok(vec![
            ops_collateral(Custodian::Obligation, Custodian::Host, Authority::Obligation),
            close,
        ])
    );
}

#[test]
fn pool_deposit_credits_position_and_pool() {
    let mut ctx = DepositLiquidity {
        investor: ops_key(80),
        position: Position {
            owner: ops_key(0),
            principal: 0,
            realized_profit: 0,
            unlock_ts: 0,
            bump: 0,
        },
        position_bump: 4,
        pool_vault: ops_pool(1_000),
    };
    let orders = deposit_liquidity::handler(&mut ctx, 500).unwrap();
    assert_eq!(orders, vec![ops_cash(Custodian::Investor, Custodian::Pool, 500, Authority::Signer)]);
    assert_eq!(
        ctx.position,
        Position { owner: ops_key(80), principal: 500, realized_profit: 0, unlock_ts: 0, bump: 4 }
    );
    assert_eq!(ctx.pool_vault, ops_pool(1_500));
    assert!(deposit_liquidity::handler(&mut ctx, 250).is_ok());
    assert_eq!(ctx.position.principal, 750);
    assert_eq!(ctx.pool_vault.total_liquidity_tracked, 1_750);
}

#[test]
fn pool_deposit_fails_closed_on_overflow() {
    let position =
        Position { owner: ops_key(80), principal: u64::MAX, realized_profit: 0, unlock_ts: 0, bump: 4 };
    let mut ctx = DepositLiquidity {
        investor: ops_key(80),
        position,
        position_bump: 4,
        pool_vault: ops_pool(0),
    };
    let before = ctx.clone();
    assert_eq!(deposit_liquidity::handler(&mut ctx, 1), Err(ErrorCode::MathOverflow));
    assert_eq!(ctx, before);
    ctx.position.principal = 0;
    ctx.pool_vault.total_liquidity_tracked = u64::MAX;
    let before = ctx.clone();
    assert_eq!(deposit_liquidity::handler(&mut ctx, 1), Err(ErrorCode::MathOverflow));
    assert_eq!(ctx, before);
    assert!(deposit_liquidity::handler(&mut ctx, 0).is_ok());
}

#[test]
fn pool_withdrawal_pays_principal_and_profit() {
    let position =
        Position { owner: ops_key(80), principal: 700, realized_profit: 55, unlock_ts: 3, bump: 4 };
    let mut ctx = WithdrawLiquidity { investor: ops_key(80), position, pool_vault: ops_pool(1_000) };
    let orders = withdraw_liquidity::handler(&mut ctx).unwrap();
    assert_eq!(
        orders,
        vec![
            ops_cash(Custodian::Pool, Custodian::Investor, 755, Authority::Pool),
            Order::Close { record: Record::Position, refund_to: Custodian::Investor },
        ]
    );
    assert_eq!(ctx.pool_vault, ops_pool(245));
    assert_eq!(
        ctx.position,
        Position { owner: ops_key(80), principal: 0, realized_profit: 0, unlock_ts: 3, bump: 4 }
    );
}

#[test]
fn pool_withdrawal_may_take_all_that_is_tracked() {
    let position =
        Position { owner: ops_key(80), principal: 700, realized_profit: 55, unlock_ts: 0, bump: 4 };
    let mut ctx = WithdrawLiquidity { investor: ops_key(80), position, pool_vault: ops_pool(755) };
    assert!(rent_flow::withdraw_liquidity(&mut ctx).is_ok());
    assert_eq!(ctx.pool_vault.total_liquidity_tracked, 0);
}

#[test]
fn pool_withdrawal_beyond_tracked_liquidity_fails_closed() {
    let position =
        Position { owner: ops_key(80), principal: 700, realized_profit: 55, unlock_ts: 0, bump: 4 };
    let mut ctx = WithdrawLiquidity { investor: ops_key(80), position, pool_vault: ops_pool(754) };
    let before = ctx.clone();
    assert_eq!(withdraw_liquidity::handler(&mut ctx), Err(ErrorCode::MathOverflow));
    assert_eq!(ctx, before);
}

#[test]
fn pool_withdrawal_reports_a_payout_that_does_not_fit() {
    let position = Position {
        owner: ops_key(80),
        principal: u64::MAX,
        realized_profit: 1,
        unlock_ts: 0,
        bump: 4,
    };
    let mut ctx =
        WithdrawLiquidity { investor: ops_key(80), position, pool_vault: ops_pool(u64::MAX) };
    let before = ctx.clone();
    assert_eq!(withdraw_liquidity::handler(&mut ctx), Err(ErrorCode::MathOverflow));
    assert_eq!(ctx, before);
}

#[test]
fn a_position_pays_out_once() {
    let position =
        Position { owner: ops_key(80), principal: 10, realized_profit: 1, unlock_ts: 0, bump: 4 };
    let mut ctx = WithdrawLiquidity { investor: ops_key(80), position, pool_vault: ops_pool(100) };
    assert!(withdraw_liquidity::handler(&mut ctx).is_ok());
    let again = withdraw_liquidity::handler(&mut ctx).unwrap();
    assert_eq!(again[0], ops_cash(Custodian::Pool, Custodian::Investor, 0, Authority::Pool));
    assert_eq!(ctx.pool_vault.total_liquidity_tracked, 89);
}
