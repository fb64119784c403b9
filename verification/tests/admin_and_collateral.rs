use forty_four_milady::accounts_admin::{ClaimFaucet, InitializeProtocol, RegisterFaucetAsset, RegisterMarket, SetPause, UpdateMarket};
use forty_four_milady::accounts_collateral::{DepositCollateral, InitializeCreditAccount, WithdrawCollateral};
use forty_four_milady::accounts_lending::{CloseCreditAccount, InitializeLendingPool, UpdateLendingPool};
use forty_four_milady::accounts_liquidation::UpdateLiquidationConfig;
use forty_four_milady::constants::INDEX_SCALE_E18;
use forty_four_milady::errors::MiladyError;
use forty_four_milady::handlers_admin::{claim_faucet, initialize_protocol, register_faucet_asset, register_market, set_pause, update_market};
use forty_four_milady::handlers_collateral::{deposit_collateral, initialize_credit_account, withdraw_collateral};
use forty_four_milady::handlers_lending::{close_credit_account, initialize_lending_pool, update_lending_pool};
use forty_four_milady::handlers_liquidation::update_liquidation_config;
use forty_four_milady::interest::{
    annual_interest_with_remainder, borrow_apr_bps, validate_interest_model,
};
use forty_four_milady::pubkey::Pubkey;
use forty_four_milady::risk::{health_factor_bps_for_debt, validate_risk_parameters, weighted_value, Clock};
use forty_four_milady::state::{
    CollateralBalance, CreditAccount, FaucetClaim, FaucetConfig, InitializeLendingPoolArgs, LendingPool,
    MarketConfig, ProtocolConfig, RegisterMarketArgs, UpdateLendingPoolArgs, UpdateMarketArgs,
};

fn key(b: u8) -> Pubkey {
    Pubkey::new_from_array([b; 32])
}

fn protocol(paused: bool) -> ProtocolConfig {
    ProtocolConfig { authority: key(1), treasury: key(2), emergency_authority: key(3), version: 7, paused, bump: 254 }
}

fn blank_pool() -> LendingPool {
    LendingPool {
        protocol: Pubkey::default(),
        usdg_mint: Pubkey::default(),
        liquidity_vault: Pubkey::default(),
        total_supplied_usdg: 0,
        total_borrowed_usdg: 0,
        protocol_reserves_usdg: 0,
        borrow_interest_remainder: 0,
        borrow_cap_usdg: 0,
        borrow_index_e18: 0,
        supply_index_e18: 0,
        last_accrual_ts: 0,
        reserve_factor_bps: 0,
        base_rate_bps: 0,
        slope1_bps: 0,
        slope2_bps: 0,
        kink_utilization_bps: 0,
        last_borrow_apr_bps: 0,
        last_supply_apr_bps: 0,
        borrow_enabled: false,
        bump: 0,
        insurance_reserve_usdg: 0,
        bad_debt_usdg: 0,
        liquidation_close_factor_bps: 0,
        liquidation_enabled: false,
    }
}

fn blank_market() -> MarketConfig {
    MarketConfig {
        protocol: Pubkey::default(),
        mint: Pubkey::default(),
        symbol: [0; 8],
        feed_id: [0; 32],
        decimals: 0,
        ltv_bps: 0,
        liquidation_threshold_bps: 0,
        liquidation_bonus_bps: 0,
        max_confidence_bps: 0,
        max_price_age_secs: 0,
        supply_cap: 0,
        debt_ceiling_usdg: 0,
        total_deposited: 0,
        enabled: false,
        bump: 0,
    }
}

fn market_args() -> RegisterMarketArgs {
    RegisterMarketArgs {
        symbol: *b"AAPLx\0\0\0",
        feed_id: [5; 32],
        ltv_bps: 6_000,
        liquidation_threshold_bps: 7_500,
        liquidation_bonus_bps: 500,
        max_confidence_bps: 100,
        max_price_age_secs: 60,
        supply_cap: 1_000,
        debt_ceiling_usdg: 0,
    }
}

fn empty_account(owner: Pubkey) -> CreditAccount {
    CreditAccount {
        owner,
        debt_usdg: 0,
        borrow_index_snapshot_e18: INDEX_SCALE_E18,
        last_borrow_ts: 0,
        collaterals: Vec::new(),
        last_collateral_value_usd_micro: 0,
        last_borrow_limit_usd_micro: 0,
        last_liquidation_capacity_usd_micro: 0,
        last_health_factor_bps: u64::MAX,
        last_valuation_ts: 0,
        bump: 250,
    }
}

#[test]
fn protocol_starts_unpaused_and_only_emergency_authority_pauses() {
    let mut init = InitializeProtocol {
        authority: key(1),
        treasury: key(2),
        emergency_authority: key(3),
        protocol_config: ProtocolConfig {
            authority: Pubkey::default(),
            treasury: Pubkey::default(),
            emergency_authority: Pubkey::default(),
            version: 0,
            paused: true,
            bump: 0,
        },
        protocol_config_bump: 254,
    };
    let event = initialize_protocol(&mut init).unwrap();
    assert_eq!(event.version, 7);
    assert!(init.protocol_config.version >= 7);
    assert!(!init.protocol_config.paused);
    assert_eq!(init.protocol_config.emergency_authority.bytes, key(3).bytes);

    let mut stranger = SetPause { emergency_authority: key(1), protocol_config: init.protocol_config };
    assert_eq!(set_pause(&mut stranger, true).unwrap_err(), MiladyError::Unauthorized);
    assert!(!stranger.protocol_config.paused);
    let mut guard = SetPause { emergency_authority: key(3), protocol_config: init.protocol_config };
    assert!(set_pause(&mut guard, true).unwrap().paused);
    assert!(guard.protocol_config.paused);
    assert!(!set_pause(&mut guard, false).unwrap().paused);
}

#[test]
fn market_registration_validates_risk_parameters() {
    let ctx = RegisterMarket {
        authority: key(1),
        protocol_config: protocol(false),
        protocol_config_key: key(10),
        collateral_mint: key(20),
        collateral_mint_decimals: 6,
        market_config: blank_market(),
        market_config_key: key(30),
        market_config_bump: 200,
    };
    let mut ok = ctx;
    let event = register_market(&mut ok, market_args()).unwrap();
    assert_eq!(event.ltv_bps, 6_000);
    assert!(ok.market_config.enabled);
    assert_eq!(ok.market_config.total_deposited, 0);
    assert_eq!(ok.market_config.decimals, 6);

    let mut stranger = ctx;
    stranger.authority = key(9);
    assert_eq!(register_market(&mut stranger, market_args()).unwrap_err(), MiladyError::Unauthorized);

    let cases: [(fn(&mut RegisterMarketArgs), MiladyError); 7] = [
        (|a| a.ltv_bps = 0, MiladyError::InvalidLtv),
        (|a| a.liquidation_threshold_bps = 6_000, MiladyError::InvalidLiquidationThreshold),
        (|a| a.liquidation_bonus_bps = 2_501, MiladyError::InvalidLiquidationBonus),
        (|a| a.max_confidence_bps = 0, MiladyError::InvalidConfidenceLimit),
        (|a| a.max_price_age_secs = 3_601, MiladyError::InvalidOracleAge),
        (|a| a.symbol = [0; 8], MiladyError::InvalidSymbol),
        (|a| a.feed_id = [0; 32], MiladyError::InvalidFeedId),
    ];
    for (change, expected) in cases.iter() {
        let mut args = market_args();
        change(&mut args);
        let mut attempt = ctx;
        assert_eq!(register_market(&mut attempt, args).unwrap_err(), *expected);
    }
    assert!(validate_risk_parameters(9_000, 10_000, 2_500, 2_000, 3_600).is_ok());
}

#[test]
fn market_update_replaces_parameters() {
    let mut m = blank_market();
    m.protocol = key(10);
    let mut ctx = UpdateMarket {
        authority: key(1),
        protocol_config: protocol(false),
        protocol_config_key: key(10),
        market_config: m,
        market_config_key: key(30),
    };
    let args = UpdateMarketArgs {
        feed_id: [6; 32],
        ltv_bps: 5_000,
        liquidation_threshold_bps: 6_000,
        liquidation_bonus_bps: 300,
        max_confidence_bps: 50,
        max_price_age_secs: 30,
        supply_cap: 5,
        debt_ceiling_usdg: 6,
        enabled: false,
    };
    let event = update_market(&mut ctx, args).unwrap();
    assert!(!event.enabled);
    assert_eq!(ctx.market_config.feed_id, [6; 32]);
    assert_eq!(ctx.market_config.supply_cap, 5);
    let mut foreign = ctx;
    foreign.protocol_config_key = key(11);
    assert_eq!(update_market(&mut foreign, args).unwrap_err(), MiladyError::InvalidProtocol);
}

fn faucet_ctx() -> ClaimFaucet {
    ClaimFaucet {
        claimant: key(40),
        protocol_config: protocol(false),
        protocol_config_key: key(10),
        faucet_config: FaucetConfig {
            protocol: key(10),
            mint: key(20),
            amount_per_claim: 1_000,
            cooldown_seconds: 100,
            enabled: true,
            bump: 1,
        },
        mint: key(20),
        faucet_claim: FaucetClaim { claimant: Pubkey::default(), mint: Pubkey::default(), last_claim_ts: 0, total_claimed: 0, bump: 0 },
        faucet_claim_bump: 2,
    }
}

#[test]
fn faucet_cooldown_between_claims() {
    let mut ctx = faucet_ctx();
    let first = claim_faucet(&mut ctx, &Clock { unix_timestamp: 500 }).unwrap();
    assert_eq!(first.amount, 1_000);
    assert_eq!(first.total_claimed, 1_000);
    assert_eq!(claim_faucet(&mut ctx, &Clock { unix_timestamp: 599 }).unwrap_err(), MiladyError::FaucetCooldown);
    let second = claim_faucet(&mut ctx, &Clock { unix_timestamp: 600 }).unwrap();
    assert_eq!(second.total_claimed, 2_000);
    assert_eq!(ctx.faucet_claim.last_claim_ts, 600);

    let mut off = faucet_ctx();
    off.faucet_config.enabled = false;
    assert_eq!(claim_faucet(&mut off, &Clock { unix_timestamp: 500 }).unwrap_err(), MiladyError::FaucetDisabled);
    let mut paused = faucet_ctx();
    paused.protocol_config.paused = true;
    assert_eq!(claim_faucet(&mut paused, &Clock { unix_timestamp: 500 }).unwrap_err(), MiladyError::ProtocolPaused);
    let mut wrong_mint = faucet_ctx();
    wrong_mint.mint = key(21);
    assert_eq!(claim_faucet(&mut wrong_mint, &Clock { unix_timestamp: 500 }).unwrap_err(), MiladyError::InvalidMint);
}

#[test]
fn faucet_registration_bounds() {
    let mut ctx = RegisterFaucetAsset {
        authority: key(1),
        protocol_config: protocol(false),
        protocol_config_key: key(10),
        mint: key(20),
        faucet_config: faucet_ctx().faucet_config,
        faucet_config_bump: 3,
    };
    assert_eq!(register_faucet_asset(&mut ctx, 0, 10).unwrap_err(), MiladyError::InvalidAmount);
    assert_eq!(register_faucet_asset(&mut ctx, 1, 86_401).unwrap_err(), MiladyError::InvalidCooldown);
    let event = register_faucet_asset(&mut ctx, 5, 86_400).unwrap();
    assert_eq!(event.cooldown_seconds, 86_400);
    assert!(ctx.faucet_config.enabled);
}

fn deposit_ctx(account: CreditAccount, market_key: Pubkey) -> DepositCollateral {
    let mut m = blank_market();
    m.protocol = key(10);
    m.mint = key(20);
    m.enabled = true;
    DepositCollateral {
        owner: key(40),
        protocol_config: protocol(false),
        protocol_config_key: key(10),
        credit_account: account,
        market_config: m,
        market_config_key: market_key,
        collateral_mint: key(20),
        collateral_mint_decimals: 6,
    }
}

#[test]
fn deposit_then_withdraw_restores_collateral_list() {
    let mut init = InitializeCreditAccount {
        owner: key(40),
        protocol_config: protocol(false),
        credit_account: empty_account(Pubkey::default()),
        credit_account_key: key(41),
        credit_account_bump: 250,
    };
    initialize_credit_account(&mut init).unwrap();
    assert_eq!(init.credit_account.owner.bytes, key(40).bytes);

    let mut dep = deposit_ctx(init.credit_account.clone(), key(30));
    let event = deposit_collateral(&mut dep, 700).unwrap();
    assert_eq!(event.amount, 700);
    assert_eq!(dep.market_config.total_deposited, 700);
    assert_eq!(dep.credit_account.collaterals.len(), 1);
    let mut again = deposit_ctx(dep.credit_account.clone(), key(30));
    again.market_config = dep.market_config;
    deposit_collateral(&mut again, 300).unwrap();
    assert_eq!(again.credit_account.collaterals.len(), 1);
    assert_eq!(again.credit_account.collaterals[0].amount, 1_000);

    let mut w = WithdrawCollateral {
        owner: key(40),
        protocol_config: protocol(false),
        protocol_config_key: key(10),
        credit_account: again.credit_account.clone(),
        lending_pool: LendingPool { protocol: key(10), ..blank_pool() },
        market_config: again.market_config,
        market_config_key: key(30),
        collateral_mint: key(20),
        collateral_mint_decimals: 6,
        remaining_accounts: Vec::new(),
    };
    let clk = Clock { unix_timestamp: 10 };
    assert_eq!(withdraw_collateral(&mut w, 1_001, &clk).unwrap_err(), MiladyError::InsufficientCollateral);
    withdraw_collateral(&mut w, 1_000, &clk).unwrap();
    assert!(w.credit_account.collaterals.is_empty());
    assert_eq!(w.market_config.total_deposited, 0);
    assert_eq!(withdraw_collateral(&mut w, 1, &clk).unwrap_err(), MiladyError::CollateralNotFound);

    let close = CloseCreditAccount {
        owner: key(40),
        protocol_config: protocol(false),
        credit_account: w.credit_account.clone(),
        credit_account_key: key(41),
    };
    assert!(close_credit_account(&close).is_ok());
}

#[test]
fn collateral_refusals_name_their_reason() {
    let mut full = empty_account(key(40));
    for i in 0..8u8 {
        full.collaterals.push(CollateralBalance { market: key(100 + i), amount: 1 });
    }
    let mut ninth = deposit_ctx(full.clone(), key(30));
    assert_eq!(deposit_collateral(&mut ninth, 1).unwrap_err(), MiladyError::TooManyCollateralAssets);
    let mut ninth_existing = deposit_ctx(full.clone(), key(100));
    assert!(deposit_collateral(&mut ninth_existing, 1).is_ok());

    let mut capped = deposit_ctx(empty_account(key(40)), key(30));
    capped.market_config.supply_cap = 10;
    assert_eq!(deposit_collateral(&mut capped, 11).unwrap_err(), MiladyError::SupplyCapExceeded);
    let mut disabled = deposit_ctx(empty_account(key(40)), key(30));
    disabled.market_config.enabled = false;
    assert_eq!(deposit_collateral(&mut disabled, 1).unwrap_err(), MiladyError::MarketDisabled);
    let mut zero = deposit_ctx(empty_account(key(40)), key(30));
    assert_eq!(deposit_collateral(&mut zero, 0).unwrap_err(), MiladyError::InvalidAmount);
    let mut paused = deposit_ctx(empty_account(key(40)), key(30));
    paused.protocol_config.paused = true;
    assert_eq!(deposit_collateral(&mut paused, 1).unwrap_err(), MiladyError::ProtocolPaused);
    let mut stranger = deposit_ctx(empty_account(key(41)), key(30));
    assert_eq!(deposit_collateral(&mut stranger, 1).unwrap_err(), MiladyError::Unauthorized);

    let mut indebted = empty_account(key(40));
    indebted.debt_usdg = 1;
    let close = CloseCreditAccount { owner: key(40), protocol_config: protocol(false), credit_account: indebted, credit_account_key: key(41) };
    assert_eq!(close_credit_account(&close).unwrap_err(), MiladyError::CreditAccountHasDebt);
    let close = CloseCreditAccount { owner: key(40), protocol_config: protocol(false), credit_account: full, credit_account_key: key(41) };
    assert_eq!(close_credit_account(&close).unwrap_err(), MiladyError::CreditAccountHasCollateral);
}

#[test]
fn unsafe_collateral_withdrawal_is_refused_with_debt() {
    let mut a = empty_account(key(40));
    a.collaterals.push(CollateralBalance { market: key(30), amount: 5 });
    a.debt_usdg = 1;
    let mut m = blank_market();
    m.protocol = key(10);
    m.mint = key(20);
    m.total_deposited = 5;
    let mut w = WithdrawCollateral {
        owner: key(40),
        protocol_config: protocol(false),
        protocol_config_key: key(10),
        credit_account: a,
        lending_pool: LendingPool { protocol: key(10), ..blank_pool() },
        market_config: m,
        market_config_key: key(30),
        collateral_mint: key(20),
        collateral_mint_decimals: 6,
        remaining_accounts: Vec::new(),
    };
    assert_eq!(withdraw_collateral(&mut w, 5, &Clock { unix_timestamp: 1 }).unwrap_err(), MiladyError::UnsafeWithdrawal);
    assert_eq!(w.credit_account.collaterals.len(), 1);
}

#[test]
fn lending_pool_starts_disabled_and_validates_its_model() {
    let args = InitializeLendingPoolArgs {
        borrow_cap_usdg: 0,
        reserve_factor_bps: 1_000,
        base_rate_bps: 200,
        slope1_bps: 800,
        slope2_bps: 5_000,
        kink_utilization_bps: 8_000,
    };
    let ctx = InitializeLendingPool {
        authority: key(1),
        protocol_config: protocol(false),
        protocol_config_key: key(10),
        usdg_mint: key(11),
        usdg_mint_decimals: 6,
        lending_pool: blank_pool(),
        lending_pool_key: key(50),
        lending_pool_bump: 9,
        liquidity_vault: key(12),
    };
    let mut ok = ctx;
    initialize_lending_pool(&mut ok, args, &Clock { unix_timestamp: 5 }).unwrap();
    assert!(!ok.lending_pool.borrow_enabled);
    assert_eq!(ok.lending_pool.borrow_index_e18, INDEX_SCALE_E18);
    assert_eq!(ok.lending_pool.last_accrual_ts, 5);

    let mut nine = ctx;
    nine.usdg_mint_decimals = 9;
    assert_eq!(initialize_lending_pool(&mut nine, args, &Clock { unix_timestamp: 5 }).unwrap_err(), MiladyError::InvalidUsdgDecimals);
    let mut bad_kink = ctx;
    assert_eq!(
        initialize_lending_pool(&mut bad_kink, InitializeLendingPoolArgs { kink_utilization_bps: 10_000, ..args }, &Clock { unix_timestamp: 5 }).unwrap_err(),
        MiladyError::InvalidInterestKink
    );

    let mut update = UpdateLendingPool {
        authority: key(1),
        protocol_config: protocol(false),
        protocol_config_key: key(10),
        lending_pool: ok.lending_pool,
        lending_pool_key: key(50),
    };
    let new_args = UpdateLendingPoolArgs {
        borrow_cap_usdg: 0,
        reserve_factor_bps: 1_000,
        base_rate_bps: 200,
        slope1_bps: 800,
        slope2_bps: 5_000,
        kink_utilization_bps: 8_000,
        borrow_enabled: true,
    };
    let (_, event) = update_lending_pool(&mut update, new_args, &Clock { unix_timestamp: 6 }).unwrap();
    assert!(event.borrow_enabled);
    assert!(update.lending_pool.borrow_enabled);

    let mut liq = UpdateLiquidationConfig {
        authority: key(1),
        protocol_config: protocol(false),
        protocol_config_key: key(10),
        lending_pool: update.lending_pool,
        lending_pool_key: key(50),
    };
    assert_eq!(update_liquidation_config(&mut liq, 0, true).unwrap_err(), MiladyError::InvalidCloseFactor);
    assert_eq!(update_liquidation_config(&mut liq, 10_001, true).unwrap_err(), MiladyError::InvalidCloseFactor);
    let event = update_liquidation_config(&mut liq, 5_000, true).unwrap();
    assert_eq!(event.close_factor_bps, 5_000);
    assert!(liq.lending_pool.liquidation_enabled);
}

#[test]
fn interest_model_bounds() {
    assert_eq!(validate_interest_model(5_001, 0, 0, 0, 5_000).unwrap_err(), MiladyError::InvalidReserveFactor);
    assert_eq!(validate_interest_model(0, 0, 0, 0, 0).unwrap_err(), MiladyError::InvalidInterestKink);
    assert_eq!(validate_interest_model(0, 5_000, 5_000, 1, 5_000).unwrap_err(), MiladyError::InterestRateTooHigh);
    assert_eq!(validate_interest_model(0, u32::MAX, 1, 0, 5_000).unwrap_err(), MiladyError::MathOverflow);
    assert!(validate_interest_model(5_000, 5_000, 4_000, 1_000, 9_999).is_ok());
}

#[test]
fn split_accrual_charges_what_one_accrual_would() {
    let (i1, r1) = annual_interest_with_remainder(123_456_789, 1_337, 40_000, 0).unwrap();
    let (i2, r2) = annual_interest_with_remainder(123_456_789, 1_337, 60_000, r1).unwrap();
    let (whole, rw) = annual_interest_with_remainder(123_456_789, 1_337, 100_000, 0).unwrap();
    assert_eq!(i1 + i2, whole);
    assert_eq!(r2, rw);
    let exact = 123_456_789u128 * 1_337 * 100_000;
    assert_eq!(whole as u128 * 31_536_000 * 10_000 + rw, exact);
}

#[test]
fn borrow_rate_never_falls_as_utilization_rises() {
    let mut last = 0u32;
    for step in 0..=100u64 {
        let pool = LendingPool {
            total_supplied_usdg: 10_000_000_000,
            total_borrowed_usdg: step * 100_000_000,
            reserve_factor_bps: 1_000,
            base_rate_bps: 200,
            slope1_bps: 800,
            slope2_bps: 5_000,
            kink_utilization_bps: 8_000,
            ..blank_pool()
        };
        let rate = borrow_apr_bps(&pool).unwrap();
        assert!(rate >= last);
        last = rate;
    }
    assert_eq!(last, 6_000);
}

#[test]
fn health_never_rises_with_debt() {
    let mut last = u64::MAX;
    for debt in [0u64, 1, 10, 1_000, 1_000_000, 3_000_000_000, u64::MAX] {
        let h = health_factor_bps_for_debt(7_500_000_000, debt).unwrap();
        assert!(h <= last);
        last = h;
    }
    assert_eq!(health_factor_bps_for_debt(1, 2).unwrap(), 5_000);
    assert_eq!(health_factor_bps_for_debt(u64::MAX, 1).unwrap(), u64::MAX);
}

#[test]
fn accepted_market_lends_below_capacity() {
    assert!(validate_risk_parameters(6_000, 7_500, 500, 100, 60).is_ok());
    for value in [0u64, 1, 9_999, 19_025_000_000, u64::MAX] {
        let limit = weighted_value(value, 6_000).unwrap();
        let capacity = weighted_value(value, 7_500).unwrap();
        assert!(limit <= capacity);
        assert!(capacity <= value as u128);
    }
    assert_eq!(validate_risk_parameters(7_500, 7_500, 500, 100, 60).unwrap_err(), MiladyError::InvalidLiquidationThreshold);
}
