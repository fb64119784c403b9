use forty_four_milady::accounts_lending::{BorrowUsdg, RepayUsdg, RepayUsdgOnBehalf, SupplyUsdg, WithdrawSuppliedUsdg};
use forty_four_milady::accounts_liquidation::{AbsorbBadDebt, FundInsuranceReserve, Liquidate, RecapitalizeBadDebt};
use forty_four_milady::constants::INDEX_SCALE_E18;
use forty_four_milady::errors::MiladyError;
use forty_four_milady::handlers_lending::{
    borrow_usdg, repay_usdg, repay_usdg_max, repay_usdg_on_behalf, supply_usdg, withdraw_supplied_usdg,
};
use forty_four_milady::handlers_liquidation::{
    absorb_bad_debt, fund_insurance_reserve, liquidate, recapitalize_bad_debt,
};
use forty_four_milady::interest::pool_available_liquidity;
use forty_four_milady::pubkey::Pubkey;
use forty_four_milady::risk::{read_pyth_price, AccountInfo, Clock};
use forty_four_milady::state::{
    CollateralBalance, CreditAccount, LendingPool, MarketConfig, ProtocolConfig, SupplierPosition,
};

const NOW: i64 = 1_000;
const FEED: [u8; 32] = [7u8; 32];

fn key(b: u8) -> Pubkey {
    Pubkey::new_from_array([b; 32])
}

fn protocol(paused: bool) -> ProtocolConfig {
    ProtocolConfig {
        authority: key(1),
        treasury: key(2),
        emergency_authority: key(3),
        version: 7,
        paused,
        bump: 254,
    }
}

fn pool() -> LendingPool {
    LendingPool {
        protocol: key(10),
        usdg_mint: key(11),
        liquidity_vault: key(12),
        total_supplied_usdg: 10_000_000_000,
        total_borrowed_usdg: 0,
        protocol_reserves_usdg: 0,
        borrow_interest_remainder: 0,
        borrow_cap_usdg: 0,
        borrow_index_e18: INDEX_SCALE_E18,
        supply_index_e18: INDEX_SCALE_E18,
        last_accrual_ts: NOW,
        reserve_factor_bps: 1_000,
        base_rate_bps: 200,
        slope1_bps: 800,
        slope2_bps: 5_000,
        kink_utilization_bps: 8_000,
        last_borrow_apr_bps: 200,
        last_supply_apr_bps: 0,
        borrow_enabled: true,
        bump: 253,
        insurance_reserve_usdg: 0,
        bad_debt_usdg: 0,
        liquidation_close_factor_bps: 5_000,
        liquidation_enabled: true,
    }
}

fn market(ltv: u16, threshold: u16) -> MarketConfig {
    MarketConfig {
        protocol: key(10),
        mint: key(20),
        symbol: *b"NVDAx\0\0\0",
        feed_id: FEED,
        decimals: 6,
        ltv_bps: ltv,
        liquidation_threshold_bps: threshold,
        liquidation_bonus_bps: 500,
        max_confidence_bps: 100,
        max_price_age_secs: 60,
        supply_cap: 0,
        debt_ceiling_usdg: 0,
        total_deposited: 100_000_000,
        enabled: true,
        bump: 252,
    }
}

fn market_bytes(m: &MarketConfig) -> Vec<u8> {
    let mut d: Vec<u8> = vec![119, 255, 200, 88, 252, 82, 128, 24];
    d.extend_from_slice(&m.protocol.bytes);
    d.extend_from_slice(&m.mint.bytes);
    d.extend_from_slice(&m.symbol);
    d.extend_from_slice(&m.feed_id);
    d.push(m.decimals);
    d.extend_from_slice(&m.ltv_bps.to_le_bytes());
    d.extend_from_slice(&m.liquidation_threshold_bps.to_le_bytes());
    d.extend_from_slice(&m.liquidation_bonus_bps.to_le_bytes());
    d.extend_from_slice(&m.max_confidence_bps.to_le_bytes());
    d.extend_from_slice(&m.max_price_age_secs.to_le_bytes());
    d.extend_from_slice(&m.supply_cap.to_le_bytes());
    d.extend_from_slice(&m.debt_ceiling_usdg.to_le_bytes());
    d.extend_from_slice(&m.total_deposited.to_le_bytes());
    d.push(if m.enabled { 1 } else { 0 });
    d.push(m.bump);
    d
}

fn pyth_bytes(feed: [u8; 32], price: i64, conf: u64, exponent: i32, publish_time: i64) -> Vec<u8> {
    let mut d: Vec<u8> = vec![34, 241, 35, 99, 157, 126, 244, 205];
    d.extend_from_slice(&[9u8; 32]);
    d.push(1);
    d.extend_from_slice(&feed);
    d.extend_from_slice(&price.to_le_bytes());
    d.extend_from_slice(&conf.to_le_bytes());
    d.extend_from_slice(&exponent.to_le_bytes());
    d.extend_from_slice(&publish_time.to_le_bytes());
    d.extend_from_slice(&(publish_time - 1).to_le_bytes());
    d.extend_from_slice(&price.to_le_bytes());
    d.extend_from_slice(&conf.to_le_bytes());
    d.extend_from_slice(&77u64.to_le_bytes());
    d
}

fn market_info(m: &MarketConfig) -> AccountInfo {
    AccountInfo { key: key(30), owner: Pubkey::program_id(), data: market_bytes(m) }
}

fn price_info(price: i64) -> AccountInfo {
    AccountInfo {
        key: key(31),
        owner: Pubkey::pyth_receiver_id(),
        data: pyth_bytes(FEED, price, 1_000_000, -8, NOW),
    }
}

/// 100 whole NVDAx tokens of collateral, recorded under market key 30.
fn account(debt: u64) -> CreditAccount {
    CreditAccount {
        owner: key(40),
        debt_usdg: debt,
        borrow_index_snapshot_e18: INDEX_SCALE_E18,
        last_borrow_ts: NOW,
        collaterals: vec![CollateralBalance { market: key(30), amount: 100_000_000 }],
        last_collateral_value_usd_micro: 0,
        last_borrow_limit_usd_micro: 0,
        last_liquidation_capacity_usd_micro: 0,
        last_health_factor_bps: u64::MAX,
        last_valuation_ts: 0,
        bump: 251,
    }
}

fn borrow_ctx(price: i64, m: &MarketConfig) -> BorrowUsdg {
    BorrowUsdg {
        borrower: key(40),
        protocol_config: protocol(false),
        protocol_config_key: key(10),
        credit_account: account(0),
        lending_pool: pool(),
        lending_pool_key: key(50),
        usdg_mint: key(11),
        usdg_mint_decimals: 6,
        liquidity_vault: key(12),
        liquidity_vault_amount: 10_000_000_000,
        remaining_accounts: vec![market_info(m), price_info(price)],
    }
}

fn clock() -> Clock {
    Clock { unix_timestamp: NOW }
}

#[test]
fn pyth_price_update_is_decoded_and_checked() {
    let m = market(6_000, 7_500);
    let ok = read_pyth_price(&price_info(19_025_000_000), &clock(), &m).unwrap();
    assert_eq!(ok.price, 19_025_000_000);
    assert_eq!(ok.exponent, -8);

    let mut wrong_owner = price_info(19_025_000_000);
    wrong_owner.owner = key(99);
    assert_eq!(read_pyth_price(&wrong_owner, &clock(), &m).unwrap_err(), MiladyError::InvalidOracleOwner);

    let mut partial = price_info(19_025_000_000);
    partial.data[40] = 0;
    assert_eq!(read_pyth_price(&partial, &clock(), &m).unwrap_err(), MiladyError::OracleReadFailed);

    let other_feed = AccountInfo {
        key: key(31),
        owner: Pubkey::pyth_receiver_id(),
        data: pyth_bytes([8u8; 32], 19_025_000_000, 1_000_000, -8, NOW),
    };
    assert_eq!(read_pyth_price(&other_feed, &clock(), &m).unwrap_err(), MiladyError::OracleReadFailed);

    let late = Clock { unix_timestamp: NOW + 61 };
    assert_eq!(read_pyth_price(&price_info(19_025_000_000), &late, &m).unwrap_err(), MiladyError::OracleReadFailed);
    let edge = Clock { unix_timestamp: NOW + 60 };
    assert!(read_pyth_price(&price_info(19_025_000_000), &edge, &m).is_ok());

    assert_eq!(read_pyth_price(&price_info(-5), &clock(), &m).unwrap_err(), MiladyError::InvalidOraclePrice);

    let wide = AccountInfo {
        key: key(31),
        owner: Pubkey::pyth_receiver_id(),
        data: pyth_bytes(FEED, 19_025_000_000, 400_000_000, -8, NOW),
    };
    assert_eq!(read_pyth_price(&wide, &clock(), &m).unwrap_err(), MiladyError::OracleConfidenceTooWide);

    let mut short = price_info(19_025_000_000);
    short.data.truncate(132);
    assert_eq!(read_pyth_price(&short, &clock(), &m).unwrap_err(), MiladyError::OracleReadFailed);
}

#[test]
fn market_account_decodes_its_fields() {
    let m = market(6_000, 7_500);
    let bytes = market_bytes(&m);
    assert_eq!(bytes.len(), 151);
    let decoded = MarketConfig::try_deserialize(&bytes).unwrap();
    assert_eq!(decoded.protocol.bytes, m.protocol.bytes);
    assert_eq!(decoded.mint.bytes, m.mint.bytes);
    assert_eq!(decoded.symbol, m.symbol);
    assert_eq!(decoded.feed_id, FEED);
    assert_eq!(decoded.ltv_bps, 6_000);
    assert_eq!(decoded.liquidation_threshold_bps, 7_500);
    assert_eq!(decoded.liquidation_bonus_bps, 500);
    assert_eq!(decoded.max_price_age_secs, 60);
    assert_eq!(decoded.total_deposited, 100_000_000);
    assert!(decoded.enabled);
    assert_eq!(decoded.bump, 252);

    let mut bad_disc = bytes.clone();
    bad_disc[0] = 0;
    assert_eq!(MarketConfig::try_deserialize(&bad_disc).unwrap_err(), MiladyError::AccountDiscriminatorMismatch);
    assert_eq!(MarketConfig::try_deserialize(&bytes[..7]).unwrap_err(), MiladyError::AccountDiscriminatorNotFound);
    let mut foreign_market = borrow_ctx(19_025_000_000, &m);
    foreign_market.remaining_accounts[0].data[3] ^= 1;
    assert_eq!(
        borrow_usdg(&mut foreign_market, 1, &clock()).unwrap_err(),
        MiladyError::AccountDiscriminatorMismatch
    );
    let mut bad_bool = bytes.clone();
    bad_bool[149] = 2;
    assert_eq!(MarketConfig::try_deserialize(&bad_bool).unwrap_err(), MiladyError::AccountDidNotDeserialize);
    assert_eq!(MarketConfig::try_deserialize(&bytes[..150]).unwrap_err(), MiladyError::AccountDidNotDeserialize);
}

#[test]
fn borrow_within_limit_then_repay_max_restores_liquidity() {
    let m = market(6_000, 7_500);
    let mut ctx = borrow_ctx(19_025_000_000, &m);
    let (accrued, event) = borrow_usdg(&mut ctx, 5_000_000_000, &clock()).unwrap();
    assert!(accrued.is_none());
    assert_eq!(event.amount, 5_000_000_000);
    assert_eq!(event.new_debt_usdg, 5_000_000_000);
    assert_eq!(event.borrow_limit_usd_micro, 11_415_000_000);
    assert_eq!(event.health_factor_bps, 28_537);
    assert_eq!(event.total_borrowed_usdg, 5_000_000_000);
    assert_eq!(ctx.credit_account.debt_usdg, 5_000_000_000);
    assert_eq!(pool_available_liquidity(&ctx.lending_pool).unwrap(), 5_000_000_000);

    let mut repay = RepayUsdg {
        payer: key(40),
        protocol_config: protocol(true),
        protocol_config_key: key(10),
        credit_account: ctx.credit_account.clone(),
        lending_pool: ctx.lending_pool,
        lending_pool_key: key(50),
        usdg_mint: key(11),
        usdg_mint_decimals: 6,
        payer_usdg_amount: 6_000_000_000,
        liquidity_vault: key(12),
    };
    let (_, repaid) = repay_usdg_max(&mut repay, &clock()).unwrap();
    assert_eq!(repaid.amount, 5_000_000_000);
    assert_eq!(repaid.remaining_debt_usdg, 0);
    assert_eq!(repaid.health_factor_bps, u64::MAX);
    assert_eq!(repaid.available_liquidity_usdg, 10_000_000_000);
    assert!(!repaid.on_behalf);
    assert_eq!(repay.credit_account.debt_usdg, 0);
}

#[test]
fn borrow_refusals_name_their_reason() {
    let m = market(6_000, 7_500);
    let clk = clock();

    let mut paused = borrow_ctx(19_025_000_000, &m);
    paused.protocol_config.paused = true;
    assert_eq!(borrow_usdg(&mut paused, 1, &clk).unwrap_err(), MiladyError::ProtocolPaused);

    let mut disabled = borrow_ctx(19_025_000_000, &m);
    disabled.lending_pool.borrow_enabled = false;
    assert_eq!(borrow_usdg(&mut disabled, 1, &clk).unwrap_err(), MiladyError::BorrowingDisabled);

    let mut zero = borrow_ctx(19_025_000_000, &m);
    assert_eq!(borrow_usdg(&mut zero, 0, &clk).unwrap_err(), MiladyError::InvalidAmount);

    let mut decimals = borrow_ctx(19_025_000_000, &m);
    decimals.usdg_mint_decimals = 9;
    assert_eq!(borrow_usdg(&mut decimals, 1, &clk).unwrap_err(), MiladyError::InvalidUsdgDecimals);

    let mut over_limit = borrow_ctx(19_025_000_000, &m);
    assert_eq!(borrow_usdg(&mut over_limit, 11_415_000_001, &clk).unwrap_err(), MiladyError::InsufficientLiquidity);
    let mut rich_pool = borrow_ctx(19_025_000_000, &m);
    rich_pool.lending_pool.total_supplied_usdg = 100_000_000_000;
    rich_pool.liquidity_vault_amount = 100_000_000_000;
    assert_eq!(borrow_usdg(&mut rich_pool, 11_415_000_001, &clk).unwrap_err(), MiladyError::BorrowLimitExceeded);

    let mut capped = borrow_ctx(19_025_000_000, &m);
    capped.lending_pool.borrow_cap_usdg = 1_000_000_000;
    assert_eq!(borrow_usdg(&mut capped, 1_000_000_001, &clk).unwrap_err(), MiladyError::BorrowCapExceeded);

    let mut vault_short = borrow_ctx(19_025_000_000, &m);
    vault_short.liquidity_vault_amount = 10;
    assert_eq!(borrow_usdg(&mut vault_short, 11, &clk).unwrap_err(), MiladyError::InsufficientLiquidity);

    let mut missing_oracle = borrow_ctx(19_025_000_000, &m);
    missing_oracle.remaining_accounts.pop();
    assert_eq!(borrow_usdg(&mut missing_oracle, 1, &clk).unwrap_err(), MiladyError::InvalidRiskAccounts);

    let mut wrong_market = borrow_ctx(19_025_000_000, &m);
    wrong_market.remaining_accounts[0].key = key(33);
    assert_eq!(borrow_usdg(&mut wrong_market, 1, &clk).unwrap_err(), MiladyError::MarketAccountMismatch);

    let mut foreign_market = borrow_ctx(19_025_000_000, &m);
    foreign_market.remaining_accounts[0].owner = key(34);
    assert_eq!(borrow_usdg(&mut foreign_market, 1, &clk).unwrap_err(), MiladyError::InvalidMarketOwner);

    let mut off_market = market(6_000, 7_500);
    off_market.enabled = false;
    let mut closed = borrow_ctx(19_025_000_000, &off_market);
    assert_eq!(borrow_usdg(&mut closed, 1, &clk).unwrap_err(), MiladyError::MarketDisabled);

    let loose = market(8_000, 7_500);
    let mut liquidatable = borrow_ctx(19_025_000_000, &loose);
    liquidatable.lending_pool.total_supplied_usdg = 100_000_000_000;
    liquidatable.liquidity_vault_amount = 100_000_000_000;
    assert_eq!(
        borrow_usdg(&mut liquidatable, 15_000_000_000, &clk).unwrap_err(),
        MiladyError::BorrowWouldBeLiquidatable
    );

    let mut stranger = borrow_ctx(19_025_000_000, &m);
    stranger.borrower = key(41);
    assert_eq!(borrow_usdg(&mut stranger, 1, &clk).unwrap_err(), MiladyError::Unauthorized);

    let mut wrong_vault = borrow_ctx(19_025_000_000, &m);
    wrong_vault.liquidity_vault = key(13);
    assert_eq!(borrow_usdg(&mut wrong_vault, 1, &clk).unwrap_err(), MiladyError::InvalidLiquidityVault);

    let mut before = borrow_ctx(19_025_000_000, &m);
    before.lending_pool.last_accrual_ts = NOW + 1;
    assert_eq!(borrow_usdg(&mut before, 1, &clk).unwrap_err(), MiladyError::ClockWentBackwards);
}

fn liquidate_ctx(price: i64) -> Liquidate {
    let m = market(6_000, 7_500);
    let mut p = pool();
    p.total_borrowed_usdg = 5_000_000_000;
    Liquidate {
        liquidator: key(60),
        borrower: key(40),
        protocol_config: protocol(true),
        protocol_config_key: key(10),
        credit_account: account(5_000_000_000),
        lending_pool: p,
        lending_pool_key: key(50),
        usdg_mint: key(11),
        usdg_mint_decimals: 6,
        liquidator_usdg_amount: 10_000_000_000,
        liquidity_vault: key(12),
        market_config: m,
        market_config_key: key(30),
        collateral_mint: key(20),
        collateral_mint_decimals: 6,
        collateral_vault_amount: 100_000_000,
        price_update: price_info(price),
        remaining_accounts: vec![market_info(&m), price_info(price)],
    }
}

#[test]
fn liquidation_after_price_drop_repays_and_seizes_with_bonus() {
    let mut ctx = liquidate_ctx(5_000_000_000);
    let before = pool_available_liquidity(&ctx.lending_pool).unwrap();
    let (_, event) = liquidate(&mut ctx, 1_000_000_000, &clock()).unwrap();
    assert_eq!(event.repay_usdg, 1_000_000_000);
    assert_eq!(event.collateral_seized, 21_000_000);
    assert_eq!(event.liquidation_bonus_bps, 500);
    assert_eq!(event.health_before_bps, 7_500);
    assert_eq!(event.debt_remaining_usdg, 4_000_000_000);
    assert_eq!(event.available_liquidity_usdg, before + 1_000_000_000);
    assert_eq!(ctx.credit_account.debt_usdg, 4_000_000_000);
    assert_eq!(ctx.credit_account.collaterals[0].amount, 79_000_000);
    assert_eq!(ctx.market_config.total_deposited, 79_000_000);
    assert_eq!(ctx.lending_pool.total_borrowed_usdg, 4_000_000_000);
}

#[test]
fn liquidation_close_factor_caps_repayment() {
    let mut ctx = liquidate_ctx(5_000_000_000);
    ctx.lending_pool.liquidation_close_factor_bps = 1_000;
    let (_, event) = liquidate(&mut ctx, 4_000_000_000, &clock()).unwrap();
    assert_eq!(event.repay_usdg, 500_000_000);
}

#[test]
fn liquidation_refusals_name_their_reason() {
    let clk = clock();
    let mut healthy = liquidate_ctx(19_025_000_000);
    assert_eq!(liquidate(&mut healthy, 1_000_000_000, &clk).unwrap_err(), MiladyError::PositionNotLiquidatable);

    let mut off = liquidate_ctx(5_000_000_000);
    off.lending_pool.liquidation_enabled = false;
    assert_eq!(liquidate(&mut off, 1_000_000_000, &clk).unwrap_err(), MiladyError::LiquidationDisabled);

    let mut zero = liquidate_ctx(5_000_000_000);
    assert_eq!(liquidate(&mut zero, 0, &clk).unwrap_err(), MiladyError::InvalidAmount);

    let mut poor = liquidate_ctx(5_000_000_000);
    poor.liquidator_usdg_amount = 10;
    assert_eq!(liquidate(&mut poor, 1_000_000_000, &clk).unwrap_err(), MiladyError::InsufficientRepaymentFunds);

    let mut drained = liquidate_ctx(5_000_000_000);
    drained.collateral_vault_amount = 1;
    assert_eq!(
        liquidate(&mut drained, 1_000_000_000, &clk).unwrap_err(),
        MiladyError::CollateralVaultAccountingMismatch
    );

    let mut debt_free = liquidate_ctx(5_000_000_000);
    debt_free.credit_account.debt_usdg = 0;
    assert_eq!(liquidate(&mut debt_free, 1_000_000_000, &clk).unwrap_err(), MiladyError::NoDebtToRepay);

    let mut dust = liquidate_ctx(5_000_000_000);
    dust.market_config.liquidation_bonus_bps = 0;
    assert_eq!(liquidate(&mut dust, 1, &clk).unwrap_err(), MiladyError::LiquidationTooSmall);

    let mut other_mint = liquidate_ctx(5_000_000_000);
    other_mint.collateral_mint = key(21);
    assert_eq!(liquidate(&mut other_mint, 1_000_000_000, &clk).unwrap_err(), MiladyError::InvalidMint);
}

#[test]
fn liquidation_ignores_general_pause() {
    let mut paused = liquidate_ctx(5_000_000_000);
    let mut running = liquidate_ctx(5_000_000_000);
    running.protocol_config.paused = false;
    let (_, a) = liquidate(&mut paused, 1_000_000_000, &clock()).unwrap();
    let (_, b) = liquidate(&mut running, 1_000_000_000, &clock()).unwrap();
    assert_eq!(a.repay_usdg, b.repay_usdg);
    assert_eq!(a.collateral_seized, b.collateral_seized);
}

fn absorb_ctx(debt: u64, reserves: u64, insurance: u64) -> AbsorbBadDebt {
    let mut p = pool();
    p.total_supplied_usdg = 10_000_000_000;
    p.total_borrowed_usdg = 5_000_000_000;
    p.protocol_reserves_usdg = reserves;
    p.insurance_reserve_usdg = insurance;
    let mut a = account(debt);
    a.collaterals = Vec::new();
    AbsorbBadDebt {
        caller: key(70),
        borrower: key(40),
        protocol_config: protocol(false),
        protocol_config_key: key(10),
        credit_account: a,
        lending_pool: p,
        lending_pool_key: key(50),
    }
}

#[test]
fn bad_debt_waterfall_covers_reserves_then_insurance() {
    let mut ctx = absorb_ctx(1_000, 300, 500);
    let before = pool_available_liquidity(&ctx.lending_pool).unwrap();
    let (_, event) = absorb_bad_debt(&mut ctx, &clock()).unwrap();
    assert_eq!(event.written_off_usdg, 1_000);
    assert_eq!(event.protocol_reserve_cover_usdg, 300);
    assert_eq!(event.insurance_cover_usdg, 500);
    assert_eq!(event.uncovered_bad_debt_usdg, 200);
    assert_eq!(event.total_bad_debt_usdg, 200);
    assert_eq!(ctx.credit_account.debt_usdg, 0);
    assert_eq!(ctx.lending_pool.protocol_reserves_usdg, 0);
    assert_eq!(ctx.lending_pool.insurance_reserve_usdg, 0);
    assert_eq!(pool_available_liquidity(&ctx.lending_pool).unwrap(), before);

    let mut recap = RecapitalizeBadDebt {
        funder: key(71),
        protocol_config: protocol(false),
        protocol_config_key: key(10),
        lending_pool: ctx.lending_pool,
        lending_pool_key: key(50),
        usdg_mint: key(11),
        usdg_mint_decimals: 6,
        funder_usdg_amount: 1_000,
        liquidity_vault: key(12),
    };
    assert_eq!(recapitalize_bad_debt(&mut recap, 201).unwrap_err(), MiladyError::BadDebtCoverageExceedsDeficit);
    let event = recapitalize_bad_debt(&mut recap, 200).unwrap();
    assert_eq!(event.remaining_bad_debt_usdg, 0);
    assert_eq!(pool_available_liquidity(&recap.lending_pool).unwrap(), before + 200);
}

#[test]
fn small_loss_is_covered_by_reserves_alone() {
    let mut ctx = absorb_ctx(100, 300, 500);
    let (_, event) = absorb_bad_debt(&mut ctx, &clock()).unwrap();
    assert_eq!(event.protocol_reserve_cover_usdg, 100);
    assert_eq!(event.insurance_cover_usdg, 0);
    assert_eq!(event.uncovered_bad_debt_usdg, 0);
    assert_eq!(ctx.lending_pool.protocol_reserves_usdg, 200);
}

#[test]
fn absorption_refusals_name_their_reason() {
    let mut with_collateral = absorb_ctx(1_000, 0, 0);
    with_collateral.credit_account = account(1_000);
    assert_eq!(
        absorb_bad_debt(&mut with_collateral, &clock()).unwrap_err(),
        MiladyError::CollateralRemainsForLiquidation
    );
    let mut no_debt = absorb_ctx(0, 0, 0);
    assert_eq!(absorb_bad_debt(&mut no_debt, &clock()).unwrap_err(), MiladyError::NoDebtToRepay);
    let mut too_big = absorb_ctx(6_000_000_000, 0, 0);
    assert_eq!(absorb_bad_debt(&mut too_big, &clock()).unwrap_err(), MiladyError::PoolAccountingInvariant);
}

#[test]
fn insurance_funding_adds_liquidity() {
    let mut ctx = FundInsuranceReserve {
        funder: key(71),
        protocol_config: protocol(false),
        protocol_config_key: key(10),
        lending_pool: pool(),
        lending_pool_key: key(50),
        usdg_mint: key(11),
        usdg_mint_decimals: 6,
        funder_usdg_amount: 1_000,
        liquidity_vault: key(12),
    };
    let before = pool_available_liquidity(&ctx.lending_pool).unwrap();
    assert_eq!(fund_insurance_reserve(&mut ctx, 1_001).unwrap_err(), MiladyError::InsufficientRepaymentFunds);
    let event = fund_insurance_reserve(&mut ctx, 400).unwrap();
    assert_eq!(event.insurance_reserve_usdg, 400);
    assert_eq!(pool_available_liquidity(&ctx.lending_pool).unwrap(), before + 400);
}

fn supply_ctx() -> SupplyUsdg {
    SupplyUsdg {
        supplier: key(80),
        protocol_config: protocol(false),
        protocol_config_key: key(10),
        lending_pool: pool(),
        lending_pool_key: key(50),
        usdg_mint: key(11),
        usdg_mint_decimals: 6,
        liquidity_vault: key(12),
        supplier_position: SupplierPosition {
            owner: Pubkey::default(),
            lending_pool: Pubkey::default(),
            principal_usdg: 0,
            supply_index_snapshot_e18: 0,
            created_at: 0,
            last_updated_ts: 0,
            bump: 0,
        },
        supplier_position_bump: 249,
    }
}

#[test]
fn supply_then_withdraw_moves_exact_liquidity() {
    let mut ctx = supply_ctx();
    let before = pool_available_liquidity(&ctx.lending_pool).unwrap();
    let (_, event) = supply_usdg(&mut ctx, 2_000_000, &clock()).unwrap();
    assert_eq!(event.supplier_balance_usdg, 2_000_000);
    assert_eq!(event.total_supplied_usdg, 10_002_000_000);
    assert_eq!(ctx.supplier_position.owner.bytes, key(80).bytes);
    assert_eq!(pool_available_liquidity(&ctx.lending_pool).unwrap(), before + 2_000_000);

    let mut w = WithdrawSuppliedUsdg {
        supplier: key(80),
        protocol_config: protocol(false),
        protocol_config_key: key(10),
        lending_pool: ctx.lending_pool,
        lending_pool_key: key(50),
        usdg_mint: key(11),
        usdg_mint_decimals: 6,
        liquidity_vault: key(12),
        liquidity_vault_amount: 10_002_000_000,
        supplier_position: ctx.supplier_position,
    };
    assert_eq!(withdraw_supplied_usdg(&mut w, 2_000_001, &clock()).unwrap_err(), MiladyError::InsufficientSupply);
    let (_, out) = withdraw_supplied_usdg(&mut w, 2_000_000, &clock()).unwrap();
    assert_eq!(out.supplier_balance_usdg, 0);
    assert_eq!(pool_available_liquidity(&w.lending_pool).unwrap(), before);
}

#[test]
fn withdrawal_needs_idle_liquidity() {
    let mut p = pool();
    p.total_borrowed_usdg = 9_999_000_000;
    let mut w = WithdrawSuppliedUsdg {
        supplier: key(80),
        protocol_config: protocol(false),
        protocol_config_key: key(10),
        lending_pool: p,
        lending_pool_key: key(50),
        usdg_mint: key(11),
        usdg_mint_decimals: 6,
        liquidity_vault: key(12),
        liquidity_vault_amount: 1_000_000,
        supplier_position: SupplierPosition {
            owner: key(80),
            lending_pool: key(50),
            principal_usdg: 5_000_000,
            supply_index_snapshot_e18: INDEX_SCALE_E18,
            created_at: 0,
            last_updated_ts: 0,
            bump: 249,
        },
    };
    assert_eq!(withdraw_supplied_usdg(&mut w, 1_000_001, &clock()).unwrap_err(), MiladyError::InsufficientLiquidity);
    assert!(withdraw_supplied_usdg(&mut w, 1_000_000, &clock()).is_ok());
    let mut paused = w;
    paused.protocol_config.paused = true;
    assert_eq!(withdraw_supplied_usdg(&mut paused, 1, &clock()).unwrap_err(), MiladyError::ProtocolPaused);
}

#[test]
fn third_party_repayment_and_its_refusals() {
    let mut p = pool();
    p.total_borrowed_usdg = 3_000_000_000;
    let mut ctx = RepayUsdgOnBehalf {
        payer: key(90),
        borrower: key(40),
        protocol_config: protocol(true),
        protocol_config_key: key(10),
        credit_account: account(3_000_000_000),
        lending_pool: p,
        lending_pool_key: key(50),
        usdg_mint: key(11),
        usdg_mint_decimals: 6,
        payer_usdg_amount: 500_000_000,
        liquidity_vault: key(12),
    };
    assert_eq!(
        repay_usdg_on_behalf(&mut ctx, 600_000_000, &clock()).unwrap_err(),
        MiladyError::InsufficientRepaymentFunds
    );
    let (_, event) = repay_usdg_on_behalf(&mut ctx, 500_000_000, &clock()).unwrap();
    assert!(event.on_behalf);
    assert_eq!(event.remaining_debt_usdg, 2_500_000_000);
    assert_eq!(event.payer.bytes, key(90).bytes);

    let mut own = RepayUsdg {
        payer: key(40),
        protocol_config: protocol(false),
        protocol_config_key: key(10),
        credit_account: account(1_000),
        lending_pool: p,
        lending_pool_key: key(50),
        usdg_mint: key(11),
        usdg_mint_decimals: 6,
        payer_usdg_amount: 10_000,
        liquidity_vault: key(12),
    };
    assert_eq!(repay_usdg(&mut own, 1_001, &clock()).unwrap_err(), MiladyError::RepayAmountExceedsDebt);
    assert_eq!(repay_usdg(&mut own, 0, &clock()).unwrap_err(), MiladyError::InvalidAmount);
    own.credit_account.debt_usdg = 0;
    assert_eq!(repay_usdg(&mut own, 1, &clock()).unwrap_err(), MiladyError::NoDebtToRepay);
    own.payer = key(41);
    assert_eq!(repay_usdg(&mut own, 1, &clock()).unwrap_err(), MiladyError::Unauthorized);
}

#[test]
fn interest_accrues_before_repayment() {
    let mut p = pool();
    p.total_borrowed_usdg = 8_000_000_000;
    p.last_accrual_ts = NOW - 31_536_000;
    let mut own = RepayUsdg {
        payer: key(40),
        protocol_config: protocol(false),
        protocol_config_key: key(10),
        credit_account: account(8_000_000_000),
        lending_pool: p,
        lending_pool_key: key(50),
        usdg_mint: key(11),
        usdg_mint_decimals: 6,
        payer_usdg_amount: 100_000_000_000,
        liquidity_vault: key(12),
    };
    let (accrued, event) = repay_usdg_max(&mut own, &clock()).unwrap();
    let accrued = accrued.unwrap();
    assert_eq!(accrued.gross_interest_usdg, 800_000_000);
    assert_eq!(event.accrued_interest_usdg, 800_000_000);
    assert_eq!(event.amount, 8_800_000_000);
    assert_eq!(own.lending_pool.total_borrowed_usdg, 0);
    assert_eq!(own.lending_pool.protocol_reserves_usdg, 80_000_000);
}

#[test]
fn portfolio_limit_stays_below_capacity() {
    use_snapshot_bounds(19_025_000_000);
    use_snapshot_bounds(5_000_000_000);
}

fn use_snapshot_bounds(price: i64) {
    let m = market(6_000, 7_500);
    let mut ctx = borrow_ctx(price, &m);
    ctx.credit_account.debt_usdg = 1;
    let mut refresh = forty_four_milady::accounts_collateral::RefreshHealth {
        caller: key(40),
        protocol_config: protocol(false),
        protocol_config_key: key(10),
        credit_account: ctx.credit_account.clone(),
        credit_account_key: key(41),
        lending_pool: pool(),
        remaining_accounts: ctx.remaining_accounts.clone(),
    };
    let snap = forty_four_milady::handlers_collateral::refresh_health(&mut refresh, &clock()).unwrap();
    assert!(snap.borrow_limit_usd_micro <= snap.liquidation_capacity_usd_micro);
    assert!(snap.liquidation_capacity_usd_micro <= snap.collateral_value_usd_micro);
    assert!(snap.health_factor_bps >= 10_000);
}
