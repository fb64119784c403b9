//! Liquidation of unhealthy credit accounts and the loss waterfall: protocol reserves,
//! then the insurance reserve, then recorded bad debt, and its recapitalization.
use vstd::prelude::*;
use crate::constants::BPS_DENOMINATOR;
use crate::errors::MiladyError;
use crate::pubkey::Pubkey;
use crate::state::{LendingPool, CreditAccount, CollateralBalance, MarketConfig};
use crate::events::{InterestAccrued, LiquidationConfigUpdated, PositionLiquidated, InsuranceReserveFunded, BadDebtAbsorbed, BadDebtRecapitalized};
use crate::accounts_liquidation::{UpdateLiquidationConfig, Liquidate, FundInsuranceReserve, AbsorbBadDebt, RecapitalizeBadDebt};
use crate::interest::{
    accrue_pool_interest, interest_accrued_event, refresh_rate_cache, spec_accrue_pool_interest,
    spec_interest_accrued_event, spec_refresh_rate_cache, kink_nonzero, InterestAccrual,
    sync_borrower_debt, spec_grow_by_index, pool_available_liquidity, spec_pool_available_liquidity,
};
use crate::risk::{
    Clock, RiskSnapshot, OraclePrice, assert_protocol_authority, compute_portfolio_risk_for_liquidation,
    spec_portfolio_risk, read_pyth_price, spec_read_pyth_price, token_value_usd_micro,
    spec_token_value_usd_micro, usd_micro_to_token_amount, spec_usd_micro_to_token_amount,
    weighted_value, spec_weighted_value, health_factor_bps_for_debt, spec_health_factor_bps,
    find_collateral, has_match, first_match, reduce_collateral, spec_reduce_collateral,
};
use crate::handlers_lending::{check_pool_accounts, check_pool_protocol, check_owner, spec_check_pool_accounts};

verus! {

/// Sets the liquidation close factor (1..=10_000 bps) and the liquidation switch.
pub fn update_liquidation_config(
    ctx: &mut UpdateLiquidationConfig,
    close_factor_bps: u16,
    enabled: bool,
) -> (r: Result<LiquidationConfigUpdated, MiladyError>)
    ensures
        if old(ctx).lending_pool.protocol@ != old(ctx).protocol_config_key@ {
            r == Err::<LiquidationConfigUpdated, MiladyError>(MiladyError::InvalidProtocol) && *final(ctx) == *old(ctx)
        } else if old(ctx).authority@ != old(ctx).protocol_config.authority@ {
            r == Err::<LiquidationConfigUpdated, MiladyError>(MiladyError::Unauthorized) && *final(ctx) == *old(ctx)
        } else if close_factor_bps == 0 || close_factor_bps > BPS_DENOMINATOR {
            r == Err::<LiquidationConfigUpdated, MiladyError>(MiladyError::InvalidCloseFactor) && *final(ctx) == *old(ctx)
        } else {
            &&& *final(ctx) == (UpdateLiquidationConfig {
                lending_pool: LendingPool {
                    liquidation_close_factor_bps: close_factor_bps,
                    liquidation_enabled: enabled,
                    ..old(ctx).lending_pool
                },
                ..*old(ctx)
            })
            &&& r == Ok::<LiquidationConfigUpdated, MiladyError>(
                LiquidationConfigUpdated { lending_pool: old(ctx).lending_pool_key, close_factor_bps, enabled },
            )
        },
{
    check_pool_protocol(&ctx.lending_pool, &ctx.protocol_config_key)?;
    assert_protocol_authority(&ctx.protocol_config, &ctx.authority)?;
    if !(close_factor_bps > 0 && (close_factor_bps as u64) <= 10_000u64) {
        return Err(MiladyError::InvalidCloseFactor);
    }
    ctx.lending_pool.liquidation_close_factor_bps = close_factor_bps;
    ctx.lending_pool.liquidation_enabled = enabled;
    Ok(LiquidationConfigUpdated { lending_pool: ctx.lending_pool_key, close_factor_bps, enabled })
}

/// The pool after funding the insurance reserve with `amount`, or why it is refused.
pub open spec fn spec_fund_insurance_reserve(ctx: FundInsuranceReserve, amount: u64) -> Result<
    LendingPool,
    MiladyError,
> {
    match spec_check_pool_accounts(ctx.lending_pool, ctx.protocol_config_key, ctx.usdg_mint, ctx.liquidity_vault) {
        Err(e) => Err(e),
        Ok(_) => if amount == 0 {
            Err(MiladyError::InvalidAmount)
        } else if ctx.usdg_mint_decimals != 6 {
            Err(MiladyError::InvalidUsdgDecimals)
        } else if ctx.funder_usdg_amount < amount {
            Err(MiladyError::InsufficientRepaymentFunds)
        } else if ctx.lending_pool.insurance_reserve_usdg + amount > u64::MAX {
            Err(MiladyError::MathOverflow)
        } else {
            spec_refresh_rate_cache(
                LendingPool {
                    insurance_reserve_usdg: (ctx.lending_pool.insurance_reserve_usdg + amount) as u64,
                    ..ctx.lending_pool
                },
            )
        },
    }
}

/// Adds `amount` USDG to the insurance reserve; the event's `amount` is what moves from
/// the funder into the liquidity vault.
pub fn fund_insurance_reserve(ctx: &mut FundInsuranceReserve, amount: u64) -> (r: Result<
    InsuranceReserveFunded,
    MiladyError,
>)
    requires
        kink_nonzero(old(ctx).lending_pool),
    ensures
        match spec_fund_insurance_reserve(*old(ctx), amount) {
            Ok(p) => {
                &&& *final(ctx) == (FundInsuranceReserve { lending_pool: p, ..*old(ctx) })
                &&& r == Ok::<InsuranceReserveFunded, MiladyError>(
                    InsuranceReserveFunded {
                        funder: old(ctx).funder,
                        lending_pool: old(ctx).lending_pool_key,
                        amount,
                        insurance_reserve_usdg: p.insurance_reserve_usdg,
                    },
                )
            },
            Err(e) => r == Err::<InsuranceReserveFunded, MiladyError>(e) && *final(ctx) == *old(ctx),
        },
{
    check_pool_accounts(&ctx.lending_pool, &ctx.protocol_config_key, &ctx.usdg_mint, &ctx.liquidity_vault)?;
    if !(amount > 0) {
        return Err(MiladyError::InvalidAmount);
    }
    if ctx.usdg_mint_decimals != 6 {
        return Err(MiladyError::InvalidUsdgDecimals);
    }
    if !(ctx.funder_usdg_amount >= amount) {
        return Err(MiladyError::InsufficientRepaymentFunds);
    }
    let mut pool = ctx.lending_pool;
    pool.insurance_reserve_usdg = match pool.insurance_reserve_usdg.checked_add(amount) {
        Some(v) => v,
        None => return Err(MiladyError::MathOverflow),
    };
    refresh_rate_cache(&mut pool)?;
    ctx.lending_pool = pool;
    Ok(
        InsuranceReserveFunded {
            funder: ctx.funder,
            lending_pool: ctx.lending_pool_key,
            amount,
            insurance_reserve_usdg: pool.insurance_reserve_usdg,
        },
    )
}

/// How a written-off debt is covered: protocol reserves first, then insurance, and the
/// rest recorded as bad debt.
pub open spec fn spec_loss_waterfall(written_off: u64, reserves: u64, insurance: u64) -> (u64, u64, u64) {
    let reserve_cover: int = if written_off < reserves { written_off as int } else { reserves as int };
    let after_reserve: int = written_off - reserve_cover;
    let insurance_cover: int = if after_reserve < insurance { after_reserve } else { insurance as int };
    (reserve_cover as u64, insurance_cover as u64, (after_reserve - insurance_cover) as u64)
}

/// What a successful bad-debt absorption leaves behind.
pub struct AbsorbPlan {
    /// The pool after accrual, write-off and the rate refresh.
    pub pool: LendingPool,
    /// The pool right after accrual.
    pub accrued_pool: LendingPool,
    pub accrual: InterestAccrual,
    pub written_off: u64,
    pub reserve_cover: u64,
    pub insurance_cover: u64,
    pub uncovered: u64,
}

/// The outcome of absorbing a collateral-less account's debt at `now`, or why it is
/// refused.
pub open spec fn spec_absorb_bad_debt(ctx: AbsorbBadDebt, now: i64) -> Result<AbsorbPlan, MiladyError> {
    let account = ctx.credit_account;
    if account.owner@ != ctx.borrower@ {
        Err(MiladyError::Unauthorized)
    } else if ctx.lending_pool.protocol@ != ctx.protocol_config_key@ {
        Err(MiladyError::InvalidProtocol)
    } else {
        match spec_accrue_pool_interest(ctx.lending_pool, ctx.lending_pool_key, now) {
            Err(e) => Err(e),
            Ok((p1, a)) => match spec_grow_by_index(account.debt_usdg, account.borrow_index_snapshot_e18, p1.borrow_index_e18) {
                Err(e) => Err(e),
                Ok(d1) => {
                    let (rc, ic, un) = spec_loss_waterfall(d1, p1.protocol_reserves_usdg, p1.insurance_reserve_usdg);
                    if account.collaterals@.len() != 0 {
                        Err(MiladyError::CollateralRemainsForLiquidation)
                    } else if d1 == 0 {
                        Err(MiladyError::NoDebtToRepay)
                    } else if p1.total_borrowed_usdg < d1 {
                        Err(MiladyError::PoolAccountingInvariant)
                    } else if p1.bad_debt_usdg + un > u64::MAX {
                        Err(MiladyError::MathOverflow)
                    } else {
                        match spec_refresh_rate_cache(
                            LendingPool {
                                total_borrowed_usdg: (p1.total_borrowed_usdg - d1) as u64,
                                protocol_reserves_usdg: (p1.protocol_reserves_usdg - rc) as u64,
                                insurance_reserve_usdg: (p1.insurance_reserve_usdg - ic) as u64,
                                bad_debt_usdg: (p1.bad_debt_usdg + un) as u64,
                                ..p1
                            },
                        ) {
                            Err(e) => Err(e),
                            Ok(p2) => Ok(
                                AbsorbPlan {
                                    pool: p2,
                                    accrued_pool: p1,
                                    accrual: a,
                                    written_off: d1,
                                    reserve_cover: rc,
                                    insurance_cover: ic,
                                    uncovered: un,
                                },
                            ),
                        }
                    }
                },
            },
        }
    }
}

/// Writes off the whole synchronized debt of a credit account with no collateral left,
/// covering it from protocol reserves, then insurance, and recording the rest as bad
/// debt.
pub fn absorb_bad_debt(ctx: &mut AbsorbBadDebt, clock: &Clock) -> (r: Result<
    (Option<InterestAccrued>, BadDebtAbsorbed),
    MiladyError,
>)
    requires
        kink_nonzero(old(ctx).lending_pool),
    ensures
        final(ctx).credit_account.collaterals@ == old(ctx).credit_account.collaterals@,
        *final(ctx) == (AbsorbBadDebt {
            credit_account: final(ctx).credit_account,
            lending_pool: final(ctx).lending_pool,
            ..*old(ctx)
        }),
        match spec_absorb_bad_debt(*old(ctx), clock.unix_timestamp) {
            Ok(plan) => {
                &&& final(ctx).lending_pool == plan.pool
                &&& final(ctx).credit_account == (CreditAccount {
                    debt_usdg: 0,
                    borrow_index_snapshot_e18: plan.accrued_pool.borrow_index_e18,
                    last_borrow_ts: clock.unix_timestamp,
                    last_health_factor_bps: u64::MAX,
                    collaterals: final(ctx).credit_account.collaterals,
                    ..old(ctx).credit_account
                })
                &&& r == Ok::<(Option<InterestAccrued>, BadDebtAbsorbed), MiladyError>(
                    (
                        spec_interest_accrued_event(plan.accrued_pool, plan.accrual),
                        BadDebtAbsorbed {
                            borrower: old(ctx).borrower,
                            lending_pool: old(ctx).lending_pool_key,
                            written_off_usdg: plan.written_off,
                            protocol_reserve_cover_usdg: plan.reserve_cover,
                            insurance_cover_usdg: plan.insurance_cover,
                            uncovered_bad_debt_usdg: plan.uncovered,
                            total_bad_debt_usdg: plan.pool.bad_debt_usdg,
                        },
                    ),
                )
            },
            Err(e) => {
                &&& r == Err::<(Option<InterestAccrued>, BadDebtAbsorbed), MiladyError>(e)
                &&& final(ctx).lending_pool == old(ctx).lending_pool
                &&& final(ctx).credit_account == (CreditAccount {
                    collaterals: final(ctx).credit_account.collaterals,
                    ..old(ctx).credit_account
                })
            },
        },
{
    check_owner(&ctx.credit_account.owner, &ctx.borrower)?;
    check_pool_protocol(&ctx.lending_pool, &ctx.protocol_config_key)?;
    let now = clock.unix_timestamp;
    let mut pool = ctx.lending_pool;
    let accrual = accrue_pool_interest(&mut pool, ctx.lending_pool_key, now)?;
    let accrued_event = interest_accrued_event(&pool, &accrual);
    let mut synced = ctx.credit_account.duplicate();
    sync_borrower_debt(&mut synced, &pool, now)?;
    if !(ctx.credit_account.collaterals.len() == 0) {
        return Err(MiladyError::CollateralRemainsForLiquidation);
    }
    let written_off = synced.debt_usdg;
    if !(written_off > 0) {
        return Err(MiladyError::NoDebtToRepay);
    }
    if !(pool.total_borrowed_usdg >= written_off) {
        return Err(MiladyError::PoolAccountingInvariant);
    }
    let reserve_cover = if written_off < pool.protocol_reserves_usdg {
        written_off
    } else {
        pool.protocol_reserves_usdg
    };
    let after_reserve = written_off - reserve_cover;
    let insurance_cover = if after_reserve < pool.insurance_reserve_usdg {
        after_reserve
    } else {
        pool.insurance_reserve_usdg
    };
    let uncovered = after_reserve - insurance_cover;
    let index = pool.borrow_index_e18;
    pool.total_borrowed_usdg = pool.total_borrowed_usdg - written_off;
    pool.protocol_reserves_usdg = pool.protocol_reserves_usdg - reserve_cover;
    pool.insurance_reserve_usdg = pool.insurance_reserve_usdg - insurance_cover;
    pool.bad_debt_usdg = match pool.bad_debt_usdg.checked_add(uncovered) {
        Some(v) => v,
        None => return Err(MiladyError::MathOverflow),
    };
    refresh_rate_cache(&mut pool)?;
    ctx.credit_account.debt_usdg = 0;
    ctx.credit_account.borrow_index_snapshot_e18 = index;
    ctx.credit_account.last_borrow_ts = now;
    ctx.credit_account.last_health_factor_bps = u64::MAX;
    ctx.lending_pool = pool;
    Ok(
        (
            accrued_event,
            BadDebtAbsorbed {
                borrower: ctx.borrower,
                lending_pool: ctx.lending_pool_key,
                written_off_usdg: written_off,
                protocol_reserve_cover_usdg: reserve_cover,
                insurance_cover_usdg: insurance_cover,
                uncovered_bad_debt_usdg: uncovered,
                total_bad_debt_usdg: pool.bad_debt_usdg,
            },
        ),
    )
}

/// The pool after paying `amount` USDG against recorded bad debt, or why it is refused.
pub open spec fn spec_recapitalize_bad_debt(ctx: RecapitalizeBadDebt, amount: u64) -> Result<
    LendingPool,
    MiladyError,
> {
    match spec_check_pool_accounts(ctx.lending_pool, ctx.protocol_config_key, ctx.usdg_mint, ctx.liquidity_vault) {
        Err(e) => Err(e),
        Ok(_) => if amount == 0 {
            Err(MiladyError::InvalidAmount)
        } else if ctx.usdg_mint_decimals != 6 {
            Err(MiladyError::InvalidUsdgDecimals)
        } else if amount > ctx.lending_pool.bad_debt_usdg {
            Err(MiladyError::BadDebtCoverageExceedsDeficit)
        } else if ctx.funder_usdg_amount < amount {
            Err(MiladyError::InsufficientRepaymentFunds)
        } else {
            spec_refresh_rate_cache(
                LendingPool { bad_debt_usdg: (ctx.lending_pool.bad_debt_usdg - amount) as u64, ..ctx.lending_pool },
            )
        },
    }
}

/// Pays real USDG against recorded bad debt; the event's `amount` is what moves from
/// the funder into the liquidity vault.
pub fn recapitalize_bad_debt(ctx: &mut RecapitalizeBadDebt, amount: u64) -> (r: Result<
    BadDebtRecapitalized,
    MiladyError,
>)
    requires
        kink_nonzero(old(ctx).lending_pool),
    ensures
        match spec_recapitalize_bad_debt(*old(ctx), amount) {
            Ok(p) => {
                &&& *final(ctx) == (RecapitalizeBadDebt { lending_pool: p, ..*old(ctx) })
                &&& r == Ok::<BadDebtRecapitalized, MiladyError>(
                    BadDebtRecapitalized {
                        funder: old(ctx).funder,
                        lending_pool: old(ctx).lending_pool_key,
                        amount,
                        remaining_bad_debt_usdg: p.bad_debt_usdg,
                    },
                )
            },
            Err(e) => r == Err::<BadDebtRecapitalized, MiladyError>(e) && *final(ctx) == *old(ctx),
        },
{
    check_pool_accounts(&ctx.lending_pool, &ctx.protocol_config_key, &ctx.usdg_mint, &ctx.liquidity_vault)?;
    if !(amount > 0) {
        return Err(MiladyError::InvalidAmount);
    }
    if ctx.usdg_mint_decimals != 6 {
        return Err(MiladyError::InvalidUsdgDecimals);
    }
    if !(amount <= ctx.lending_pool.bad_debt_usdg) {
        return Err(MiladyError::BadDebtCoverageExceedsDeficit);
    }
    if !(ctx.funder_usdg_amount >= amount) {
        return Err(MiladyError::InsufficientRepaymentFunds);
    }
    let mut pool = ctx.lending_pool;
    pool.bad_debt_usdg = pool.bad_debt_usdg - amount;
    refresh_rate_cache(&mut pool)?;
    ctx.lending_pool = pool;
    Ok(
        BadDebtRecapitalized {
            funder: ctx.funder,
            lending_pool: ctx.lending_pool_key,
            amount,
            remaining_bad_debt_usdg: pool.bad_debt_usdg,
        },
    )
}

// ------------------------------------------------------------------------------------
// Liquidation
// ------------------------------------------------------------------------------------

/// Largest repayment one liquidation may make under the close factor: at least one
/// unit, at most the whole debt.
pub open spec fn spec_close_limit(debt: u64, close_factor_bps: u16) -> Result<u64, MiladyError> {
    let c = debt * close_factor_bps / (BPS_DENOMINATOR as int);
    if c > u64::MAX {
        Err(MiladyError::MathOverflow)
    } else {
        let at_least_one: int = if c < 1 { 1 } else { c };
        Ok((if at_least_one < debt { at_least_one } else { debt as int }) as u64)
    }
}

/// The smaller of two amounts.
pub open spec fn min_u64(a: u64, b: u64) -> u64 {
    if a < b { a } else { b }
}

/// The quantities a liquidation settles once its inputs are known.
pub struct LiquidationPlan {
    /// The pool after accrual, settlement and the rate refresh.
    pub pool: LendingPool,
    /// The pool right after accrual.
    pub accrued_pool: LendingPool,
    pub accrual: InterestAccrual,
    /// The borrower's debt once synchronized.
    pub synced_debt: u64,
    /// Risk of the whole portfolio before the liquidation, at fresh prices.
    pub pre_risk: RiskSnapshot,
    /// USDG the liquidator repays.
    pub repay: u64,
    /// Collateral units the liquidator receives.
    pub seize: u64,
    pub total_deposited: u64,
    pub remaining_debt: u64,
    pub last_collateral_value: u64,
    pub last_borrow_limit: u64,
    pub last_liquidation_capacity: u64,
    pub health_after: u64,
    pub available_liquidity: u64,
}

/// The outcome of liquidating up to `max_repay_usdg` at `now` and the borrower's
/// remaining collateral list, or why the liquidation is refused.
pub open spec fn spec_liquidate(ctx: Liquidate, max_repay_usdg: u64, now: i64) -> Result<
    (LiquidationPlan, Seq<CollateralBalance>),
    MiladyError,
> {
    let market = ctx.market_config;
    if ctx.credit_account.owner@ != ctx.borrower@ {
        Err(MiladyError::Unauthorized)
    } else {
        match spec_check_pool_accounts(ctx.lending_pool, ctx.protocol_config_key, ctx.usdg_mint, ctx.liquidity_vault) {
            Err(e) => Err(e),
            Ok(_) => if market.protocol@ != ctx.protocol_config_key@ {
                Err(MiladyError::InvalidProtocol)
            } else if market.mint@ != ctx.collateral_mint@ {
                Err(MiladyError::InvalidMint)
            } else if max_repay_usdg == 0 {
                Err(MiladyError::InvalidAmount)
            } else if !ctx.lending_pool.liquidation_enabled {
                Err(MiladyError::LiquidationDisabled)
            } else if ctx.usdg_mint_decimals != 6 {
                Err(MiladyError::InvalidUsdgDecimals)
            } else {
                match spec_accrue_pool_interest(ctx.lending_pool, ctx.lending_pool_key, now) {
                    Err(e) => Err(e),
                    Ok((p1, a)) => spec_liquidate_after_accrual(ctx, max_repay_usdg, now, p1, a),
                }
            },
        }
    }
}

/// The part of `spec_liquidate` after pool interest has been accrued.
pub open spec fn spec_liquidate_after_accrual(
    ctx: Liquidate,
    max_repay_usdg: u64,
    now: i64,
    p1: LendingPool,
    a: InterestAccrual,
) -> Result<(LiquidationPlan, Seq<CollateralBalance>), MiladyError> {
    match spec_liquidation_quote(ctx, max_repay_usdg, now, p1) {
        Err(e) => Err(e),
        Ok((d1, pre, recorded, oracle, repay)) => match spec_liquidation_seize_amount(ctx, oracle, recorded, repay) {
            Err(e) => Err(e),
            Ok(seize) => spec_liquidate_settle(ctx, now, p1, a, d1, pre, oracle, repay, seize),
        },
    }
}

/// The liquidation quote against the accrued pool `p1`: the synchronized debt, the
/// fresh portfolio risk, the recorded collateral of the market, the oracle price and the
/// USDG to repay, or why the account cannot be liquidated.
pub open spec fn spec_liquidation_quote(ctx: Liquidate, max_repay_usdg: u64, now: i64, p1: LendingPool) -> Result<
    (u64, RiskSnapshot, u64, OraclePrice, u64),
    MiladyError,
> {
    let account = ctx.credit_account;
    let market = ctx.market_config;
    let cs = account.collaterals@;
    match spec_grow_by_index(account.debt_usdg, account.borrow_index_snapshot_e18, p1.borrow_index_e18) {
        Err(e) => Err(e),
        Ok(d1) => if d1 == 0 {
            Err(MiladyError::NoDebtToRepay)
        } else {
            match spec_portfolio_risk(cs, d1, ctx.remaining_accounts@, false, now) {
                Err(e) => Err(e),
                Ok(pre) => if pre.health_factor_bps > BPS_DENOMINATOR {
                    Err(MiladyError::PositionNotLiquidatable)
                } else if !has_match(cs, ctx.market_config_key@) {
                    Err(MiladyError::CollateralNotFound)
                } else {
                    let recorded = cs[first_match(cs, ctx.market_config_key@)].amount;
                    if recorded == 0 {
                        Err(MiladyError::CollateralNotFound)
                    } else if ctx.collateral_vault_amount < recorded {
                        Err(MiladyError::CollateralVaultAccountingMismatch)
                    } else {
                        match spec_read_pyth_price(ctx.price_update, now, market) {
                            Err(e) => Err(e),
                            Ok(oracle) => match spec_token_value_usd_micro(recorded, market.decimals, oracle.price, oracle.exponent) {
                                Err(e) => Err(e),
                                Ok(cvalue) => match spec_close_limit(d1, p1.liquidation_close_factor_bps) {
                                    Err(e) => Err(e),
                                    Ok(close_limit) => {
                                        let bonus_den = BPS_DENOMINATOR + market.liquidation_bonus_bps;
                                        let by_collateral = cvalue * BPS_DENOMINATOR / bonus_den;
                                        if by_collateral > u64::MAX {
                                            Err(MiladyError::MathOverflow)
                                        } else {
                                            Ok(
                                                (
                                                    d1,
                                                    pre,
                                                    recorded,
                                                    oracle,
                                                    min_u64(
                                                        min_u64(min_u64(max_repay_usdg, d1), close_limit),
                                                        by_collateral as u64,
                                                    ),
                                                ),
                                            )
                                        }
                                    },
                                },
                            },
                        }
                    }
                },
            }
        },
    }
}

/// Collateral units to seize for `repay` (its value plus the market's bonus, capped by
/// the recorded collateral), or why the liquidation is too small or unfunded.
pub open spec fn spec_liquidation_seize_amount(ctx: Liquidate, oracle: OraclePrice, recorded: u64, repay: u64) -> Result<
    u64,
    MiladyError,
> {
    let market = ctx.market_config;
    let bonus_den = BPS_DENOMINATOR + market.liquidation_bonus_bps;
    let seize_value = repay * bonus_den / (BPS_DENOMINATOR as int);
    if repay == 0 {
        Err(MiladyError::LiquidationTooSmall)
    } else if ctx.liquidator_usdg_amount < repay {
        Err(MiladyError::InsufficientRepaymentFunds)
    } else if seize_value > u64::MAX {
        Err(MiladyError::MathOverflow)
    } else {
        match spec_usd_micro_to_token_amount(seize_value as u64, market.decimals, oracle.price, oracle.exponent) {
            Err(e) => Err(e),
            Ok(tokens) => {
                let seize = min_u64(tokens, recorded);
                if seize == 0 {
                    Err(MiladyError::LiquidationTooSmall)
                } else {
                    Ok(seize)
                }
            },
        }
    }
}

/// The settlement part of `spec_liquidate`: collateral, debt and pool accounting and the
/// borrower's adjusted risk snapshot.
pub open spec fn spec_liquidate_settle(
    ctx: Liquidate,
    now: i64,
    p1: LendingPool,
    a: InterestAccrual,
    d1: u64,
    pre: RiskSnapshot,
    oracle: OraclePrice,
    repay: u64,
    seize: u64,
) -> Result<(LiquidationPlan, Seq<CollateralBalance>), MiladyError> {
    let market = ctx.market_config;
    match spec_reduce_collateral(ctx.credit_account.collaterals@, ctx.market_config_key, seize) {
        Err(e) => Err(e),
        Ok(cs) => if market.total_deposited < seize {
            Err(MiladyError::MathOverflow)
        } else if d1 < repay {
            Err(MiladyError::MathOverflow)
        } else if p1.total_borrowed_usdg < repay {
            Err(MiladyError::PoolAccountingInvariant)
        } else {
            match spec_token_value_usd_micro(seize, market.decimals, oracle.price, oracle.exponent) {
                Err(e) => Err(e),
                Ok(sv) => {
                    let sbl = spec_weighted_value(sv, market.ltv_bps);
                    let sliq = spec_weighted_value(sv, market.liquidation_threshold_bps);
                    if sbl > u64::MAX || sliq > u64::MAX {
                        Err(MiladyError::MathOverflow)
                    } else {
                        let debt = (d1 - repay) as u64;
                        let lcv = if pre.collateral_value_usd_micro < sv { 0 } else { (pre.collateral_value_usd_micro - sv) as u64 };
                        let lbl = if pre.borrow_limit_usd_micro < sbl { 0 } else { (pre.borrow_limit_usd_micro - sbl) as u64 };
                        let lliq = if pre.liquidation_capacity_usd_micro < sliq { 0 } else { (pre.liquidation_capacity_usd_micro - sliq) as u64 };
                        match spec_refresh_rate_cache(
                            LendingPool { total_borrowed_usdg: (p1.total_borrowed_usdg - repay) as u64, ..p1 },
                        ) {
                            Err(e) => Err(e),
                            Ok(p2) => match spec_pool_available_liquidity(p2) {
                                Err(e) => Err(e),
                                Ok(avail) => Ok(
                                    (
                                        LiquidationPlan {
                                            pool: p2,
                                            accrued_pool: p1,
                                            accrual: a,
                                            synced_debt: d1,
                                            pre_risk: pre,
                                            repay,
                                            seize,
                                            total_deposited: (market.total_deposited - seize) as u64,
                                            remaining_debt: debt,
                                            last_collateral_value: lcv,
                                            last_borrow_limit: lbl,
                                            last_liquidation_capacity: lliq,
                                            health_after: spec_health_factor_bps(lliq, debt),
                                            available_liquidity: avail,
                                        },
                                        cs,
                                    ),
                                ),
                            },
                        }
                    }
                },
            }
        },
    }
}

/// Liquidates part of an unhealthy credit account (health at or below 100% at fresh
/// prices): the liquidator repays up to `max_repay_usdg`, capped by the debt, the close
/// factor and the collateral's value net of the market's bonus, and receives collateral
/// worth the repayment plus the bonus. The event's `repay_usdg` moves from the
/// liquidator into the pool and `collateral_seized` from the vault to the liquidator.
pub fn liquidate(ctx: &mut Liquidate, max_repay_usdg: u64, clock: &Clock) -> (r: Result<
    (Option<InterestAccrued>, PositionLiquidated),
    MiladyError,
>)
    requires
        kink_nonzero(old(ctx).lending_pool),
    ensures
        *final(ctx) == (Liquidate {
            credit_account: final(ctx).credit_account,
            lending_pool: final(ctx).lending_pool,
            market_config: final(ctx).market_config,
            ..*old(ctx)
        }),
        match spec_liquidate(*old(ctx), max_repay_usdg, clock.unix_timestamp) {
            Ok((plan, cs)) => {
                &&& final(ctx).lending_pool == plan.pool
                &&& final(ctx).market_config == (MarketConfig {
                    total_deposited: plan.total_deposited,
                    ..old(ctx).market_config
                })
                &&& final(ctx).credit_account.collaterals@ == cs
                &&& final(ctx).credit_account == (CreditAccount {
                    debt_usdg: plan.remaining_debt,
                    borrow_index_snapshot_e18: plan.accrued_pool.borrow_index_e18,
                    last_borrow_ts: clock.unix_timestamp,
                    last_collateral_value_usd_micro: plan.last_collateral_value,
                    last_borrow_limit_usd_micro: plan.last_borrow_limit,
                    last_liquidation_capacity_usd_micro: plan.last_liquidation_capacity,
                    last_health_factor_bps: plan.health_after,
                    last_valuation_ts: clock.unix_timestamp,
                    collaterals: final(ctx).credit_account.collaterals,
                    ..old(ctx).credit_account
                })
                &&& r == Ok::<(Option<InterestAccrued>, PositionLiquidated), MiladyError>(
                    (
                        spec_interest_accrued_event(plan.accrued_pool, plan.accrual),
                        PositionLiquidated {
                            liquidator: old(ctx).liquidator,
                            borrower: old(ctx).borrower,
                            lending_pool: old(ctx).lending_pool_key,
                            market: old(ctx).market_config_key,
                            repay_usdg: plan.repay,
                            collateral_seized: plan.seize,
                            liquidation_bonus_bps: old(ctx).market_config.liquidation_bonus_bps,
                            debt_remaining_usdg: plan.remaining_debt,
                            health_before_bps: plan.pre_risk.health_factor_bps,
                            health_after_bps: plan.health_after,
                            available_liquidity_usdg: plan.available_liquidity,
                        },
                    ),
                )
            },
            Err(e) => {
                &&& r == Err::<(Option<InterestAccrued>, PositionLiquidated), MiladyError>(e)
                &&& final(ctx).lending_pool == old(ctx).lending_pool
                &&& final(ctx).market_config == old(ctx).market_config
                &&& final(ctx).credit_account.collaterals@ == old(ctx).credit_account.collaterals@
                &&& final(ctx).credit_account == (CreditAccount {
                    collaterals: final(ctx).credit_account.collaterals,
                    ..old(ctx).credit_account
                })
            },
        },
{
    check_owner(&ctx.credit_account.owner, &ctx.borrower)?;
    check_pool_accounts(&ctx.lending_pool, &ctx.protocol_config_key, &ctx.usdg_mint, &ctx.liquidity_vault)?;
    if !ctx.market_config.protocol.key_eq(&ctx.protocol_config_key) {
        return Err(MiladyError::InvalidProtocol);
    }
    if !ctx.market_config.mint.key_eq(&ctx.collateral_mint) {
        return Err(MiladyError::InvalidMint);
    }
    if !(max_repay_usdg > 0) {
        return Err(MiladyError::InvalidAmount);
    }
    if !ctx.lending_pool.liquidation_enabled {
        return Err(MiladyError::LiquidationDisabled);
    }
    if ctx.usdg_mint_decimals != 6 {
        return Err(MiladyError::InvalidUsdgDecimals);
    }
    let mut pool = ctx.lending_pool;
    let accrual = accrue_pool_interest(&mut pool, ctx.lending_pool_key, clock.unix_timestamp)?;
    let accrued_event = interest_accrued_event(&pool, &accrual);
    let (synced_debt, pre_risk, recorded, oracle, repay) = liquidation_quote(ctx, &pool, max_repay_usdg, clock)?;
    let seize = liquidation_seize_amount(ctx, &oracle, recorded, repay)?;
    let event = liquidation_settle(ctx, pool, &accrual, synced_debt, &pre_risk, &oracle, repay, seize, clock)?;
    Ok((accrued_event, event))
}

/// Computes the liquidation quote against the accrued pool.
fn liquidation_quote(ctx: &Liquidate, pool: &LendingPool, max_repay_usdg: u64, clock: &Clock) -> (r: Result<
    (u64, RiskSnapshot, u64, OraclePrice, u64),
    MiladyError,
>)
    ensures
        r == spec_liquidation_quote(*ctx, max_repay_usdg, clock.unix_timestamp, *pool),
{
    let mut account = ctx.credit_account.duplicate();
    sync_borrower_debt(&mut account, pool, clock.unix_timestamp)?;
    if !(account.debt_usdg > 0) {
        return Err(MiladyError::NoDebtToRepay);
    }
    let pre_risk = compute_portfolio_risk_for_liquidation(&account, ctx.remaining_accounts.as_slice(), clock)?;
    if !(pre_risk.health_factor_bps <= 10_000u64) {
        return Err(MiladyError::PositionNotLiquidatable);
    }
    let index = match find_collateral(&account.collaterals, &ctx.market_config_key) {
        Some(i) => i,
        None => return Err(MiladyError::CollateralNotFound),
    };
    let recorded = account.collaterals[index].amount;
    if !(recorded > 0) {
        return Err(MiladyError::CollateralNotFound);
    }
    if !(ctx.collateral_vault_amount >= recorded) {
        return Err(MiladyError::CollateralVaultAccountingMismatch);
    }
    let oracle = read_pyth_price(&ctx.price_update, clock, &ctx.market_config)?;
    let collateral_value = token_value_usd_micro(recorded, ctx.market_config.decimals, oracle.price, oracle.exponent)?;
    let debt = account.debt_usdg;
    proof {
        crate::interest::lemma_mul_le(debt as int, pool.liquidation_close_factor_bps as int, u64::MAX as int, u16::MAX as int);
    }
    let close_limit_u128 = (debt as u128) * (pool.liquidation_close_factor_bps as u128) / 10_000u128;
    if close_limit_u128 > u64::MAX as u128 {
        return Err(MiladyError::MathOverflow);
    }
    let mut close_limit = close_limit_u128 as u64;
    if close_limit < 1 {
        close_limit = 1;
    }
    if close_limit > debt {
        close_limit = debt;
    }
    let bonus_denominator: u64 = 10_000u64 + ctx.market_config.liquidation_bonus_bps as u64;
    proof {
        crate::interest::lemma_mul_le(collateral_value as int, 10_000, u64::MAX as int, 10_000);
    }
    let by_collateral = (collateral_value as u128) * 10_000u128 / (bonus_denominator as u128);
    if by_collateral > u64::MAX as u128 {
        return Err(MiladyError::MathOverflow);
    }
    let mut repay = max_repay_usdg;
    if debt < repay {
        repay = debt;
    }
    if close_limit < repay {
        repay = close_limit;
    }
    if (by_collateral as u64) < repay {
        repay = by_collateral as u64;
    }
    Ok((debt, pre_risk, recorded, oracle, repay))
}

/// Computes the collateral to seize for a repayment.
fn liquidation_seize_amount(ctx: &Liquidate, oracle: &OraclePrice, recorded: u64, repay: u64) -> (r: Result<
    u64,
    MiladyError,
>)
    ensures
        r == spec_liquidation_seize_amount(*ctx, *oracle, recorded, repay),
{
    if !(repay > 0) {
        return Err(MiladyError::LiquidationTooSmall);
    }
    if !(ctx.liquidator_usdg_amount >= repay) {
        return Err(MiladyError::InsufficientRepaymentFunds);
    }
    let bonus_denominator: u64 = 10_000u64 + ctx.market_config.liquidation_bonus_bps as u64;
    proof {
        crate::interest::lemma_mul_le(repay as int, bonus_denominator as int, u64::MAX as int, u64::MAX as int);
    }
    let seize_value = (repay as u128) * (bonus_denominator as u128) / 10_000u128;
    if seize_value > u64::MAX as u128 {
        return Err(MiladyError::MathOverflow);
    }
    let tokens = usd_micro_to_token_amount(seize_value as u64, ctx.market_config.decimals, oracle.price, oracle.exponent)?;
    let seize = if tokens < recorded {
        tokens
    } else {
        recorded
    };
    if !(seize > 0) {
        return Err(MiladyError::LiquidationTooSmall);
    }
    Ok(seize)
}

/// Applies a liquidation's settlement to the accounts and builds its event.
fn liquidation_settle(
    ctx: &mut Liquidate,
    accrued_pool: LendingPool,
    accrual: &InterestAccrual,
    synced_debt: u64,
    pre_risk: &RiskSnapshot,
    oracle: &OraclePrice,
    repay: u64,
    seize: u64,
    clock: &Clock,
) -> (r: Result<PositionLiquidated, MiladyError>)
    requires
        kink_nonzero(accrued_pool),
    ensures
        *final(ctx) == (Liquidate {
            credit_account: final(ctx).credit_account,
            lending_pool: final(ctx).lending_pool,
            market_config: final(ctx).market_config,
            ..*old(ctx)
        }),
        match spec_liquidate_settle(*old(ctx), clock.unix_timestamp, accrued_pool, *accrual, synced_debt, *pre_risk, *oracle, repay, seize) {
            Ok((plan, cs)) => {
                &&& final(ctx).lending_pool == plan.pool
                &&& final(ctx).market_config == (MarketConfig {
                    total_deposited: plan.total_deposited,
                    ..old(ctx).market_config
                })
                &&& final(ctx).credit_account.collaterals@ == cs
                &&& final(ctx).credit_account == (CreditAccount {
                    debt_usdg: plan.remaining_debt,
                    borrow_index_snapshot_e18: plan.accrued_pool.borrow_index_e18,
                    last_borrow_ts: clock.unix_timestamp,
                    last_collateral_value_usd_micro: plan.last_collateral_value,
                    last_borrow_limit_usd_micro: plan.last_borrow_limit,
                    last_liquidation_capacity_usd_micro: plan.last_liquidation_capacity,
                    last_health_factor_bps: plan.health_after,
                    last_valuation_ts: clock.unix_timestamp,
                    collaterals: final(ctx).credit_account.collaterals,
                    ..old(ctx).credit_account
                })
                &&& r == Ok::<PositionLiquidated, MiladyError>(
                    PositionLiquidated {
                        liquidator: old(ctx).liquidator,
                        borrower: old(ctx).borrower,
                        lending_pool: old(ctx).lending_pool_key,
                        market: old(ctx).market_config_key,
                        repay_usdg: plan.repay,
                        collateral_seized: plan.seize,
                        liquidation_bonus_bps: old(ctx).market_config.liquidation_bonus_bps,
                        debt_remaining_usdg: plan.remaining_debt,
                        health_before_bps: plan.pre_risk.health_factor_bps,
                        health_after_bps: plan.health_after,
                        available_liquidity_usdg: plan.available_liquidity,
                    },
                )
            },
            Err(e) => {
                &&& r == Err::<PositionLiquidated, MiladyError>(e)
                &&& final(ctx).lending_pool == old(ctx).lending_pool
                &&& final(ctx).market_config == old(ctx).market_config
                &&& final(ctx).credit_account.collaterals@ == old(ctx).credit_account.collaterals@
                &&& final(ctx).credit_account == (CreditAccount {
                    collaterals: final(ctx).credit_account.collaterals,
                    ..old(ctx).credit_account
                })
            },
        },
{
    let now = clock.unix_timestamp;
    let market_key = ctx.market_config_key;
    let decimals = ctx.market_config.decimals;
    let mut account = ctx.credit_account.duplicate();
    reduce_collateral(&mut account, market_key, seize)?;
    let total_deposited = match ctx.market_config.total_deposited.checked_sub(seize) {
        Some(v) => v,
        None => return Err(MiladyError::MathOverflow),
    };
    let new_debt = match synced_debt.checked_sub(repay) {
        Some(v) => v,
        None => return Err(MiladyError::MathOverflow),
    };
    let mut pool = accrued_pool;
    let new_borrowed = match pool.total_borrowed_usdg.checked_sub(repay) {
        Some(v) => v,
        None => return Err(MiladyError::PoolAccountingInvariant),
    };
    let seized_value = token_value_usd_micro(seize, decimals, oracle.price, oracle.exponent)?;
    let seized_limit = weighted_value(seized_value, ctx.market_config.ltv_bps)?;
    let seized_capacity = weighted_value(seized_value, ctx.market_config.liquidation_threshold_bps)?;
    if seized_limit > u64::MAX as u128 || seized_capacity > u64::MAX as u128 {
        return Err(MiladyError::MathOverflow);
    }
    let last_value = pre_risk.collateral_value_usd_micro.saturating_sub(seized_value);
    let last_limit = pre_risk.borrow_limit_usd_micro.saturating_sub(seized_limit as u64);
    let last_capacity = pre_risk.liquidation_capacity_usd_micro.saturating_sub(seized_capacity as u64);
    let health_after = health_factor_bps_for_debt(last_capacity, new_debt)?;
    let borrow_index = pool.borrow_index_e18;
    pool.total_borrowed_usdg = new_borrowed;
    refresh_rate_cache(&mut pool)?;
    let available = pool_available_liquidity(&pool)?;
    ctx.credit_account.collaterals = account.collaterals;
    ctx.credit_account.debt_usdg = new_debt;
    ctx.credit_account.borrow_index_snapshot_e18 = borrow_index;
    ctx.credit_account.last_borrow_ts = now;
    ctx.credit_account.last_collateral_value_usd_micro = last_value;
    ctx.credit_account.last_borrow_limit_usd_micro = last_limit;
    ctx.credit_account.last_liquidation_capacity_usd_micro = last_capacity;
    ctx.credit_account.last_health_factor_bps = health_after;
    ctx.credit_account.last_valuation_ts = now;
    ctx.market_config.total_deposited = total_deposited;
    ctx.lending_pool = pool;
    Ok(
        PositionLiquidated {
            liquidator: ctx.liquidator,
            borrower: ctx.borrower,
            lending_pool: ctx.lending_pool_key,
            market: market_key,
            repay_usdg: repay,
            collateral_seized: seize,
            liquidation_bonus_bps: ctx.market_config.liquidation_bonus_bps,
            debt_remaining_usdg: new_debt,
            health_before_bps: pre_risk.health_factor_bps,
            health_after_bps: health_after,
            available_liquidity_usdg: available,
        },
    )
}

} // verus!
