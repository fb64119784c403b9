//! The USDG lending pool: configuration, supply and withdrawal, borrowing, interest
//! synchronization, repayment and position closure.
use vstd::prelude::*;
use crate::constants::{BPS_DENOMINATOR, INDEX_SCALE_E18};
use crate::errors::MiladyError;
use crate::pubkey::{Pubkey, zero_key};
use crate::state::{LendingPool, CreditAccount, SupplierPosition, InitializeLendingPoolArgs, UpdateLendingPoolArgs};
use crate::events::{InterestAccrued, LendingPoolInitialized, LendingPoolUpdated, UsdgSupplied, UsdgSupplyWithdrawn, UsdgBorrowed, BorrowerInterestSynced, SupplierInterestSynced, UsdgRepaid, CreditAccountClosed, SupplierPositionClosed};
use crate::accounts_lending::{InitializeLendingPool, UpdateLendingPool, AccrueInterest, SupplyUsdg, WithdrawSuppliedUsdg, BorrowUsdg, SyncBorrowerInterest, SyncSupplierInterest, RepayUsdg, RepayUsdgOnBehalf, CloseCreditAccount, CloseSupplierPosition};
use crate::interest::{
    accrue_pool_interest, interest_accrued_event, refresh_rate_cache, validate_interest_model,
    spec_accrue_pool_interest, spec_interest_accrued_event, spec_refresh_rate_cache,
    spec_validate_interest_model, kink_nonzero, InterestAccrual, sync_supplier_balance,
    sync_borrower_debt, spec_grow_by_index, pool_available_liquidity, spec_pool_available_liquidity,
};
use crate::risk::{Clock, RiskSnapshot, assert_protocol_authority, health_factor_bps_for_debt, spec_health_factor_bps, compute_portfolio_risk, spec_portfolio_risk};

verus! {

// ------------------------------------------------------------------------------------
// Account binding checks
// ------------------------------------------------------------------------------------

/// The pool belongs to this protocol and uses the given USDG mint and liquidity vault.
pub open spec fn spec_check_pool_accounts(
    pool: LendingPool,
    protocol_key: Pubkey,
    usdg_mint: Pubkey,
    liquidity_vault: Pubkey,
) -> Result<(), MiladyError> {
    if pool.protocol@ != protocol_key@ {
        Err(MiladyError::InvalidProtocol)
    } else if pool.usdg_mint@ != usdg_mint@ {
        Err(MiladyError::InvalidMint)
    } else if pool.liquidity_vault@ != liquidity_vault@ {
        Err(MiladyError::InvalidLiquidityVault)
    } else {
        Ok(())
    }
}

/// Checks that the pool belongs to this protocol and matches the mint and vault passed.
pub fn check_pool_accounts(
    pool: &LendingPool,
    protocol_key: &Pubkey,
    usdg_mint: &Pubkey,
    liquidity_vault: &Pubkey,
) -> (r: Result<(), MiladyError>)
    ensures
        r == spec_check_pool_accounts(*pool, *protocol_key, *usdg_mint, *liquidity_vault),
{
    if !pool.protocol.key_eq(protocol_key) {
        return Err(MiladyError::InvalidProtocol);
    }
    if !pool.usdg_mint.key_eq(usdg_mint) {
        return Err(MiladyError::InvalidMint);
    }
    if !pool.liquidity_vault.key_eq(liquidity_vault) {
        return Err(MiladyError::InvalidLiquidityVault);
    }
    Ok(())
}

/// Checks that the pool belongs to this protocol.
pub fn check_pool_protocol(pool: &LendingPool, protocol_key: &Pubkey) -> (r: Result<(), MiladyError>)
    ensures
        r == (if pool.protocol@ != protocol_key@ {
            Err(MiladyError::InvalidProtocol)
        } else {
            Ok::<(), MiladyError>(())
        }),
{
    if !pool.protocol.key_eq(protocol_key) {
        return Err(MiladyError::InvalidProtocol);
    }
    Ok(())
}

/// Checks that an account is owned by the expected signer or borrower.
pub fn check_owner(owner: &Pubkey, expected: &Pubkey) -> (r: Result<(), MiladyError>)
    ensures
        r == (if owner@ != expected@ {
            Err(MiladyError::Unauthorized)
        } else {
            Ok::<(), MiladyError>(())
        }),
{
    if !owner.key_eq(expected) {
        return Err(MiladyError::Unauthorized);
    }
    Ok(())
}

// ------------------------------------------------------------------------------------
// Pool configuration
// ------------------------------------------------------------------------------------

/// When `initialize_lending_pool` succeeds, and which error refuses it.
pub open spec fn spec_initialize_lending_pool_check(ctx: InitializeLendingPool, args: InitializeLendingPoolArgs) -> Result<
    (),
    MiladyError,
> {
    if ctx.authority@ != ctx.protocol_config.authority@ {
        Err(MiladyError::Unauthorized)
    } else if ctx.protocol_config.paused {
        Err(MiladyError::ProtocolPaused)
    } else if ctx.usdg_mint_decimals != 6 {
        Err(MiladyError::InvalidUsdgDecimals)
    } else {
        spec_validate_interest_model(
            args.reserve_factor_bps,
            args.base_rate_bps,
            args.slope1_bps,
            args.slope2_bps,
            args.kink_utilization_bps,
        )
    }
}

/// The pool `initialize_lending_pool` writes at `now`: empty, indexes at 1.0, the given
/// rate model, borrowing and liquidation disabled.
pub open spec fn spec_initialized_pool(ctx: InitializeLendingPool, args: InitializeLendingPoolArgs, now: i64) -> LendingPool {
    LendingPool {
        protocol: ctx.protocol_config_key,
        usdg_mint: ctx.usdg_mint,
        liquidity_vault: ctx.liquidity_vault,
        total_supplied_usdg: 0,
        total_borrowed_usdg: 0,
        protocol_reserves_usdg: 0,
        borrow_interest_remainder: 0,
        borrow_cap_usdg: args.borrow_cap_usdg,
        borrow_index_e18: INDEX_SCALE_E18,
        supply_index_e18: INDEX_SCALE_E18,
        last_accrual_ts: now,
        reserve_factor_bps: args.reserve_factor_bps,
        base_rate_bps: args.base_rate_bps,
        slope1_bps: args.slope1_bps,
        slope2_bps: args.slope2_bps,
        kink_utilization_bps: args.kink_utilization_bps,
        last_borrow_apr_bps: args.base_rate_bps,
        last_supply_apr_bps: 0,
        borrow_enabled: false,
        bump: ctx.lending_pool_bump,
        insurance_reserve_usdg: 0,
        bad_debt_usdg: 0,
        liquidation_close_factor_bps: 0,
        liquidation_enabled: false,
    }
}

/// Creates the USDG lending pool with a validated interest model; borrowing starts
/// disabled.
pub fn initialize_lending_pool(
    ctx: &mut InitializeLendingPool,
    args: InitializeLendingPoolArgs,
    clock: &Clock,
) -> (r: Result<LendingPoolInitialized, MiladyError>)
    ensures
        match spec_initialize_lending_pool_check(*old(ctx), args) {
            Ok(_) => {
                &&& final(ctx).lending_pool == spec_initialized_pool(*old(ctx), args, clock.unix_timestamp)
                &&& *final(ctx) == (InitializeLendingPool { lending_pool: final(ctx).lending_pool, ..*old(ctx) })
                &&& r == Ok::<LendingPoolInitialized, MiladyError>(
                    LendingPoolInitialized {
                        lending_pool: old(ctx).lending_pool_key,
                        usdg_mint: old(ctx).usdg_mint,
                        liquidity_vault: old(ctx).liquidity_vault,
                        borrow_cap_usdg: args.borrow_cap_usdg,
                        reserve_factor_bps: args.reserve_factor_bps,
                        base_rate_bps: args.base_rate_bps,
                        slope1_bps: args.slope1_bps,
                        slope2_bps: args.slope2_bps,
                        kink_utilization_bps: args.kink_utilization_bps,
                    },
                )
            },
            Err(e) => r == Err::<LendingPoolInitialized, MiladyError>(e) && *final(ctx) == *old(ctx),
        },
{
    assert_protocol_authority(&ctx.protocol_config, &ctx.authority)?;
    if ctx.protocol_config.paused {
        return Err(MiladyError::ProtocolPaused);
    }
    if ctx.usdg_mint_decimals != 6 {
        return Err(MiladyError::InvalidUsdgDecimals);
    }
    validate_interest_model(
        args.reserve_factor_bps,
        args.base_rate_bps,
        args.slope1_bps,
        args.slope2_bps,
        args.kink_utilization_bps,
    )?;
    ctx.lending_pool = LendingPool {
        protocol: ctx.protocol_config_key,
        usdg_mint: ctx.usdg_mint,
        liquidity_vault: ctx.liquidity_vault,
        total_supplied_usdg: 0,
        total_borrowed_usdg: 0,
        protocol_reserves_usdg: 0,
        borrow_interest_remainder: 0,
        borrow_cap_usdg: args.borrow_cap_usdg,
        borrow_index_e18: INDEX_SCALE_E18,
        supply_index_e18: INDEX_SCALE_E18,
        last_accrual_ts: clock.unix_timestamp,
        reserve_factor_bps: args.reserve_factor_bps,
        base_rate_bps: args.base_rate_bps,
        slope1_bps: args.slope1_bps,
        slope2_bps: args.slope2_bps,
        kink_utilization_bps: args.kink_utilization_bps,
        last_borrow_apr_bps: args.base_rate_bps,
        last_supply_apr_bps: 0,
        borrow_enabled: false,
        bump: ctx.lending_pool_bump,
        insurance_reserve_usdg: 0,
        bad_debt_usdg: 0,
        liquidation_close_factor_bps: 0,
        liquidation_enabled: false,
    };
    Ok(
        LendingPoolInitialized {
            lending_pool: ctx.lending_pool_key,
            usdg_mint: ctx.lending_pool.usdg_mint,
            liquidity_vault: ctx.lending_pool.liquidity_vault,
            borrow_cap_usdg: ctx.lending_pool.borrow_cap_usdg,
            reserve_factor_bps: ctx.lending_pool.reserve_factor_bps,
            base_rate_bps: ctx.lending_pool.base_rate_bps,
            slope1_bps: ctx.lending_pool.slope1_bps,
            slope2_bps: ctx.lending_pool.slope2_bps,
            kink_utilization_bps: ctx.lending_pool.kink_utilization_bps,
        },
    )
}

/// The pool after `update_lending_pool` at `now` and the accrual it performed, or why
/// the update is refused. Interest is accrued under the old model first.
pub open spec fn spec_update_lending_pool(ctx: UpdateLendingPool, args: UpdateLendingPoolArgs, now: i64) -> Result<
    (LendingPool, InterestAccrual),
    MiladyError,
> {
    if ctx.lending_pool.protocol@ != ctx.protocol_config_key@ {
        Err(MiladyError::InvalidProtocol)
    } else if ctx.authority@ != ctx.protocol_config.authority@ {
        Err(MiladyError::Unauthorized)
    } else {
        match spec_validate_interest_model(
            args.reserve_factor_bps,
            args.base_rate_bps,
            args.slope1_bps,
            args.slope2_bps,
            args.kink_utilization_bps,
        ) {
            Err(e) => Err(e),
            Ok(_) => spec_update_lending_pool_accrued(ctx, args, now),
        }
    }
}

/// The accrual-and-update part of `spec_update_lending_pool`.
pub open spec fn spec_update_lending_pool_accrued(ctx: UpdateLendingPool, args: UpdateLendingPoolArgs, now: i64) -> Result<
    (LendingPool, InterestAccrual),
    MiladyError,
> {
    match spec_accrue_pool_interest(ctx.lending_pool, ctx.lending_pool_key, now) {
        Err(e) => Err(e),
        Ok((p, a)) => if args.borrow_cap_usdg > 0 && args.borrow_cap_usdg < p.total_borrowed_usdg {
            Err(MiladyError::BorrowCapBelowOutstandingDebt)
        } else {
            match spec_refresh_rate_cache(
                LendingPool {
                    borrow_cap_usdg: args.borrow_cap_usdg,
                    reserve_factor_bps: args.reserve_factor_bps,
                    base_rate_bps: args.base_rate_bps,
                    slope1_bps: args.slope1_bps,
                    slope2_bps: args.slope2_bps,
                    kink_utilization_bps: args.kink_utilization_bps,
                    borrow_enabled: args.borrow_enabled,
                    ..p
                },
            ) {
                Err(e) => Err(e),
                Ok(q) => Ok((q, a)),
            }
        },
    }
}

/// Accrues interest under the current model, then replaces the borrow cap, rate model
/// and borrow switch; the cap may not be set below outstanding debt.
pub fn update_lending_pool(
    ctx: &mut UpdateLendingPool,
    args: UpdateLendingPoolArgs,
    clock: &Clock,
) -> (r: Result<(Option<InterestAccrued>, LendingPoolUpdated), MiladyError>)
    requires
        kink_nonzero(old(ctx).lending_pool),
    ensures
        match spec_update_lending_pool(*old(ctx), args, clock.unix_timestamp) {
            Ok((p, a)) => {
                &&& final(ctx).lending_pool == p
                &&& *final(ctx) == (UpdateLendingPool { lending_pool: p, ..*old(ctx) })
                &&& r == Ok::<(Option<InterestAccrued>, LendingPoolUpdated), MiladyError>(
                    (
                        spec_interest_accrued_event(
                            spec_accrue_pool_interest(old(ctx).lending_pool, old(ctx).lending_pool_key, clock.unix_timestamp)->Ok_0.0,
                            a,
                        ),
                        LendingPoolUpdated {
                            lending_pool: old(ctx).lending_pool_key,
                            borrow_cap_usdg: args.borrow_cap_usdg,
                            reserve_factor_bps: args.reserve_factor_bps,
                            base_rate_bps: args.base_rate_bps,
                            slope1_bps: args.slope1_bps,
                            slope2_bps: args.slope2_bps,
                            kink_utilization_bps: args.kink_utilization_bps,
                            borrow_enabled: args.borrow_enabled,
                        },
                    ),
                )
            },
            Err(e) => r == Err::<(Option<InterestAccrued>, LendingPoolUpdated), MiladyError>(e)
                && *final(ctx) == *old(ctx),
        },
{
    check_pool_protocol(&ctx.lending_pool, &ctx.protocol_config_key)?;
    assert_protocol_authority(&ctx.protocol_config, &ctx.authority)?;
    validate_interest_model(
        args.reserve_factor_bps,
        args.base_rate_bps,
        args.slope1_bps,
        args.slope2_bps,
        args.kink_utilization_bps,
    )?;
    let mut pool = ctx.lending_pool;
    let accrual = accrue_pool_interest(&mut pool, ctx.lending_pool_key, clock.unix_timestamp)?;
    let accrued_event = interest_accrued_event(&pool, &accrual);
    if args.borrow_cap_usdg > 0 {
        if !(args.borrow_cap_usdg >= pool.total_borrowed_usdg) {
            return Err(MiladyError::BorrowCapBelowOutstandingDebt);
        }
    }
    pool.borrow_cap_usdg = args.borrow_cap_usdg;
    pool.reserve_factor_bps = args.reserve_factor_bps;
    pool.base_rate_bps = args.base_rate_bps;
    pool.slope1_bps = args.slope1_bps;
    pool.slope2_bps = args.slope2_bps;
    pool.kink_utilization_bps = args.kink_utilization_bps;
    pool.borrow_enabled = args.borrow_enabled;
    refresh_rate_cache(&mut pool)?;
    ctx.lending_pool = pool;
    Ok(
        (
            accrued_event,
            LendingPoolUpdated {
                lending_pool: ctx.lending_pool_key,
                borrow_cap_usdg: pool.borrow_cap_usdg,
                reserve_factor_bps: pool.reserve_factor_bps,
                base_rate_bps: pool.base_rate_bps,
                slope1_bps: pool.slope1_bps,
                slope2_bps: pool.slope2_bps,
                kink_utilization_bps: pool.kink_utilization_bps,
                borrow_enabled: pool.borrow_enabled,
            },
        ),
    )
}

/// Accrues pool interest up to the clock; anyone may call it.
pub fn accrue_interest(ctx: &mut AccrueInterest, clock: &Clock) -> (r: Result<
    Option<InterestAccrued>,
    MiladyError,
>)
    requires
        kink_nonzero(old(ctx).lending_pool),
    ensures
        if old(ctx).lending_pool.protocol@ != old(ctx).protocol_config_key@ {
            r == Err::<Option<InterestAccrued>, MiladyError>(MiladyError::InvalidProtocol)
                && *final(ctx) == *old(ctx)
        } else {
            match spec_accrue_pool_interest(old(ctx).lending_pool, old(ctx).lending_pool_key, clock.unix_timestamp) {
                Ok((p, a)) => {
                    &&& *final(ctx) == (AccrueInterest { lending_pool: p, ..*old(ctx) })
                    &&& r == Ok::<Option<InterestAccrued>, MiladyError>(spec_interest_accrued_event(p, a))
                },
                Err(e) => r == Err::<Option<InterestAccrued>, MiladyError>(e) && *final(ctx) == *old(ctx),
            }
        },
{
    check_pool_protocol(&ctx.lending_pool, &ctx.protocol_config_key)?;
    let key = ctx.lending_pool_key;
    let accrual = accrue_pool_interest(&mut ctx.lending_pool, key, clock.unix_timestamp)?;
    Ok(interest_accrued_event(&ctx.lending_pool, &accrual))
}

// ------------------------------------------------------------------------------------
// Repayment
// ------------------------------------------------------------------------------------

/// The amount a repayment settles: the whole synchronized debt for MAX (`None`), or the
/// requested amount, which must be positive and at most the debt.
pub open spec fn spec_resolve_repayment_amount(debt_usdg: u64, requested: Option<u64>) -> Result<
    u64,
    MiladyError,
> {
    if debt_usdg == 0 {
        Err(MiladyError::NoDebtToRepay)
    } else {
        match requested {
            None => Ok(debt_usdg),
            Some(amount) => if amount == 0 {
                Err(MiladyError::InvalidAmount)
            } else if amount > debt_usdg {
                Err(MiladyError::RepayAmountExceedsDebt)
            } else {
                Ok(amount)
            },
        }
    }
}

/// Resolves a partial or MAX repayment request against the synchronized debt.
pub fn resolve_repayment_amount(debt_usdg: u64, requested: Option<u64>) -> (r: Result<
    u64,
    MiladyError,
>)
    ensures
        r == spec_resolve_repayment_amount(debt_usdg, requested),
{
    if !(debt_usdg > 0) {
        return Err(MiladyError::NoDebtToRepay);
    }
    match requested {
        None => Ok(debt_usdg),
        Some(amount) => {
            if !(amount > 0) {
                return Err(MiladyError::InvalidAmount);
            }
            if !(amount <= debt_usdg) {
                return Err(MiladyError::RepayAmountExceedsDebt);
            }
            Ok(amount)
        },
    }
}

/// The debt, health factor and pool after settling `amount` of a borrower's debt, or
/// why the settlement is refused.
pub open spec fn spec_apply_repayment(account: CreditAccount, pool: LendingPool, amount: u64) -> Result<
    (u64, u64, LendingPool),
    MiladyError,
> {
    if account.debt_usdg < amount {
        Err(MiladyError::RepayAmountExceedsDebt)
    } else if pool.total_borrowed_usdg < amount {
        Err(MiladyError::PoolAccountingInvariant)
    } else {
        let debt = (account.debt_usdg - amount) as u64;
        match spec_refresh_rate_cache(
            LendingPool { total_borrowed_usdg: (pool.total_borrowed_usdg - amount) as u64, ..pool },
        ) {
            Err(e) => Err(e),
            Ok(p) => Ok(
                (debt, spec_health_factor_bps(account.last_liquidation_capacity_usd_micro, debt), p),
            ),
        }
    }
}

/// Settles `amount` of debt against the pool: reduces the borrower's debt and the pool's
/// total borrows, recomputes the cached health factor and the pool's rates. Returns the
/// remaining debt and the new health factor. On error nothing changes.
pub fn apply_repayment_accounting(
    account: &mut CreditAccount,
    pool: &mut LendingPool,
    amount: u64,
    now: i64,
) -> (r: Result<(u64, u64), MiladyError>)
    requires
        kink_nonzero(*old(pool)),
    ensures
        final(account).collaterals@ == old(account).collaterals@,
        kink_nonzero(*final(pool)),
        match spec_apply_repayment(*old(account), *old(pool), amount) {
            Ok((debt, health, p)) => {
                &&& r == Ok::<(u64, u64), MiladyError>((debt, health))
                &&& *final(pool) == p
                &&& *final(account) == (CreditAccount {
                    debt_usdg: debt,
                    borrow_index_snapshot_e18: old(pool).borrow_index_e18,
                    last_borrow_ts: now,
                    last_health_factor_bps: health,
                    collaterals: final(account).collaterals,
                    ..*old(account)
                })
            },
            Err(e) => {
                &&& r == Err::<(u64, u64), MiladyError>(e)
                &&& *final(pool) == *old(pool)
                &&& *final(account) == (CreditAccount {
                    collaterals: final(account).collaterals,
                    ..*old(account)
                })
            },
        },
{
    if !(account.debt_usdg >= amount) {
        return Err(MiladyError::RepayAmountExceedsDebt);
    }
    if !(pool.total_borrowed_usdg >= amount) {
        return Err(MiladyError::PoolAccountingInvariant);
    }
    let debt = account.debt_usdg - amount;
    let mut updated = *pool;
    updated.total_borrowed_usdg = pool.total_borrowed_usdg - amount;
    let health = health_factor_bps_for_debt(account.last_liquidation_capacity_usd_micro, debt)?;
    refresh_rate_cache(&mut updated)?;
    account.debt_usdg = debt;
    account.borrow_index_snapshot_e18 = pool.borrow_index_e18;
    account.last_borrow_ts = now;
    account.last_health_factor_bps = health;
    *pool = updated;
    Ok((debt, health))
}


// ------------------------------------------------------------------------------------
// Supplying and withdrawing USDG
// ------------------------------------------------------------------------------------

/// The supplier position a supply starts from: a fresh one when the account is unset.
pub open spec fn spec_supply_position(ctx: SupplyUsdg, pool: LendingPool, now: i64) -> SupplierPosition {
    if ctx.supplier_position.owner@ == zero_key() {
        SupplierPosition {
            owner: ctx.supplier,
            lending_pool: ctx.lending_pool_key,
            principal_usdg: 0,
            supply_index_snapshot_e18: pool.supply_index_e18,
            created_at: now,
            last_updated_ts: now,
            bump: ctx.supplier_position_bump,
        }
    } else {
        ctx.supplier_position
    }
}

/// Pool, position, accrual and synchronized interest after supplying `amount` at `now`,
/// or why the supply is refused.
pub open spec fn spec_supply_usdg(ctx: SupplyUsdg, amount: u64, now: i64) -> Result<
    (LendingPool, SupplierPosition, InterestAccrual, u64),
    MiladyError,
> {
    match spec_check_pool_accounts(ctx.lending_pool, ctx.protocol_config_key, ctx.usdg_mint, ctx.liquidity_vault) {
        Err(e) => Err(e),
        Ok(_) => if ctx.protocol_config.paused {
            Err(MiladyError::ProtocolPaused)
        } else if amount == 0 {
            Err(MiladyError::InvalidAmount)
        } else if ctx.usdg_mint_decimals != 6 {
            Err(MiladyError::InvalidUsdgDecimals)
        } else {
            match spec_accrue_pool_interest(ctx.lending_pool, ctx.lending_pool_key, now) {
                Err(e) => Err(e),
                Ok((p1, a)) => {
                    let pos = spec_supply_position(ctx, p1, now);
                    if pos.owner@ != ctx.supplier@ {
                        Err(MiladyError::Unauthorized)
                    } else if pos.lending_pool@ != ctx.lending_pool_key@ {
                        Err(MiladyError::InvalidLendingPool)
                    } else {
                        match spec_grow_by_index(pos.principal_usdg, pos.supply_index_snapshot_e18, p1.supply_index_e18) {
                            Err(e) => Err(e),
                            Ok(b1) => if b1 + amount > u64::MAX || p1.total_supplied_usdg + amount > u64::MAX {
                                Err(MiladyError::MathOverflow)
                            } else {
                                match spec_refresh_rate_cache(
                                    LendingPool { total_supplied_usdg: (p1.total_supplied_usdg + amount) as u64, ..p1 },
                                ) {
                                    Err(e) => Err(e),
                                    Ok(p2) => Ok(
                                        (
                                            p2,
                                            SupplierPosition {
                                                principal_usdg: (b1 + amount) as u64,
                                                supply_index_snapshot_e18: p1.supply_index_e18,
                                                last_updated_ts: now,
                                                ..pos
                                            },
                                            a,
                                            (b1 - pos.principal_usdg) as u64,
                                        ),
                                    ),
                                }
                            },
                        }
                    }
                },
            }
        },
    }
}

/// Accrues interest, synchronizes the supplier's balance and adds `amount` to it; the
/// event's `amount` is what moves from the supplier into the liquidity vault.
pub fn supply_usdg(ctx: &mut SupplyUsdg, amount: u64, clock: &Clock) -> (r: Result<
    (Option<InterestAccrued>, UsdgSupplied),
    MiladyError,
>)
    requires
        kink_nonzero(old(ctx).lending_pool),
    ensures
        match spec_supply_usdg(*old(ctx), amount, clock.unix_timestamp) {
            Ok((p, pos, a, accrued)) => {
                &&& *final(ctx) == (SupplyUsdg { lending_pool: p, supplier_position: pos, ..*old(ctx) })
                &&& r == Ok::<(Option<InterestAccrued>, UsdgSupplied), MiladyError>(
                    (
                        spec_interest_accrued_event(
                            spec_accrue_pool_interest(old(ctx).lending_pool, old(ctx).lending_pool_key, clock.unix_timestamp)->Ok_0.0,
                            a,
                        ),
                        UsdgSupplied {
                            supplier: old(ctx).supplier,
                            lending_pool: old(ctx).lending_pool_key,
                            amount,
                            accrued_interest_usdg: accrued,
                            supplier_balance_usdg: pos.principal_usdg,
                            total_supplied_usdg: p.total_supplied_usdg,
                        },
                    ),
                )
            },
            Err(e) => r == Err::<(Option<InterestAccrued>, UsdgSupplied), MiladyError>(e) && *final(ctx) == *old(ctx),
        },
{
    check_pool_accounts(&ctx.lending_pool, &ctx.protocol_config_key, &ctx.usdg_mint, &ctx.liquidity_vault)?;
    if ctx.protocol_config.paused {
        return Err(MiladyError::ProtocolPaused);
    }
    if !(amount > 0) {
        return Err(MiladyError::InvalidAmount);
    }
    if ctx.usdg_mint_decimals != 6 {
        return Err(MiladyError::InvalidUsdgDecimals);
    }
    let now = clock.unix_timestamp;
    let mut pool = ctx.lending_pool;
    let accrual = accrue_pool_interest(&mut pool, ctx.lending_pool_key, now)?;
    let accrued_event = interest_accrued_event(&pool, &accrual);
    let mut position = ctx.supplier_position;
    let zero = Pubkey::zero();
    if position.owner.key_eq(&zero) {
        position = SupplierPosition {
            owner: ctx.supplier,
            lending_pool: ctx.lending_pool_key,
            principal_usdg: 0,
            supply_index_snapshot_e18: pool.supply_index_e18,
            created_at: now,
            last_updated_ts: now,
            bump: ctx.supplier_position_bump,
        };
    }
    if !position.owner.key_eq(&ctx.supplier) {
        return Err(MiladyError::Unauthorized);
    }
    if !position.lending_pool.key_eq(&ctx.lending_pool_key) {
        return Err(MiladyError::InvalidLendingPool);
    }
    let accrued = sync_supplier_balance(&mut position, &pool, now)?;
    let new_position_balance = match position.principal_usdg.checked_add(amount) {
        Some(v) => v,
        None => return Err(MiladyError::MathOverflow),
    };
    let new_total_supplied = match pool.total_supplied_usdg.checked_add(amount) {
        Some(v) => v,
        None => return Err(MiladyError::MathOverflow),
    };
    position.principal_usdg = new_position_balance;
    position.supply_index_snapshot_e18 = pool.supply_index_e18;
    position.last_updated_ts = now;
    pool.total_supplied_usdg = new_total_supplied;
    refresh_rate_cache(&mut pool)?;
    ctx.lending_pool = pool;
    ctx.supplier_position = position;
    Ok(
        (
            accrued_event,
            UsdgSupplied {
                supplier: ctx.supplier,
                lending_pool: ctx.lending_pool_key,
                amount,
                accrued_interest_usdg: accrued,
                supplier_balance_usdg: new_position_balance,
                total_supplied_usdg: new_total_supplied,
            },
        ),
    )
}

/// Pool, position, accrual and synchronized interest after withdrawing `amount` at
/// `now`, or why the withdrawal is refused.
pub open spec fn spec_withdraw_supplied_usdg(ctx: WithdrawSuppliedUsdg, amount: u64, now: i64) -> Result<
    (LendingPool, SupplierPosition, InterestAccrual, u64),
    MiladyError,
> {
    let pos = ctx.supplier_position;
    match spec_check_pool_accounts(ctx.lending_pool, ctx.protocol_config_key, ctx.usdg_mint, ctx.liquidity_vault) {
        Err(e) => Err(e),
        Ok(_) => if pos.owner@ != ctx.supplier@ {
            Err(MiladyError::Unauthorized)
        } else if pos.lending_pool@ != ctx.lending_pool_key@ {
            Err(MiladyError::InvalidLendingPool)
        } else if ctx.protocol_config.paused {
            Err(MiladyError::ProtocolPaused)
        } else if amount == 0 {
            Err(MiladyError::InvalidAmount)
        } else if ctx.usdg_mint_decimals != 6 {
            Err(MiladyError::InvalidUsdgDecimals)
        } else {
            match spec_accrue_pool_interest(ctx.lending_pool, ctx.lending_pool_key, now) {
                Err(e) => Err(e),
                Ok((p1, a)) => match spec_grow_by_index(pos.principal_usdg, pos.supply_index_snapshot_e18, p1.supply_index_e18) {
                    Err(e) => Err(e),
                    Ok(b1) => if b1 < amount {
                        Err(MiladyError::InsufficientSupply)
                    } else {
                        match spec_pool_available_liquidity(p1) {
                            Err(e) => Err(e),
                            Ok(avail) => if avail < amount || ctx.liquidity_vault_amount < amount {
                                Err(MiladyError::InsufficientLiquidity)
                            } else if p1.total_supplied_usdg < amount {
                                Err(MiladyError::MathOverflow)
                            } else {
                                match spec_refresh_rate_cache(
                                    LendingPool { total_supplied_usdg: (p1.total_supplied_usdg - amount) as u64, ..p1 },
                                ) {
                                    Err(e) => Err(e),
                                    Ok(p2) => Ok(
                                        (
                                            p2,
                                            SupplierPosition {
                                                principal_usdg: (b1 - amount) as u64,
                                                supply_index_snapshot_e18: p1.supply_index_e18,
                                                last_updated_ts: now,
                                                ..pos
                                            },
                                            a,
                                            (b1 - pos.principal_usdg) as u64,
                                        ),
                                    ),
                                }
                            },
                        }
                    },
                },
            }
        },
    }
}

/// Accrues interest, synchronizes the supplier's balance and withdraws `amount` from it
/// if the pool has that much idle liquidity; the event's `amount` is what moves from
/// the liquidity vault to the supplier.
pub fn withdraw_supplied_usdg(ctx: &mut WithdrawSuppliedUsdg, amount: u64, clock: &Clock) -> (r: Result<
    (Option<InterestAccrued>, UsdgSupplyWithdrawn),
    MiladyError,
>)
    requires
        kink_nonzero(old(ctx).lending_pool),
    ensures
        match spec_withdraw_supplied_usdg(*old(ctx), amount, clock.unix_timestamp) {
            Ok((p, pos, a, accrued)) => {
                &&& *final(ctx) == (WithdrawSuppliedUsdg { lending_pool: p, supplier_position: pos, ..*old(ctx) })
                &&& r == Ok::<(Option<InterestAccrued>, UsdgSupplyWithdrawn), MiladyError>(
                    (
                        spec_interest_accrued_event(
                            spec_accrue_pool_interest(old(ctx).lending_pool, old(ctx).lending_pool_key, clock.unix_timestamp)->Ok_0.0,
                            a,
                        ),
                        UsdgSupplyWithdrawn {
                            supplier: old(ctx).supplier,
                            lending_pool: old(ctx).lending_pool_key,
                            amount,
                            accrued_interest_usdg: accrued,
                            supplier_balance_usdg: pos.principal_usdg,
                            total_supplied_usdg: p.total_supplied_usdg,
                        },
                    ),
                )
            },
            Err(e) => r == Err::<(Option<InterestAccrued>, UsdgSupplyWithdrawn), MiladyError>(e) && *final(ctx) == *old(ctx),
        },
{
    check_pool_accounts(&ctx.lending_pool, &ctx.protocol_config_key, &ctx.usdg_mint, &ctx.liquidity_vault)?;
    check_owner(&ctx.supplier_position.owner, &ctx.supplier)?;
    if !ctx.supplier_position.lending_pool.key_eq(&ctx.lending_pool_key) {
        return Err(MiladyError::InvalidLendingPool);
    }
    if ctx.protocol_config.paused {
        return Err(MiladyError::ProtocolPaused);
    }
    if !(amount > 0) {
        return Err(MiladyError::InvalidAmount);
    }
    if ctx.usdg_mint_decimals != 6 {
        return Err(MiladyError::InvalidUsdgDecimals);
    }
    let now = clock.unix_timestamp;
    let mut pool = ctx.lending_pool;
    let accrual = accrue_pool_interest(&mut pool, ctx.lending_pool_key, now)?;
    let accrued_event = interest_accrued_event(&pool, &accrual);
    let mut position = ctx.supplier_position;
    let accrued = sync_supplier_balance(&mut position, &pool, now)?;
    if !(position.principal_usdg >= amount) {
        return Err(MiladyError::InsufficientSupply);
    }
    let available = pool_available_liquidity(&pool)?;
    if !(available >= amount) {
        return Err(MiladyError::InsufficientLiquidity);
    }
    if !(ctx.liquidity_vault_amount >= amount) {
        return Err(MiladyError::InsufficientLiquidity);
    }
    let new_position_balance = position.principal_usdg - amount;
    let new_total_supplied = match pool.total_supplied_usdg.checked_sub(amount) {
        Some(v) => v,
        None => return Err(MiladyError::MathOverflow),
    };
    position.principal_usdg = new_position_balance;
    position.supply_index_snapshot_e18 = pool.supply_index_e18;
    position.last_updated_ts = now;
    pool.total_supplied_usdg = new_total_supplied;
    refresh_rate_cache(&mut pool)?;
    ctx.lending_pool = pool;
    ctx.supplier_position = position;
    Ok(
        (
            accrued_event,
            UsdgSupplyWithdrawn {
                supplier: ctx.supplier,
                lending_pool: ctx.lending_pool_key,
                amount,
                accrued_interest_usdg: accrued,
                supplier_balance_usdg: new_position_balance,
                total_supplied_usdg: new_total_supplied,
            },
        ),
    )
}

// ------------------------------------------------------------------------------------
// Borrowing
// ------------------------------------------------------------------------------------

/// What a successful borrow leaves behind.
pub struct BorrowPlan {
    /// The pool after accrual, the new borrow and the rate refresh.
    pub pool: LendingPool,
    /// The pool right after accrual.
    pub accrued_pool: LendingPool,
    pub accrual: InterestAccrual,
    /// The borrower's debt once synchronized, before the new borrow.
    pub synced_debt: u64,
    pub new_debt: u64,
    pub snapshot: RiskSnapshot,
    pub health: u64,
}

/// The outcome of borrowing `amount` at `now`, or why the borrow is refused: the pool
/// must be enabled with idle liquidity and room under its cap, and the new debt must
/// stay within the fresh borrow limit with a health factor above 100%.
pub open spec fn spec_borrow_usdg(ctx: BorrowUsdg, amount: u64, now: i64) -> Result<BorrowPlan, MiladyError> {
    if ctx.credit_account.owner@ != ctx.borrower@ {
        Err(MiladyError::Unauthorized)
    } else {
        match spec_check_pool_accounts(ctx.lending_pool, ctx.protocol_config_key, ctx.usdg_mint, ctx.liquidity_vault) {
            Err(e) => Err(e),
            Ok(_) => if ctx.protocol_config.paused {
                Err(MiladyError::ProtocolPaused)
            } else if amount == 0 {
                Err(MiladyError::InvalidAmount)
            } else if ctx.usdg_mint_decimals != 6 {
                Err(MiladyError::InvalidUsdgDecimals)
            } else if !ctx.lending_pool.borrow_enabled {
                Err(MiladyError::BorrowingDisabled)
            } else {
                match spec_accrue_pool_interest(ctx.lending_pool, ctx.lending_pool_key, now) {
                    Err(e) => Err(e),
                    Ok((p1, a)) => spec_borrow_after_accrual(ctx, amount, now, p1, a),
                }
            },
        }
    }
}

/// The part of `spec_borrow_usdg` after pool interest has been accrued.
pub open spec fn spec_borrow_after_accrual(
    ctx: BorrowUsdg,
    amount: u64,
    now: i64,
    p1: LendingPool,
    a: InterestAccrual,
) -> Result<BorrowPlan, MiladyError> {
    let account = ctx.credit_account;
    match spec_grow_by_index(account.debt_usdg, account.borrow_index_snapshot_e18, p1.borrow_index_e18) {
        Err(e) => Err(e),
        Ok(d1) => match spec_pool_available_liquidity(p1) {
            Err(e) => Err(e),
            Ok(avail) => if avail < amount || ctx.liquidity_vault_amount < amount {
                Err(MiladyError::InsufficientLiquidity)
            } else if p1.total_borrowed_usdg + amount > u64::MAX {
                Err(MiladyError::MathOverflow)
            } else if p1.borrow_cap_usdg > 0 && p1.total_borrowed_usdg + amount > p1.borrow_cap_usdg {
                Err(MiladyError::BorrowCapExceeded)
            } else {
                match spec_portfolio_risk(account.collaterals@, d1, ctx.remaining_accounts@, true, now) {
                    Err(e) => Err(e),
                    Ok(snap) => if d1 + amount > u64::MAX {
                        Err(MiladyError::MathOverflow)
                    } else if d1 + amount > snap.borrow_limit_usd_micro {
                        Err(MiladyError::BorrowLimitExceeded)
                    } else if spec_health_factor_bps(snap.liquidation_capacity_usd_micro, (d1 + amount) as u64)
                        <= BPS_DENOMINATOR {
                        Err(MiladyError::BorrowWouldBeLiquidatable)
                    } else {
                        match spec_refresh_rate_cache(
                            LendingPool { total_borrowed_usdg: (p1.total_borrowed_usdg + amount) as u64, ..p1 },
                        ) {
                            Err(e) => Err(e),
                            Ok(p2) => Ok(
                                BorrowPlan {
                                    pool: p2,
                                    accrued_pool: p1,
                                    accrual: a,
                                    synced_debt: d1,
                                    new_debt: (d1 + amount) as u64,
                                    snapshot: snap,
                                    health: spec_health_factor_bps(
                                        snap.liquidation_capacity_usd_micro,
                                        (d1 + amount) as u64,
                                    ),
                                },
                            ),
                        }
                    },
                }
            },
        },
    }
}

/// Lends `amount` USDG against the borrower's collateral after accruing interest,
/// synchronizing the debt and revaluing the portfolio at fresh oracle prices; the
/// event's `amount` is what moves from the liquidity vault to the borrower.
pub fn borrow_usdg(ctx: &mut BorrowUsdg, amount: u64, clock: &Clock) -> (r: Result<
    (Option<InterestAccrued>, UsdgBorrowed),
    MiladyError,
>)
    requires
        kink_nonzero(old(ctx).lending_pool),
    ensures
        final(ctx).credit_account.collaterals@ == old(ctx).credit_account.collaterals@,
        *final(ctx) == (BorrowUsdg {
            credit_account: final(ctx).credit_account,
            lending_pool: final(ctx).lending_pool,
            ..*old(ctx)
        }),
        match spec_borrow_usdg(*old(ctx), amount, clock.unix_timestamp) {
            Ok(plan) => {
                &&& final(ctx).lending_pool == plan.pool
                &&& final(ctx).credit_account == (CreditAccount {
                    debt_usdg: plan.new_debt,
                    borrow_index_snapshot_e18: plan.accrued_pool.borrow_index_e18,
                    last_borrow_ts: clock.unix_timestamp,
                    last_collateral_value_usd_micro: plan.snapshot.collateral_value_usd_micro,
                    last_borrow_limit_usd_micro: plan.snapshot.borrow_limit_usd_micro,
                    last_liquidation_capacity_usd_micro: plan.snapshot.liquidation_capacity_usd_micro,
                    last_health_factor_bps: plan.health,
                    last_valuation_ts: clock.unix_timestamp,
                    collaterals: final(ctx).credit_account.collaterals,
                    ..old(ctx).credit_account
                })
                &&& r == Ok::<(Option<InterestAccrued>, UsdgBorrowed), MiladyError>(
                    (
                        spec_interest_accrued_event(plan.accrued_pool, plan.accrual),
                        UsdgBorrowed {
                            borrower: old(ctx).borrower,
                            lending_pool: old(ctx).lending_pool_key,
                            amount,
                            accrued_interest_usdg: (plan.synced_debt - old(ctx).credit_account.debt_usdg) as u64,
                            new_debt_usdg: plan.new_debt,
                            total_borrowed_usdg: plan.pool.total_borrowed_usdg,
                            borrow_limit_usd_micro: plan.snapshot.borrow_limit_usd_micro,
                            health_factor_bps: plan.health,
                            borrow_apr_bps: plan.pool.last_borrow_apr_bps,
                        },
                    ),
                )
            },
            Err(e) => {
                &&& r == Err::<(Option<InterestAccrued>, UsdgBorrowed), MiladyError>(e)
                &&& final(ctx).lending_pool == old(ctx).lending_pool
                &&& final(ctx).credit_account == (CreditAccount {
                    collaterals: final(ctx).credit_account.collaterals,
                    ..old(ctx).credit_account
                })
            },
        },
{
    check_owner(&ctx.credit_account.owner, &ctx.borrower)?;
    check_pool_accounts(&ctx.lending_pool, &ctx.protocol_config_key, &ctx.usdg_mint, &ctx.liquidity_vault)?;
    if ctx.protocol_config.paused {
        return Err(MiladyError::ProtocolPaused);
    }
    if !(amount > 0) {
        return Err(MiladyError::InvalidAmount);
    }
    if ctx.usdg_mint_decimals != 6 {
        return Err(MiladyError::InvalidUsdgDecimals);
    }
    if !ctx.lending_pool.borrow_enabled {
        return Err(MiladyError::BorrowingDisabled);
    }
    let now = clock.unix_timestamp;
    let mut pool = ctx.lending_pool;
    let accrual = accrue_pool_interest(&mut pool, ctx.lending_pool_key, now)?;
    let accrued_event = interest_accrued_event(&pool, &accrual);
    let mut account = ctx.credit_account.duplicate();
    let accrued = sync_borrower_debt(&mut account, &pool, now)?;
    let available = pool_available_liquidity(&pool)?;
    if !(available >= amount) {
        return Err(MiladyError::InsufficientLiquidity);
    }
    if !(ctx.liquidity_vault_amount >= amount) {
        return Err(MiladyError::InsufficientLiquidity);
    }
    let new_total_borrowed = match pool.total_borrowed_usdg.checked_add(amount) {
        Some(v) => v,
        None => return Err(MiladyError::MathOverflow),
    };
    if pool.borrow_cap_usdg > 0 {
        if !(new_total_borrowed <= pool.borrow_cap_usdg) {
            return Err(MiladyError::BorrowCapExceeded);
        }
    }
    let snapshot = compute_portfolio_risk(&account, ctx.remaining_accounts.as_slice(), clock)?;
    let new_debt = match account.debt_usdg.checked_add(amount) {
        Some(v) => v,
        None => return Err(MiladyError::MathOverflow),
    };
    if !(new_debt <= snapshot.borrow_limit_usd_micro) {
        return Err(MiladyError::BorrowLimitExceeded);
    }
    let new_health = health_factor_bps_for_debt(snapshot.liquidation_capacity_usd_micro, new_debt)?;
    if !(new_health > 10_000u64) {
        return Err(MiladyError::BorrowWouldBeLiquidatable);
    }
    let index = pool.borrow_index_e18;
    pool.total_borrowed_usdg = new_total_borrowed;
    refresh_rate_cache(&mut pool)?;
    ctx.credit_account.debt_usdg = new_debt;
    ctx.credit_account.borrow_index_snapshot_e18 = index;
    ctx.credit_account.last_borrow_ts = now;
    ctx.credit_account.last_collateral_value_usd_micro = snapshot.collateral_value_usd_micro;
    ctx.credit_account.last_borrow_limit_usd_micro = snapshot.borrow_limit_usd_micro;
    ctx.credit_account.last_liquidation_capacity_usd_micro = snapshot.liquidation_capacity_usd_micro;
    ctx.credit_account.last_health_factor_bps = new_health;
    ctx.credit_account.last_valuation_ts = now;
    ctx.lending_pool = pool;
    Ok(
        (
            accrued_event,
            UsdgBorrowed {
                borrower: ctx.borrower,
                lending_pool: ctx.lending_pool_key,
                amount,
                accrued_interest_usdg: accrued,
                new_debt_usdg: new_debt,
                total_borrowed_usdg: new_total_borrowed,
                borrow_limit_usd_micro: snapshot.borrow_limit_usd_micro,
                health_factor_bps: new_health,
                borrow_apr_bps: pool.last_borrow_apr_bps,
            },
        ),
    )
}

// ------------------------------------------------------------------------------------
// Interest synchronization
// ------------------------------------------------------------------------------------

/// Pool, accrual and synchronized debt of `sync_borrower_interest` at `now`, or why it
/// is refused.
pub open spec fn spec_sync_borrower_interest(ctx: SyncBorrowerInterest, now: i64) -> Result<
    (LendingPool, InterestAccrual, u64),
    MiladyError,
> {
    if ctx.credit_account.owner@ != ctx.owner@ {
        Err(MiladyError::Unauthorized)
    } else if ctx.lending_pool.protocol@ != ctx.protocol_config_key@ {
        Err(MiladyError::InvalidProtocol)
    } else {
        match spec_accrue_pool_interest(ctx.lending_pool, ctx.lending_pool_key, now) {
            Err(e) => Err(e),
            Ok((p1, a)) => match spec_grow_by_index(
                ctx.credit_account.debt_usdg,
                ctx.credit_account.borrow_index_snapshot_e18,
                p1.borrow_index_e18,
            ) {
                Err(e) => Err(e),
                Ok(d1) => Ok((p1, a, d1)),
            },
        }
    }
}

/// Accrues pool interest and brings the borrower's debt and cached health factor up to
/// date.
pub fn sync_borrower_interest(ctx: &mut SyncBorrowerInterest, clock: &Clock) -> (r: Result<
    (Option<InterestAccrued>, BorrowerInterestSynced),
    MiladyError,
>)
    requires
        kink_nonzero(old(ctx).lending_pool),
    ensures
        final(ctx).credit_account.collaterals@ == old(ctx).credit_account.collaterals@,
        *final(ctx) == (SyncBorrowerInterest {
            credit_account: final(ctx).credit_account,
            lending_pool: final(ctx).lending_pool,
            ..*old(ctx)
        }),
        match spec_sync_borrower_interest(*old(ctx), clock.unix_timestamp) {
            Ok((p, a, debt)) => {
                let health = spec_health_factor_bps(old(ctx).credit_account.last_liquidation_capacity_usd_micro, debt);
                &&& final(ctx).lending_pool == p
                &&& final(ctx).credit_account == (CreditAccount {
                    debt_usdg: debt,
                    borrow_index_snapshot_e18: p.borrow_index_e18,
                    last_borrow_ts: clock.unix_timestamp,
                    last_health_factor_bps: health,
                    collaterals: final(ctx).credit_account.collaterals,
                    ..old(ctx).credit_account
                })
                &&& r == Ok::<(Option<InterestAccrued>, BorrowerInterestSynced), MiladyError>(
                    (
                        spec_interest_accrued_event(p, a),
                        BorrowerInterestSynced {
                            owner: old(ctx).owner,
                            credit_account: old(ctx).credit_account_key,
                            accrued_interest_usdg: (debt - old(ctx).credit_account.debt_usdg) as u64,
                            debt_usdg: debt,
                            borrow_index_e18: p.borrow_index_e18,
                            health_factor_bps: health,
                        },
                    ),
                )
            },
            Err(e) => {
                &&& r == Err::<(Option<InterestAccrued>, BorrowerInterestSynced), MiladyError>(e)
                &&& final(ctx).lending_pool == old(ctx).lending_pool
                &&& final(ctx).credit_account == (CreditAccount {
                    collaterals: final(ctx).credit_account.collaterals,
                    ..old(ctx).credit_account
                })
            },
        },
{
    check_owner(&ctx.credit_account.owner, &ctx.owner)?;
    check_pool_protocol(&ctx.lending_pool, &ctx.protocol_config_key)?;
    let now = clock.unix_timestamp;
    let mut pool = ctx.lending_pool;
    let accrual = accrue_pool_interest(&mut pool, ctx.lending_pool_key, now)?;
    let accrued_event = interest_accrued_event(&pool, &accrual);
    let accrued = sync_borrower_debt(&mut ctx.credit_account, &pool, now)?;
    let health = health_factor_bps_for_debt(
        ctx.credit_account.last_liquidation_capacity_usd_micro,
        ctx.credit_account.debt_usdg,
    )?;
    ctx.credit_account.last_health_factor_bps = health;
    ctx.lending_pool = pool;
    Ok(
        (
            accrued_event,
            BorrowerInterestSynced {
                owner: ctx.owner,
                credit_account: ctx.credit_account_key,
                accrued_interest_usdg: accrued,
                debt_usdg: ctx.credit_account.debt_usdg,
                borrow_index_e18: pool.borrow_index_e18,
                health_factor_bps: health,
            },
        ),
    )
}

/// Checks that a supplier position belongs to the signer and to the pool.
fn check_position(position: &SupplierPosition, supplier: &Pubkey, pool_key: &Pubkey) -> (r: Result<
    (),
    MiladyError,
>)
    ensures
        r == (if position.owner@ != supplier@ {
            Err(MiladyError::Unauthorized)
        } else if position.lending_pool@ != pool_key@ {
            Err(MiladyError::InvalidLendingPool)
        } else {
            Ok::<(), MiladyError>(())
        }),
{
    check_owner(&position.owner, supplier)?;
    if !position.lending_pool.key_eq(pool_key) {
        return Err(MiladyError::InvalidLendingPool);
    }
    Ok(())
}

/// Pool, accrual and synchronized balance of a supplier position at `now`, after the
/// pool and position checks, or why they fail.
pub open spec fn spec_sync_supplier(
    pool: LendingPool,
    pool_key: Pubkey,
    protocol_key: Pubkey,
    position: SupplierPosition,
    supplier: Pubkey,
    now: i64,
) -> Result<(LendingPool, InterestAccrual, u64), MiladyError> {
    if pool.protocol@ != protocol_key@ {
        Err(MiladyError::InvalidProtocol)
    } else if position.owner@ != supplier@ {
        Err(MiladyError::Unauthorized)
    } else if position.lending_pool@ != pool_key@ {
        Err(MiladyError::InvalidLendingPool)
    } else {
        match spec_accrue_pool_interest(pool, pool_key, now) {
            Err(e) => Err(e),
            Ok((p1, a)) => match spec_grow_by_index(
                position.principal_usdg,
                position.supply_index_snapshot_e18,
                p1.supply_index_e18,
            ) {
                Err(e) => Err(e),
                Ok(b1) => Ok((p1, a, b1)),
            },
        }
    }
}

/// Accrues pool interest and brings the supplier's balance up to date.
pub fn sync_supplier_interest(ctx: &mut SyncSupplierInterest, clock: &Clock) -> (r: Result<
    (Option<InterestAccrued>, SupplierInterestSynced),
    MiladyError,
>)
    requires
        kink_nonzero(old(ctx).lending_pool),
    ensures
        match spec_sync_supplier(
            old(ctx).lending_pool,
            old(ctx).lending_pool_key,
            old(ctx).protocol_config_key,
            old(ctx).supplier_position,
            old(ctx).supplier,
            clock.unix_timestamp,
        ) {
            Ok((p, a, balance)) => {
                &&& *final(ctx) == (SyncSupplierInterest {
                    lending_pool: p,
                    supplier_position: SupplierPosition {
                        principal_usdg: balance,
                        supply_index_snapshot_e18: p.supply_index_e18,
                        last_updated_ts: clock.unix_timestamp,
                        ..old(ctx).supplier_position
                    },
                    ..*old(ctx)
                })
                &&& r == Ok::<(Option<InterestAccrued>, SupplierInterestSynced), MiladyError>(
                    (
                        spec_interest_accrued_event(p, a),
                        SupplierInterestSynced {
                            supplier: old(ctx).supplier,
                            supplier_position: old(ctx).supplier_position_key,
                            accrued_interest_usdg: (balance - old(ctx).supplier_position.principal_usdg) as u64,
                            balance_usdg: balance,
                            supply_index_e18: p.supply_index_e18,
                        },
                    ),
                )
            },
            Err(e) => r == Err::<(Option<InterestAccrued>, SupplierInterestSynced), MiladyError>(e)
                && *final(ctx) == *old(ctx),
        },
{
    check_pool_protocol(&ctx.lending_pool, &ctx.protocol_config_key)?;
    check_position(&ctx.supplier_position, &ctx.supplier, &ctx.lending_pool_key)?;
    let now = clock.unix_timestamp;
    let mut pool = ctx.lending_pool;
    let accrual = accrue_pool_interest(&mut pool, ctx.lending_pool_key, now)?;
    let accrued_event = interest_accrued_event(&pool, &accrual);
    let mut position = ctx.supplier_position;
    let accrued = sync_supplier_balance(&mut position, &pool, now)?;
    ctx.lending_pool = pool;
    ctx.supplier_position = position;
    Ok(
        (
            accrued_event,
            SupplierInterestSynced {
                supplier: ctx.supplier,
                supplier_position: ctx.supplier_position_key,
                accrued_interest_usdg: accrued,
                balance_usdg: position.principal_usdg,
                supply_index_e18: pool.supply_index_e18,
            },
        ),
    )
}

// ------------------------------------------------------------------------------------
// Repayment instructions
// ------------------------------------------------------------------------------------

/// What a successful repayment leaves behind.
pub struct RepayPlan {
    /// The pool after accrual, settlement and the rate refresh.
    pub pool: LendingPool,
    /// The pool right after accrual.
    pub accrued_pool: LendingPool,
    pub accrual: InterestAccrual,
    /// The borrower's debt once synchronized, before repayment.
    pub synced_debt: u64,
    /// The USDG amount settled.
    pub amount: u64,
    pub remaining_debt: u64,
    pub health: u64,
    pub available_liquidity: u64,
}

/// The outcome of repaying `requested` (`None` for MAX) of a credit account owned by
/// `expected_owner` at `now`, or why the repayment is refused. Repayment stays open
/// while the protocol is paused.
pub open spec fn spec_repay(
    account: CreditAccount,
    pool: LendingPool,
    pool_key: Pubkey,
    protocol_key: Pubkey,
    usdg_mint: Pubkey,
    liquidity_vault: Pubkey,
    usdg_mint_decimals: u8,
    payer_usdg_amount: u64,
    expected_owner: Pubkey,
    requested: Option<u64>,
    now: i64,
) -> Result<RepayPlan, MiladyError> {
    if account.owner@ != expected_owner@ {
        Err(MiladyError::Unauthorized)
    } else {
        match spec_check_pool_accounts(pool, protocol_key, usdg_mint, liquidity_vault) {
            Err(e) => Err(e),
            Ok(_) => if usdg_mint_decimals != 6 {
                Err(MiladyError::InvalidUsdgDecimals)
            } else {
                match spec_accrue_pool_interest(pool, pool_key, now) {
                    Err(e) => Err(e),
                    Ok((p1, a)) => match spec_grow_by_index(
                        account.debt_usdg,
                        account.borrow_index_snapshot_e18,
                        p1.borrow_index_e18,
                    ) {
                        Err(e) => Err(e),
                        Ok(d1) => match spec_resolve_repayment_amount(d1, requested) {
                            Err(e) => Err(e),
                            Ok(amount) => if payer_usdg_amount < amount {
                                Err(MiladyError::InsufficientRepaymentFunds)
                            } else {
                                match spec_apply_repayment(CreditAccount { debt_usdg: d1, ..account }, p1, amount) {
                                    Err(e) => Err(e),
                                    Ok((debt, health, p2)) => match spec_pool_available_liquidity(p2) {
                                        Err(e) => Err(e),
                                        Ok(avail) => Ok(
                                            RepayPlan {
                                                pool: p2,
                                                accrued_pool: p1,
                                                accrual: a,
                                                synced_debt: d1,
                                                amount,
                                                remaining_debt: debt,
                                                health,
                                                available_liquidity: avail,
                                            },
                                        ),
                                    },
                                }
                            },
                        },
                    },
                }
            },
        }
    }
}

/// The credit account after a successful repayment.
pub open spec fn repaid_account(old_account: CreditAccount, new_account: CreditAccount, plan: RepayPlan, now: i64) -> bool {
    &&& new_account.collaterals@ == old_account.collaterals@
    &&& new_account == (CreditAccount {
        debt_usdg: plan.remaining_debt,
        borrow_index_snapshot_e18: plan.accrued_pool.borrow_index_e18,
        last_borrow_ts: now,
        last_health_factor_bps: plan.health,
        collaterals: new_account.collaterals,
        ..old_account
    })
}

/// The event of a successful repayment of a debt that stood at `old_debt` before
/// synchronization.
pub open spec fn spec_repaid_event(
    payer: Pubkey,
    borrower: Pubkey,
    pool_key: Pubkey,
    plan: RepayPlan,
    old_debt: u64,
    on_behalf: bool,
) -> UsdgRepaid {
    UsdgRepaid {
        payer,
        borrower,
        lending_pool: pool_key,
        amount: plan.amount,
        accrued_interest_usdg: (plan.synced_debt - old_debt) as u64,
        remaining_debt_usdg: plan.remaining_debt,
        total_borrowed_usdg: plan.pool.total_borrowed_usdg,
        available_liquidity_usdg: plan.available_liquidity,
        health_factor_bps: plan.health,
        on_behalf,
    }
}

/// The repayment steps shared by the borrower and third-party paths: accrue, sync the
/// debt, resolve the amount, check the payer's balance, settle, report liquidity.
fn repay_core(
    account: &mut CreditAccount,
    pool: &mut LendingPool,
    pool_key: Pubkey,
    protocol_key: Pubkey,
    usdg_mint: Pubkey,
    liquidity_vault: Pubkey,
    usdg_mint_decimals: u8,
    payer_usdg_amount: u64,
    expected_owner: Pubkey,
    requested: Option<u64>,
    clock: &Clock,
    payer: Pubkey,
    on_behalf: bool,
) -> (r: Result<(Option<InterestAccrued>, UsdgRepaid), MiladyError>)
    requires
        kink_nonzero(*old(pool)),
    ensures
        match spec_repay(
            *old(account),
            *old(pool),
            pool_key,
            protocol_key,
            usdg_mint,
            liquidity_vault,
            usdg_mint_decimals,
            payer_usdg_amount,
            expected_owner,
            requested,
            clock.unix_timestamp,
        ) {
            Ok(plan) => {
                &&& r == Ok::<(Option<InterestAccrued>, UsdgRepaid), MiladyError>(
                    (
                        spec_interest_accrued_event(plan.accrued_pool, plan.accrual),
                        spec_repaid_event(payer, expected_owner, pool_key, plan, old(account).debt_usdg, on_behalf),
                    ),
                )
                &&& *final(pool) == plan.pool
                &&& repaid_account(*old(account), *final(account), plan, clock.unix_timestamp)
            },
            Err(e) => {
                &&& r == Err::<(Option<InterestAccrued>, UsdgRepaid), MiladyError>(e)
                &&& *final(pool) == *old(pool)
                &&& final(account).collaterals@ == old(account).collaterals@
                &&& *final(account) == (CreditAccount { collaterals: final(account).collaterals, ..*old(account) })
            },
        },
{
    check_owner(&account.owner, &expected_owner)?;
    check_pool_accounts(pool, &protocol_key, &usdg_mint, &liquidity_vault)?;
    if usdg_mint_decimals != 6 {
        return Err(MiladyError::InvalidUsdgDecimals);
    }
    let now = clock.unix_timestamp;
    let mut accrued_pool = *pool;
    let accrual = accrue_pool_interest(&mut accrued_pool, pool_key, now)?;
    let accrued_event = interest_accrued_event(&accrued_pool, &accrual);
    let mut synced = account.duplicate();
    let accrued = sync_borrower_debt(&mut synced, &accrued_pool, now)?;
    let amount = resolve_repayment_amount(synced.debt_usdg, requested)?;
    if !(payer_usdg_amount >= amount) {
        return Err(MiladyError::InsufficientRepaymentFunds);
    }
    let mut settled_pool = accrued_pool;
    let (remaining_debt, health) = apply_repayment_accounting(&mut synced, &mut settled_pool, amount, now)?;
    let available = pool_available_liquidity(&settled_pool)?;
    account.debt_usdg = synced.debt_usdg;
    account.borrow_index_snapshot_e18 = synced.borrow_index_snapshot_e18;
    account.last_borrow_ts = synced.last_borrow_ts;
    account.last_health_factor_bps = synced.last_health_factor_bps;
    *pool = settled_pool;
    Ok(
        (
            accrued_event,
            UsdgRepaid {
                payer,
                borrower: expected_owner,
                lending_pool: pool_key,
                amount,
                accrued_interest_usdg: accrued,
                remaining_debt_usdg: remaining_debt,
                total_borrowed_usdg: settled_pool.total_borrowed_usdg,
                available_liquidity_usdg: available,
                health_factor_bps: health,
                on_behalf,
            },
        ),
    )
}

/// Repays `requested` (`None` for MAX) of the signer's own debt.
pub fn repay_owned(ctx: &mut RepayUsdg, requested: Option<u64>, clock: &Clock) -> (r: Result<
    (Option<InterestAccrued>, UsdgRepaid),
    MiladyError,
>)
    requires
        kink_nonzero(old(ctx).lending_pool),
    ensures
        *final(ctx) == (RepayUsdg {
            credit_account: final(ctx).credit_account,
            lending_pool: final(ctx).lending_pool,
            ..*old(ctx)
        }),
        match spec_repay(
            old(ctx).credit_account,
            old(ctx).lending_pool,
            old(ctx).lending_pool_key,
            old(ctx).protocol_config_key,
            old(ctx).usdg_mint,
            old(ctx).liquidity_vault,
            old(ctx).usdg_mint_decimals,
            old(ctx).payer_usdg_amount,
            old(ctx).payer,
            requested,
            clock.unix_timestamp,
        ) {
            Ok(plan) => {
                &&& r == Ok::<(Option<InterestAccrued>, UsdgRepaid), MiladyError>(
                    (
                        spec_interest_accrued_event(plan.accrued_pool, plan.accrual),
                        spec_repaid_event(old(ctx).payer, old(ctx).payer, old(ctx).lending_pool_key, plan, old(ctx).credit_account.debt_usdg, false),
                    ),
                )
                &&& final(ctx).lending_pool == plan.pool
                &&& repaid_account(old(ctx).credit_account, final(ctx).credit_account, plan, clock.unix_timestamp)
            },
            Err(e) => {
                &&& r == Err::<(Option<InterestAccrued>, UsdgRepaid), MiladyError>(e)
                &&& final(ctx).lending_pool == old(ctx).lending_pool
                &&& final(ctx).credit_account.collaterals@ == old(ctx).credit_account.collaterals@
                &&& final(ctx).credit_account == (CreditAccount {
                    collaterals: final(ctx).credit_account.collaterals,
                    ..old(ctx).credit_account
                })
            },
        },
{
    let payer = ctx.payer;
    repay_core(
        &mut ctx.credit_account,
        &mut ctx.lending_pool,
        ctx.lending_pool_key,
        ctx.protocol_config_key,
        ctx.usdg_mint,
        ctx.liquidity_vault,
        ctx.usdg_mint_decimals,
        ctx.payer_usdg_amount,
        payer,
        requested,
        clock,
        payer,
        false,
    )
}

/// Repays `requested` (`None` for MAX) of another borrower's debt; the payer receives no
/// collateral.
pub fn repay_on_behalf(ctx: &mut RepayUsdgOnBehalf, requested: Option<u64>, clock: &Clock) -> (r: Result<
    (Option<InterestAccrued>, UsdgRepaid),
    MiladyError,
>)
    requires
        kink_nonzero(old(ctx).lending_pool),
    ensures
        *final(ctx) == (RepayUsdgOnBehalf {
            credit_account: final(ctx).credit_account,
            lending_pool: final(ctx).lending_pool,
            ..*old(ctx)
        }),
        match spec_repay(
            old(ctx).credit_account,
            old(ctx).lending_pool,
            old(ctx).lending_pool_key,
            old(ctx).protocol_config_key,
            old(ctx).usdg_mint,
            old(ctx).liquidity_vault,
            old(ctx).usdg_mint_decimals,
            old(ctx).payer_usdg_amount,
            old(ctx).borrower,
            requested,
            clock.unix_timestamp,
        ) {
            Ok(plan) => {
                &&& r == Ok::<(Option<InterestAccrued>, UsdgRepaid), MiladyError>(
                    (
                        spec_interest_accrued_event(plan.accrued_pool, plan.accrual),
                        spec_repaid_event(old(ctx).payer, old(ctx).borrower, old(ctx).lending_pool_key, plan, old(ctx).credit_account.debt_usdg, true),
                    ),
                )
                &&& final(ctx).lending_pool == plan.pool
                &&& repaid_account(old(ctx).credit_account, final(ctx).credit_account, plan, clock.unix_timestamp)
            },
            Err(e) => {
                &&& r == Err::<(Option<InterestAccrued>, UsdgRepaid), MiladyError>(e)
                &&& final(ctx).lending_pool == old(ctx).lending_pool
                &&& final(ctx).credit_account.collaterals@ == old(ctx).credit_account.collaterals@
                &&& final(ctx).credit_account == (CreditAccount {
                    collaterals: final(ctx).credit_account.collaterals,
                    ..old(ctx).credit_account
                })
            },
        },
{
    repay_core(
        &mut ctx.credit_account,
        &mut ctx.lending_pool,
        ctx.lending_pool_key,
        ctx.protocol_config_key,
        ctx.usdg_mint,
        ctx.liquidity_vault,
        ctx.usdg_mint_decimals,
        ctx.payer_usdg_amount,
        ctx.borrower,
        requested,
        clock,
        ctx.payer,
        true,
    )
}

/// Repays `amount` of the signer's own debt.
pub fn repay_usdg(ctx: &mut RepayUsdg, amount: u64, clock: &Clock) -> (r: Result<
    (Option<InterestAccrued>, UsdgRepaid),
    MiladyError,
>)
    requires
        kink_nonzero(old(ctx).lending_pool),
    ensures
        *final(ctx) == (RepayUsdg {
            credit_account: final(ctx).credit_account,
            lending_pool: final(ctx).lending_pool,
            ..*old(ctx)
        }),
        match spec_repay(
            old(ctx).credit_account,
            old(ctx).lending_pool,
            old(ctx).lending_pool_key,
            old(ctx).protocol_config_key,
            old(ctx).usdg_mint,
            old(ctx).liquidity_vault,
            old(ctx).usdg_mint_decimals,
            old(ctx).payer_usdg_amount,
            old(ctx).payer,
            Some(amount),
            clock.unix_timestamp,
        ) {
            Ok(plan) => {
                &&& r == Ok::<(Option<InterestAccrued>, UsdgRepaid), MiladyError>(
                    (
                        spec_interest_accrued_event(plan.accrued_pool, plan.accrual),
                        spec_repaid_event(old(ctx).payer, old(ctx).payer, old(ctx).lending_pool_key, plan, old(ctx).credit_account.debt_usdg, false),
                    ),
                )
                &&& final(ctx).lending_pool == plan.pool
                &&& repaid_account(old(ctx).credit_account, final(ctx).credit_account, plan, clock.unix_timestamp)
            },
            Err(e) => {
                &&& r == Err::<(Option<InterestAccrued>, UsdgRepaid), MiladyError>(e)
                &&& final(ctx).lending_pool == old(ctx).lending_pool
                &&& final(ctx).credit_account.collaterals@ == old(ctx).credit_account.collaterals@
                &&& final(ctx).credit_account == (CreditAccount {
                    collaterals: final(ctx).credit_account.collaterals,
                    ..old(ctx).credit_account
                })
            },
        },
{
    repay_owned(ctx, Some(amount), clock)
}

/// Repays the signer's whole synchronized debt.
pub fn repay_usdg_max(ctx: &mut RepayUsdg, clock: &Clock) -> (r: Result<
    (Option<InterestAccrued>, UsdgRepaid),
    MiladyError,
>)
    requires
        kink_nonzero(old(ctx).lending_pool),
    ensures
        *final(ctx) == (RepayUsdg {
            credit_account: final(ctx).credit_account,
            lending_pool: final(ctx).lending_pool,
            ..*old(ctx)
        }),
        match spec_repay(
            old(ctx).credit_account,
            old(ctx).lending_pool,
            old(ctx).lending_pool_key,
            old(ctx).protocol_config_key,
            old(ctx).usdg_mint,
            old(ctx).liquidity_vault,
            old(ctx).usdg_mint_decimals,
            old(ctx).payer_usdg_amount,
            old(ctx).payer,
            None,
            clock.unix_timestamp,
        ) {
            Ok(plan) => {
                &&& r == Ok::<(Option<InterestAccrued>, UsdgRepaid), MiladyError>(
                    (
                        spec_interest_accrued_event(plan.accrued_pool, plan.accrual),
                        spec_repaid_event(old(ctx).payer, old(ctx).payer, old(ctx).lending_pool_key, plan, old(ctx).credit_account.debt_usdg, false),
                    ),
                )
                &&& final(ctx).lending_pool == plan.pool
                &&& repaid_account(old(ctx).credit_account, final(ctx).credit_account, plan, clock.unix_timestamp)
            },
            Err(e) => {
                &&& r == Err::<(Option<InterestAccrued>, UsdgRepaid), MiladyError>(e)
                &&& final(ctx).lending_pool == old(ctx).lending_pool
                &&& final(ctx).credit_account.collaterals@ == old(ctx).credit_account.collaterals@
                &&& final(ctx).credit_account == (CreditAccount {
                    collaterals: final(ctx).credit_account.collaterals,
                    ..old(ctx).credit_account
                })
            },
        },
{
    repay_owned(ctx, None, clock)
}

/// Repays `amount` of another borrower's debt.
pub fn repay_usdg_on_behalf(ctx: &mut RepayUsdgOnBehalf, amount: u64, clock: &Clock) -> (r: Result<
    (Option<InterestAccrued>, UsdgRepaid),
    MiladyError,
>)
    requires
        kink_nonzero(old(ctx).lending_pool),
    ensures
        *final(ctx) == (RepayUsdgOnBehalf {
            credit_account: final(ctx).credit_account,
            lending_pool: final(ctx).lending_pool,
            ..*old(ctx)
        }),
        match spec_repay(
            old(ctx).credit_account,
            old(ctx).lending_pool,
            old(ctx).lending_pool_key,
            old(ctx).protocol_config_key,
            old(ctx).usdg_mint,
            old(ctx).liquidity_vault,
            old(ctx).usdg_mint_decimals,
            old(ctx).payer_usdg_amount,
            old(ctx).borrower,
            Some(amount),
            clock.unix_timestamp,
        ) {
            Ok(plan) => {
                &&& r == Ok::<(Option<InterestAccrued>, UsdgRepaid), MiladyError>(
                    (
                        spec_interest_accrued_event(plan.accrued_pool, plan.accrual),
                        spec_repaid_event(old(ctx).payer, old(ctx).borrower, old(ctx).lending_pool_key, plan, old(ctx).credit_account.debt_usdg, true),
                    ),
                )
                &&& final(ctx).lending_pool == plan.pool
                &&& repaid_account(old(ctx).credit_account, final(ctx).credit_account, plan, clock.unix_timestamp)
            },
            Err(e) => {
                &&& r == Err::<(Option<InterestAccrued>, UsdgRepaid), MiladyError>(e)
                &&& final(ctx).lending_pool == old(ctx).lending_pool
                &&& final(ctx).credit_account.collaterals@ == old(ctx).credit_account.collaterals@
                &&& final(ctx).credit_account == (CreditAccount {
                    collaterals: final(ctx).credit_account.collaterals,
                    ..old(ctx).credit_account
                })
            },
        },
{
    repay_on_behalf(ctx, Some(amount), clock)
}

/// Repays another borrower's whole synchronized debt.
pub fn repay_usdg_on_behalf_max(ctx: &mut RepayUsdgOnBehalf, clock: &Clock) -> (r: Result<
    (Option<InterestAccrued>, UsdgRepaid),
    MiladyError,
>)
    requires
        kink_nonzero(old(ctx).lending_pool),
    ensures
        *final(ctx) == (RepayUsdgOnBehalf {
            credit_account: final(ctx).credit_account,
            lending_pool: final(ctx).lending_pool,
            ..*old(ctx)
        }),
        match spec_repay(
            old(ctx).credit_account,
            old(ctx).lending_pool,
            old(ctx).lending_pool_key,
            old(ctx).protocol_config_key,
            old(ctx).usdg_mint,
            old(ctx).liquidity_vault,
            old(ctx).usdg_mint_decimals,
            old(ctx).payer_usdg_amount,
            old(ctx).borrower,
            None,
            clock.unix_timestamp,
        ) {
            Ok(plan) => {
                &&& r == Ok::<(Option<InterestAccrued>, UsdgRepaid), MiladyError>(
                    (
                        spec_interest_accrued_event(plan.accrued_pool, plan.accrual),
                        spec_repaid_event(old(ctx).payer, old(ctx).borrower, old(ctx).lending_pool_key, plan, old(ctx).credit_account.debt_usdg, true),
                    ),
                )
                &&& final(ctx).lending_pool == plan.pool
                &&& repaid_account(old(ctx).credit_account, final(ctx).credit_account, plan, clock.unix_timestamp)
            },
            Err(e) => {
                &&& r == Err::<(Option<InterestAccrued>, UsdgRepaid), MiladyError>(e)
                &&& final(ctx).lending_pool == old(ctx).lending_pool
                &&& final(ctx).credit_account.collaterals@ == old(ctx).credit_account.collaterals@
                &&& final(ctx).credit_account == (CreditAccount {
                    collaterals: final(ctx).credit_account.collaterals,
                    ..old(ctx).credit_account
                })
            },
        },
{
    repay_on_behalf(ctx, None, clock)
}

// ------------------------------------------------------------------------------------
// Closing positions
// ------------------------------------------------------------------------------------

/// Closes a credit account that has neither debt nor collateral; its rent returns to
/// the owner.
pub fn close_credit_account(ctx: &CloseCreditAccount) -> (r: Result<CreditAccountClosed, MiladyError>)
    ensures
        r == (if ctx.credit_account.owner@ != ctx.owner@ {
            Err(MiladyError::Unauthorized)
        } else if ctx.credit_account.debt_usdg != 0 {
            Err(MiladyError::CreditAccountHasDebt)
        } else if ctx.credit_account.collaterals@.len() != 0 {
            Err(MiladyError::CreditAccountHasCollateral)
        } else {
            Ok::<CreditAccountClosed, MiladyError>(
                CreditAccountClosed { owner: ctx.owner, credit_account: ctx.credit_account_key },
            )
        }),
{
    check_owner(&ctx.credit_account.owner, &ctx.owner)?;
    if ctx.credit_account.debt_usdg != 0 {
        return Err(MiladyError::CreditAccountHasDebt);
    }
    if !(ctx.credit_account.collaterals.len() == 0) {
        return Err(MiladyError::CreditAccountHasCollateral);
    }
    Ok(CreditAccountClosed { owner: ctx.owner, credit_account: ctx.credit_account_key })
}

/// Accrues interest, synchronizes the position and closes it if nothing remains owed to
/// the supplier; its rent returns to the supplier.
pub fn close_supplier_position(ctx: &mut CloseSupplierPosition, clock: &Clock) -> (r: Result<
    (Option<InterestAccrued>, SupplierPositionClosed),
    MiladyError,
>)
    requires
        kink_nonzero(old(ctx).lending_pool),
    ensures
        match spec_sync_supplier(
            old(ctx).lending_pool,
            old(ctx).lending_pool_key,
            old(ctx).protocol_config_key,
            old(ctx).supplier_position,
            old(ctx).supplier,
            clock.unix_timestamp,
        ) {
            Ok((p, a, balance)) => if balance != 0 {
                r == Err::<(Option<InterestAccrued>, SupplierPositionClosed), MiladyError>(MiladyError::SupplierPositionNotEmpty)
                    && *final(ctx) == *old(ctx)
            } else {
                &&& *final(ctx) == (CloseSupplierPosition {
                    lending_pool: p,
                    supplier_position: SupplierPosition {
                        principal_usdg: 0,
                        supply_index_snapshot_e18: p.supply_index_e18,
                        last_updated_ts: clock.unix_timestamp,
                        ..old(ctx).supplier_position
                    },
                    ..*old(ctx)
                })
                &&& r == Ok::<(Option<InterestAccrued>, SupplierPositionClosed), MiladyError>(
                    (
                        spec_interest_accrued_event(p, a),
                        SupplierPositionClosed {
                            supplier: old(ctx).supplier,
                            supplier_position: old(ctx).supplier_position_key,
                            lending_pool: old(ctx).lending_pool_key,
                        },
                    ),
                )
            },
            Err(e) => r == Err::<(Option<InterestAccrued>, SupplierPositionClosed), MiladyError>(e)
                && *final(ctx) == *old(ctx),
        },
{
    check_pool_protocol(&ctx.lending_pool, &ctx.protocol_config_key)?;
    check_position(&ctx.supplier_position, &ctx.supplier, &ctx.lending_pool_key)?;
    let now = clock.unix_timestamp;
    let mut pool = ctx.lending_pool;
    let accrual = accrue_pool_interest(&mut pool, ctx.lending_pool_key, now)?;
    let accrued_event = interest_accrued_event(&pool, &accrual);
    let mut position = ctx.supplier_position;
    sync_supplier_balance(&mut position, &pool, now)?;
    if position.principal_usdg != 0 {
        return Err(MiladyError::SupplierPositionNotEmpty);
    }
    ctx.lending_pool = pool;
    ctx.supplier_position = position;
    Ok(
        (
            accrued_event,
            SupplierPositionClosed {
                supplier: ctx.supplier,
                supplier_position: ctx.supplier_position_key,
                lending_pool: ctx.lending_pool_key,
            },
        ),
    )
}

} // verus!
