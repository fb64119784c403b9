//! Credit accounts, collateral custody accounting and the persisted risk snapshot.
use vstd::prelude::*;
use crate::constants::{BPS_DENOMINATOR, INDEX_SCALE_E18};
use crate::errors::MiladyError;
use crate::state::{CreditAccount, CollateralBalance, MarketConfig};
use crate::events::{CreditAccountInitialized, CollateralDeposited, CollateralWithdrawn, HealthRefreshed};
use crate::accounts_collateral::{InitializeCreditAccount, DepositCollateral, WithdrawCollateral, RefreshHealth};
use crate::risk::{Clock, upsert_collateral, reduce_collateral, compute_portfolio_risk, spec_upsert_collateral, spec_reduce_collateral, spec_portfolio_risk, spec_compute_portfolio_risk};

verus! {

/// Opens an empty, debt-free credit account for the signer, at index 1.0 and with the
/// "no debt" health factor.
pub fn initialize_credit_account(ctx: &mut InitializeCreditAccount) -> (r: Result<
    CreditAccountInitialized,
    MiladyError,
>)
    ensures
        final(ctx).owner == old(ctx).owner,
        final(ctx).protocol_config == old(ctx).protocol_config,
        final(ctx).credit_account_key == old(ctx).credit_account_key,
        final(ctx).credit_account_bump == old(ctx).credit_account_bump,
        final(ctx).credit_account.owner == old(ctx).owner,
        final(ctx).credit_account.debt_usdg == 0,
        final(ctx).credit_account.borrow_index_snapshot_e18 == INDEX_SCALE_E18,
        final(ctx).credit_account.last_borrow_ts == 0,
        final(ctx).credit_account.collaterals@.len() == 0,
        final(ctx).credit_account.last_collateral_value_usd_micro == 0,
        final(ctx).credit_account.last_borrow_limit_usd_micro == 0,
        final(ctx).credit_account.last_liquidation_capacity_usd_micro == 0,
        final(ctx).credit_account.last_health_factor_bps == u64::MAX,
        final(ctx).credit_account.last_valuation_ts == 0,
        final(ctx).credit_account.bump == old(ctx).credit_account_bump,
        r == Ok::<CreditAccountInitialized, MiladyError>(
            CreditAccountInitialized {
                owner: old(ctx).owner,
                credit_account: old(ctx).credit_account_key,
            },
        ),
{
    ctx.credit_account.owner = ctx.owner;
    ctx.credit_account.debt_usdg = 0;
    ctx.credit_account.borrow_index_snapshot_e18 = INDEX_SCALE_E18;
    ctx.credit_account.last_borrow_ts = 0;
    ctx.credit_account.collaterals = Vec::new();
    ctx.credit_account.last_collateral_value_usd_micro = 0;
    ctx.credit_account.last_borrow_limit_usd_micro = 0;
    ctx.credit_account.last_liquidation_capacity_usd_micro = 0;
    ctx.credit_account.last_health_factor_bps = u64::MAX;
    ctx.credit_account.last_valuation_ts = 0;
    ctx.credit_account.bump = ctx.credit_account_bump;
    Ok(CreditAccountInitialized { owner: ctx.credit_account.owner, credit_account: ctx.credit_account_key })
}

/// The collateral list and market total after a deposit, or why it is refused.
pub open spec fn spec_deposit_collateral(ctx: DepositCollateral, amount: u64) -> Result<
    (Seq<CollateralBalance>, u64),
    MiladyError,
> {
    let market = ctx.market_config;
    let new_total = market.total_deposited + amount;
    if ctx.credit_account.owner@ != ctx.owner@ {
        Err(MiladyError::Unauthorized)
    } else if market.protocol@ != ctx.protocol_config_key@ {
        Err(MiladyError::InvalidProtocol)
    } else if market.mint@ != ctx.collateral_mint@ {
        Err(MiladyError::InvalidMint)
    } else if ctx.protocol_config.paused {
        Err(MiladyError::ProtocolPaused)
    } else if !market.enabled {
        Err(MiladyError::MarketDisabled)
    } else if amount == 0 {
        Err(MiladyError::InvalidAmount)
    } else if new_total > u64::MAX {
        Err(MiladyError::MathOverflow)
    } else if market.supply_cap > 0 && new_total > market.supply_cap {
        Err(MiladyError::SupplyCapExceeded)
    } else {
        match spec_upsert_collateral(ctx.credit_account.collaterals@, ctx.market_config_key, amount) {
            Err(e) => Err(e),
            Ok(cs) => Ok((cs, new_total as u64)),
        }
    }
}

/// Records `amount` of collateral deposited into the market's vault for the owner;
/// the event's `amount` is what moves from the owner's token account to the vault.
pub fn deposit_collateral(ctx: &mut DepositCollateral, amount: u64) -> (r: Result<
    CollateralDeposited,
    MiladyError,
>)
    ensures
        final(ctx).credit_account == (CreditAccount {
            collaterals: final(ctx).credit_account.collaterals,
            ..old(ctx).credit_account
        }),
        *final(ctx) == (DepositCollateral {
            credit_account: final(ctx).credit_account,
            market_config: final(ctx).market_config,
            ..*old(ctx)
        }),
        match spec_deposit_collateral(*old(ctx), amount) {
            Ok((cs, total)) => {
                &&& final(ctx).credit_account.collaterals@ == cs
                &&& final(ctx).market_config == (MarketConfig {
                    total_deposited: total,
                    ..old(ctx).market_config
                })
                &&& r == Ok::<CollateralDeposited, MiladyError>(
                    CollateralDeposited {
                        owner: old(ctx).owner,
                        market: old(ctx).market_config_key,
                        mint: old(ctx).collateral_mint,
                        amount,
                    },
                )
            },
            Err(e) => {
                &&& r == Err::<CollateralDeposited, MiladyError>(e)
                &&& final(ctx).credit_account.collaterals@ == old(ctx).credit_account.collaterals@
                &&& final(ctx).market_config == old(ctx).market_config
            },
        },
{
    if !ctx.credit_account.owner.key_eq(&ctx.owner) {
        return Err(MiladyError::Unauthorized);
    }
    if !ctx.market_config.protocol.key_eq(&ctx.protocol_config_key) {
        return Err(MiladyError::InvalidProtocol);
    }
    if !ctx.market_config.mint.key_eq(&ctx.collateral_mint) {
        return Err(MiladyError::InvalidMint);
    }
    if ctx.protocol_config.paused {
        return Err(MiladyError::ProtocolPaused);
    }
    if !ctx.market_config.enabled {
        return Err(MiladyError::MarketDisabled);
    }
    if !(amount > 0) {
        return Err(MiladyError::InvalidAmount);
    }
    let new_total = match ctx.market_config.total_deposited.checked_add(amount) {
        Some(v) => v,
        None => return Err(MiladyError::MathOverflow),
    };
    if ctx.market_config.supply_cap > 0 {
        if !(new_total <= ctx.market_config.supply_cap) {
            return Err(MiladyError::SupplyCapExceeded);
        }
    }
    let market_key = ctx.market_config_key;
    upsert_collateral(&mut ctx.credit_account, market_key, amount)?;
    ctx.market_config.total_deposited = new_total;
    Ok(
        CollateralDeposited {
            owner: ctx.owner,
            market: market_key,
            mint: ctx.collateral_mint,
            amount,
        },
    )
}

/// The collateral list and market total after a withdrawal at `now`, or why it is
/// refused. With debt outstanding, the remaining collateral must still cover the debt
/// within the borrow limit and keep the health factor above 100%.
pub open spec fn spec_withdraw_collateral(ctx: WithdrawCollateral, amount: u64, now: i64) -> Result<
    (Seq<CollateralBalance>, u64),
    MiladyError,
> {
    let market = ctx.market_config;
    let debt = ctx.credit_account.debt_usdg;
    if ctx.credit_account.owner@ != ctx.owner@ {
        Err(MiladyError::Unauthorized)
    } else if ctx.lending_pool.protocol@ != ctx.protocol_config_key@ {
        Err(MiladyError::InvalidProtocol)
    } else if market.protocol@ != ctx.protocol_config_key@ {
        Err(MiladyError::InvalidProtocol)
    } else if market.mint@ != ctx.collateral_mint@ {
        Err(MiladyError::InvalidMint)
    } else if ctx.protocol_config.paused {
        Err(MiladyError::ProtocolPaused)
    } else if amount == 0 {
        Err(MiladyError::InvalidAmount)
    } else {
        match spec_reduce_collateral(ctx.credit_account.collaterals@, ctx.market_config_key, amount) {
            Err(e) => Err(e),
            Ok(cs) => if market.total_deposited < amount {
                Err(MiladyError::MathOverflow)
            } else if debt > 0 {
                match spec_portfolio_risk(cs, debt, ctx.remaining_accounts@, true, now) {
                    Err(e) => Err(e),
                    Ok(snap) => if debt > snap.borrow_limit_usd_micro {
                        Err(MiladyError::UnsafeWithdrawal)
                    } else if snap.health_factor_bps <= BPS_DENOMINATOR {
                        Err(MiladyError::UnsafeWithdrawal)
                    } else {
                        Ok((cs, (market.total_deposited - amount) as u64))
                    },
                }
            } else {
                Ok((cs, (market.total_deposited - amount) as u64))
            },
        }
    }
}

/// Releases `amount` of collateral to the owner if the remaining position stays within
/// its borrowing limit; the event's `amount` is what moves from the vault to the owner.
pub fn withdraw_collateral(ctx: &mut WithdrawCollateral, amount: u64, clock: &Clock) -> (r: Result<
    CollateralWithdrawn,
    MiladyError,
>)
    ensures
        final(ctx).credit_account == (CreditAccount {
            collaterals: final(ctx).credit_account.collaterals,
            ..old(ctx).credit_account
        }),
        *final(ctx) == (WithdrawCollateral {
            credit_account: final(ctx).credit_account,
            market_config: final(ctx).market_config,
            ..*old(ctx)
        }),
        match spec_withdraw_collateral(*old(ctx), amount, clock.unix_timestamp) {
            Ok((cs, total)) => {
                &&& final(ctx).credit_account.collaterals@ == cs
                &&& final(ctx).market_config == (MarketConfig {
                    total_deposited: total,
                    ..old(ctx).market_config
                })
                &&& r == Ok::<CollateralWithdrawn, MiladyError>(
                    CollateralWithdrawn {
                        owner: old(ctx).owner,
                        market: old(ctx).market_config_key,
                        mint: old(ctx).collateral_mint,
                        amount,
                    },
                )
            },
            Err(e) => {
                &&& r == Err::<CollateralWithdrawn, MiladyError>(e)
                &&& final(ctx).credit_account.collaterals@ == old(ctx).credit_account.collaterals@
                &&& final(ctx).market_config == old(ctx).market_config
            },
        },
{
    if !ctx.credit_account.owner.key_eq(&ctx.owner) {
        return Err(MiladyError::Unauthorized);
    }
    if !ctx.lending_pool.protocol.key_eq(&ctx.protocol_config_key) {
        return Err(MiladyError::InvalidProtocol);
    }
    if !ctx.market_config.protocol.key_eq(&ctx.protocol_config_key) {
        return Err(MiladyError::InvalidProtocol);
    }
    if !ctx.market_config.mint.key_eq(&ctx.collateral_mint) {
        return Err(MiladyError::InvalidMint);
    }
    if ctx.protocol_config.paused {
        return Err(MiladyError::ProtocolPaused);
    }
    if !(amount > 0) {
        return Err(MiladyError::InvalidAmount);
    }
    let market_key = ctx.market_config_key;
    let mut account = ctx.credit_account.duplicate();
    reduce_collateral(&mut account, market_key, amount)?;
    let new_total = match ctx.market_config.total_deposited.checked_sub(amount) {
        Some(v) => v,
        None => return Err(MiladyError::MathOverflow),
    };
    if account.debt_usdg > 0 {
        let snapshot = compute_portfolio_risk(&account, ctx.remaining_accounts.as_slice(), clock)?;
        if !(account.debt_usdg <= snapshot.borrow_limit_usd_micro) {
            return Err(MiladyError::UnsafeWithdrawal);
        }
        if !(snapshot.health_factor_bps > 10_000u64) {
            return Err(MiladyError::UnsafeWithdrawal);
        }
    }
    ctx.credit_account.collaterals = account.collaterals;
    ctx.market_config.total_deposited = new_total;
    Ok(
        CollateralWithdrawn {
            owner: ctx.owner,
            market: market_key,
            mint: ctx.collateral_mint,
            amount,
        },
    )
}

/// Revalues the credit account from fresh oracle prices and persists the snapshot.
pub fn refresh_health(ctx: &mut RefreshHealth, clock: &Clock) -> (r: Result<
    HealthRefreshed,
    MiladyError,
>)
    ensures
        final(ctx).credit_account.collaterals@ == old(ctx).credit_account.collaterals@,
        *final(ctx) == (RefreshHealth { credit_account: final(ctx).credit_account, ..*old(ctx) }),
        if old(ctx).lending_pool.protocol@ != old(ctx).protocol_config_key@ {
            r == Err::<HealthRefreshed, MiladyError>(MiladyError::InvalidProtocol)
                && final(ctx).credit_account == old(ctx).credit_account
        } else if old(ctx).protocol_config.paused {
            r == Err::<HealthRefreshed, MiladyError>(MiladyError::ProtocolPaused)
                && final(ctx).credit_account == old(ctx).credit_account
        } else {
            match spec_compute_portfolio_risk(
                old(ctx).credit_account,
                old(ctx).remaining_accounts@,
                true,
                clock.unix_timestamp,
            ) {
                Ok(snap) => {
                    &&& final(ctx).credit_account == (CreditAccount {
                        last_collateral_value_usd_micro: snap.collateral_value_usd_micro,
                        last_borrow_limit_usd_micro: snap.borrow_limit_usd_micro,
                        last_liquidation_capacity_usd_micro: snap.liquidation_capacity_usd_micro,
                        last_health_factor_bps: snap.health_factor_bps,
                        last_valuation_ts: clock.unix_timestamp,
                        collaterals: final(ctx).credit_account.collaterals,
                        ..old(ctx).credit_account
                    })
                    &&& r == Ok::<HealthRefreshed, MiladyError>(
                        HealthRefreshed {
                            credit_account: old(ctx).credit_account_key,
                            collateral_value_usd_micro: snap.collateral_value_usd_micro,
                            borrow_limit_usd_micro: snap.borrow_limit_usd_micro,
                            liquidation_capacity_usd_micro: snap.liquidation_capacity_usd_micro,
                            debt_usdg: old(ctx).credit_account.debt_usdg,
                            health_factor_bps: snap.health_factor_bps,
                        },
                    )
                },
                Err(e) => r == Err::<HealthRefreshed, MiladyError>(e) && final(ctx).credit_account
                    == old(ctx).credit_account,
            }
        },
{
    if !ctx.lending_pool.protocol.key_eq(&ctx.protocol_config_key) {
        return Err(MiladyError::InvalidProtocol);
    }
    if ctx.protocol_config.paused {
        return Err(MiladyError::ProtocolPaused);
    }
    let snapshot = compute_portfolio_risk(&ctx.credit_account, ctx.remaining_accounts.as_slice(), clock)?;
    ctx.credit_account.last_collateral_value_usd_micro = snapshot.collateral_value_usd_micro;
    ctx.credit_account.last_borrow_limit_usd_micro = snapshot.borrow_limit_usd_micro;
    ctx.credit_account.last_liquidation_capacity_usd_micro = snapshot.liquidation_capacity_usd_micro;
    ctx.credit_account.last_health_factor_bps = snapshot.health_factor_bps;
    ctx.credit_account.last_valuation_ts = clock.unix_timestamp;
    Ok(
        HealthRefreshed {
            credit_account: ctx.credit_account_key,
            collateral_value_usd_micro: snapshot.collateral_value_usd_micro,
            borrow_limit_usd_micro: snapshot.borrow_limit_usd_micro,
            liquidation_capacity_usd_micro: snapshot.liquidation_capacity_usd_micro,
            debt_usdg: ctx.credit_account.debt_usdg,
            health_factor_bps: snapshot.health_factor_bps,
        },
    )
}

} // verus!
