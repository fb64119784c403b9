//! The pool's balance sheet across instructions: its net position (supplier claims plus
//! reserves, less bad debt and outstanding loans, i.e. the idle USDG it must hold) moves
//! by exactly the USDG that enters or leaves the liquidity vault, and the checks that
//! bound each movement.
use vstd::prelude::*;
use crate::constants::BPS_DENOMINATOR;
use crate::pubkey::Pubkey;
use crate::state::{LendingPool, CreditAccount};
use crate::accounts_lending::{SupplyUsdg, WithdrawSuppliedUsdg, BorrowUsdg};
use crate::accounts_liquidation::{FundInsuranceReserve, AbsorbBadDebt, RecapitalizeBadDebt};
use crate::interest::{net_position, spec_pool_available_liquidity};
use crate::risk::spec_health_factor_bps;
use crate::handlers_lending::{
    spec_apply_repayment, spec_supply_usdg, spec_withdraw_supplied_usdg, spec_borrow_usdg, spec_repay,
};
use crate::handlers_liquidation::{
    spec_fund_insurance_reserve, spec_recapitalize_bad_debt, spec_absorb_bad_debt, spec_loss_waterfall,
};
use crate::laws_interest::law_accrual_conserves_liquidity;

verus! {

/// The health factor never rises with debt: less debt against the same liquidation
/// capacity is at least as healthy, and no debt is the healthiest state.
pub proof fn law_health_antitone_in_debt(capacity: u64, d1: u64, d2: u64)
    requires
        d1 <= d2,
    ensures
        spec_health_factor_bps(capacity, d1) >= spec_health_factor_bps(capacity, d2),
        spec_health_factor_bps(capacity, 0) == u64::MAX,
{
    if d1 > 0 {
        assert(capacity * BPS_DENOMINATOR >= 0) by (nonlinear_arith);
        vstd::arithmetic::div_mod::lemma_div_is_ordered_by_denominator(
            capacity * BPS_DENOMINATOR,
            d1 as int,
            d2 as int,
        );
    }
}

/// Settling a repayment reduces the borrower's debt and the pool's loans by exactly the
/// amount, raises the pool's available liquidity by exactly the amount, and never lowers
/// the borrower's health factor.
pub proof fn law_repayment_restores_liquidity(account: CreditAccount, pool: LendingPool, amount: u64)
    requires
        spec_apply_repayment(account, pool, amount) is Ok,
    ensures
        ({
            let (debt, health, p) = spec_apply_repayment(account, pool, amount)->Ok_0;
            &&& debt == account.debt_usdg - amount
            &&& p.total_borrowed_usdg == pool.total_borrowed_usdg - amount
            &&& net_position(p) == net_position(pool) + amount
            &&& (spec_pool_available_liquidity(pool) is Ok ==> spec_pool_available_liquidity(p)
                == Ok::<u64, crate::errors::MiladyError>(
                (spec_pool_available_liquidity(pool)->Ok_0 + amount) as u64,
            ))
            &&& health == spec_health_factor_bps(account.last_liquidation_capacity_usd_micro, debt)
            &&& health >= spec_health_factor_bps(
                account.last_liquidation_capacity_usd_micro,
                account.debt_usdg,
            )
        }),
{
    let (debt, health, p) = spec_apply_repayment(account, pool, amount)->Ok_0;
    law_health_antitone_in_debt(account.last_liquidation_capacity_usd_micro, debt, account.debt_usdg);
}

/// A supply adds exactly the supplied amount to the pool's net position (interest accrued
/// on the way moves no liquidity) and to the supplier's synchronized balance.
pub proof fn law_supply_adds_liquidity(ctx: SupplyUsdg, amount: u64, now: i64)
    requires
        spec_supply_usdg(ctx, amount, now) is Ok,
    ensures
        ({
            let (p, pos, a, interest) = spec_supply_usdg(ctx, amount, now)->Ok_0;
            &&& net_position(p) == net_position(ctx.lending_pool) + amount
            &&& pos.principal_usdg >= amount
        }),
{
    law_accrual_conserves_liquidity(ctx.lending_pool, ctx.lending_pool_key, now);
}

/// A withdrawal takes exactly the amount out of the pool's net position, and only idle
/// liquidity: the amount never exceeds the accrued pool's available liquidity, the vault's
/// balance or the supplier's synchronized balance, so the net position stays non-negative.
pub proof fn law_withdrawal_takes_only_idle_liquidity(ctx: WithdrawSuppliedUsdg, amount: u64, now: i64)
    requires
        spec_withdraw_supplied_usdg(ctx, amount, now) is Ok,
    ensures
        ({
            let (p, pos, a, interest) = spec_withdraw_supplied_usdg(ctx, amount, now)->Ok_0;
            &&& net_position(p) == net_position(ctx.lending_pool) - amount
            &&& net_position(p) >= 0
            &&& amount <= ctx.liquidity_vault_amount
            &&& pos.principal_usdg + amount >= ctx.supplier_position.principal_usdg
        }),
{
    law_accrual_conserves_liquidity(ctx.lending_pool, ctx.lending_pool_key, now);
    let (p1, a) = crate::interest::spec_accrue_pool_interest(
        ctx.lending_pool,
        ctx.lending_pool_key,
        now,
    )->Ok_0;
    crate::laws_interest::law_index_sync_never_shrinks(
        ctx.supplier_position.principal_usdg,
        ctx.supplier_position.supply_index_snapshot_e18,
        p1.supply_index_e18,
    );
}

/// A borrow lends only idle liquidity, within the borrow cap, the borrower's fresh borrow
/// limit and a health factor above 100%; the pool's net position falls by exactly the
/// amount lent.
pub proof fn law_borrow_stays_within_limits(ctx: BorrowUsdg, amount: u64, now: i64)
    requires
        spec_borrow_usdg(ctx, amount, now) is Ok,
    ensures
        ({
            let plan = spec_borrow_usdg(ctx, amount, now)->Ok_0;
            &&& !ctx.protocol_config.paused
            &&& ctx.lending_pool.borrow_enabled
            &&& plan.new_debt == plan.synced_debt + amount
            &&& plan.new_debt <= plan.snapshot.borrow_limit_usd_micro
            &&& plan.health > BPS_DENOMINATOR
            &&& amount <= ctx.liquidity_vault_amount
            &&& net_position(plan.pool) == net_position(ctx.lending_pool) - amount
            &&& net_position(plan.pool) >= 0
            &&& (plan.pool.borrow_cap_usdg > 0 ==> plan.pool.total_borrowed_usdg
                <= plan.pool.borrow_cap_usdg)
        }),
{
    law_accrual_conserves_liquidity(ctx.lending_pool, ctx.lending_pool_key, now);
}

/// Repayment through the borrower or a third party settles at most the synchronized debt,
/// raises the pool's net position by exactly the amount paid, reports that liquidity,
/// and leaves the borrower at least as healthy as the synchronized debt did.
pub proof fn law_repayment_plan_restores_liquidity(
    account: CreditAccount,
    pool: LendingPool,
    pool_key: Pubkey,
    protocol_key: Pubkey,
    usdg_mint: Pubkey,
    liquidity_vault: Pubkey,
    usdg_mint_decimals: u8,
    payer_usdg_amount: u64,
    expected_owner: Pubkey,
    requested: Option<u64>,
    now: i64,
)
    requires
        spec_repay(
            account,
            pool,
            pool_key,
            protocol_key,
            usdg_mint,
            liquidity_vault,
            usdg_mint_decimals,
            payer_usdg_amount,
            expected_owner,
            requested,
            now,
        ) is Ok,
    ensures
        ({
            let plan = spec_repay(
                account,
                pool,
                pool_key,
                protocol_key,
                usdg_mint,
                liquidity_vault,
                usdg_mint_decimals,
                payer_usdg_amount,
                expected_owner,
                requested,
                now,
            )->Ok_0;
            &&& 0 < plan.amount <= plan.synced_debt
            &&& plan.amount <= payer_usdg_amount
            &&& requested is None ==> plan.amount == plan.synced_debt && plan.remaining_debt == 0
            &&& requested is Some ==> plan.amount == requested->Some_0
            &&& plan.remaining_debt == plan.synced_debt - plan.amount
            &&& plan.synced_debt >= account.debt_usdg
            &&& net_position(plan.pool) == net_position(pool) + plan.amount
            &&& plan.available_liquidity == net_position(plan.pool)
            &&& plan.health >= spec_health_factor_bps(
                account.last_liquidation_capacity_usd_micro,
                plan.synced_debt,
            )
        }),
{
    law_accrual_conserves_liquidity(pool, pool_key, now);
    let (p1, a) = crate::interest::spec_accrue_pool_interest(pool, pool_key, now)->Ok_0;
    crate::laws_interest::law_index_sync_never_shrinks(
        account.debt_usdg,
        account.borrow_index_snapshot_e18,
        p1.borrow_index_e18,
    );
    let plan = spec_repay(
        account,
        pool,
        pool_key,
        protocol_key,
        usdg_mint,
        liquidity_vault,
        usdg_mint_decimals,
        payer_usdg_amount,
        expected_owner,
        requested,
        now,
    )->Ok_0;
    law_repayment_restores_liquidity(
        CreditAccount { debt_usdg: plan.synced_debt, ..account },
        p1,
        plan.amount,
    );
}

/// Funding the insurance reserve adds exactly the funded amount to the pool's net
/// position and to the insurance reserve.
pub proof fn law_insurance_funding_adds_liquidity(ctx: FundInsuranceReserve, amount: u64)
    requires
        spec_fund_insurance_reserve(ctx, amount) is Ok,
    ensures
        ({
            let p = spec_fund_insurance_reserve(ctx, amount)->Ok_0;
            &&& p.insurance_reserve_usdg == ctx.lending_pool.insurance_reserve_usdg + amount
            &&& net_position(p) == net_position(ctx.lending_pool) + amount
        }),
{
}

/// Recapitalization pays down recorded bad debt with real USDG: the bad debt falls and the
/// pool's net position rises by exactly the amount paid, never past the recorded deficit.
pub proof fn law_recapitalization_restores_liquidity(ctx: RecapitalizeBadDebt, amount: u64)
    requires
        spec_recapitalize_bad_debt(ctx, amount) is Ok,
    ensures
        ({
            let p = spec_recapitalize_bad_debt(ctx, amount)->Ok_0;
            &&& 0 < amount <= ctx.lending_pool.bad_debt_usdg
            &&& amount <= ctx.funder_usdg_amount
            &&& p.bad_debt_usdg == ctx.lending_pool.bad_debt_usdg - amount
            &&& net_position(p) == net_position(ctx.lending_pool) + amount
        }),
{
}

/// The loss waterfall covers a written-off debt from protocol reserves first, then from
/// the insurance reserve, and records only what both cannot cover as bad debt; the three
/// parts add up to the written-off amount.
pub proof fn law_loss_waterfall(written_off: u64, reserves: u64, insurance: u64)
    ensures
        ({
            let (rc, ic, un) = spec_loss_waterfall(written_off, reserves, insurance);
            &&& rc + ic + un == written_off
            &&& rc <= reserves
            &&& ic <= insurance
            &&& (rc < reserves ==> ic == 0 && un == 0)
            &&& (un > 0 ==> rc == reserves && ic == insurance)
        }),
{
}

/// Absorbing bad debt never silently erases it from net assets: the written-off loans
/// leave total borrows, the covered part leaves reserves and insurance by the waterfall,
/// the rest is recorded as bad debt, and the pool's net position is unchanged.
pub proof fn law_absorption_keeps_net_position(ctx: AbsorbBadDebt, now: i64)
    requires
        spec_absorb_bad_debt(ctx, now) is Ok,
    ensures
        ({
            let plan = spec_absorb_bad_debt(ctx, now)->Ok_0;
            &&& ctx.credit_account.collaterals@.len() == 0
            &&& plan.written_off > 0
            &&& plan.reserve_cover + plan.insurance_cover + plan.uncovered == plan.written_off
            &&& plan.pool.total_borrowed_usdg == plan.accrued_pool.total_borrowed_usdg
                - plan.written_off
            &&& plan.pool.bad_debt_usdg == plan.accrued_pool.bad_debt_usdg + plan.uncovered
            &&& (plan.reserve_cover, plan.insurance_cover, plan.uncovered) == spec_loss_waterfall(
                plan.written_off,
                plan.accrued_pool.protocol_reserves_usdg,
                plan.accrued_pool.insurance_reserve_usdg,
            )
            &&& plan.pool.protocol_reserves_usdg == plan.accrued_pool.protocol_reserves_usdg
                - plan.reserve_cover
            &&& plan.pool.insurance_reserve_usdg == plan.accrued_pool.insurance_reserve_usdg
                - plan.insurance_cover
            &&& plan.written_off == ctx.credit_account.debt_usdg * plan.accrued_pool.borrow_index_e18
                / (ctx.credit_account.borrow_index_snapshot_e18 as int)
            &&& net_position(plan.pool) == net_position(ctx.lending_pool)
        }),
{
    law_accrual_conserves_liquidity(ctx.lending_pool, ctx.lending_pool_key, now);
    let (p1, a) = crate::interest::spec_accrue_pool_interest(ctx.lending_pool, ctx.lending_pool_key, now)->Ok_0;
    crate::laws_outcomes::law_synchronized_balance_formula(
        ctx.credit_account.debt_usdg,
        ctx.credit_account.borrow_index_snapshot_e18,
        p1.borrow_index_e18,
    );
}

} // verus!
