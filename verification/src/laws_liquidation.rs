//! Bounds of a liquidation: who can be liquidated, how much may be repaid and seized,
//! and what it does to the pool's liquidity.
use vstd::prelude::*;
use crate::constants::BPS_DENOMINATOR;
use crate::accounts_liquidation::Liquidate;
use crate::interest::net_position;
use crate::risk::{spec_health_factor_bps, spec_reduce_collateral};
use crate::handlers_liquidation::{spec_close_limit, spec_liquidate};
use crate::laws_collateral::recorded_collateral;
use crate::laws_interest::law_accrual_conserves_liquidity;

verus! {

/// The close factor caps one liquidation's repayment: never more than the debt, at least
/// one unit of a positive debt, and otherwise at most the close factor's share of it.
pub proof fn law_close_limit_bounds(debt: u64, close_factor_bps: u16)
    requires
        spec_close_limit(debt, close_factor_bps) is Ok,
    ensures
        ({
            let c = spec_close_limit(debt, close_factor_bps)->Ok_0;
            &&& c <= debt
            &&& debt > 0 ==> c >= 1
            &&& c <= debt * close_factor_bps / (BPS_DENOMINATOR as int) || c <= 1
        }),
{
}

/// A liquidation only touches an account whose fresh health factor is at or below 100%
/// while the pool's liquidation switch is on; it repays at most the liquidator's cap, the
/// synchronized debt and the close-factor limit, seizes a positive amount no larger than
/// the recorded collateral, removes exactly that from the borrower's collateral list, and
/// raises the pool's net position by exactly the USDG repaid.
pub proof fn law_liquidation_bounds(ctx: Liquidate, max_repay_usdg: u64, now: i64)
    requires
        spec_liquidate(ctx, max_repay_usdg, now) is Ok,
    ensures
        ({
            let (plan, cs) = spec_liquidate(ctx, max_repay_usdg, now)->Ok_0;
            let recorded = recorded_collateral(
                ctx.credit_account.collaterals@,
                ctx.market_config_key@,
            );
            &&& ctx.lending_pool.liquidation_enabled
            &&& plan.pre_risk.health_factor_bps <= BPS_DENOMINATOR
            &&& 0 < plan.repay <= max_repay_usdg
            &&& plan.repay <= plan.synced_debt
            &&& plan.repay <= ctx.liquidator_usdg_amount
            &&& spec_close_limit(plan.synced_debt, plan.accrued_pool.liquidation_close_factor_bps) is Ok
            &&& plan.repay <= spec_close_limit(
                plan.synced_debt,
                plan.accrued_pool.liquidation_close_factor_bps,
            )->Ok_0
            &&& 0 < plan.seize <= recorded
            &&& recorded <= ctx.collateral_vault_amount
            &&& spec_reduce_collateral(ctx.credit_account.collaterals@, ctx.market_config_key, plan.seize)
                == Ok::<Seq<crate::state::CollateralBalance>, crate::errors::MiladyError>(cs)
            &&& plan.remaining_debt == plan.synced_debt - plan.repay
            &&& plan.health_after == spec_health_factor_bps(
                plan.last_liquidation_capacity,
                plan.remaining_debt,
            )
            &&& net_position(plan.pool) == net_position(ctx.lending_pool) + plan.repay
        }),
{
    law_accrual_conserves_liquidity(ctx.lending_pool, ctx.lending_pool_key, now);
}

} // verus!
