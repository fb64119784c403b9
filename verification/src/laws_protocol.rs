//! Protocol-wide rules: what the emergency pause stops and what it leaves open, the
//! faucet cooldown, and the safety of collateral movements.
use vstd::prelude::*;
use crate::constants::BPS_DENOMINATOR;
use crate::errors::MiladyError;
use crate::pubkey::zero_key;
use crate::state::ProtocolConfig;
use crate::accounts_admin::ClaimFaucet;
use crate::accounts_collateral::{DepositCollateral, WithdrawCollateral};
use crate::accounts_lending::{SupplyUsdg, WithdrawSuppliedUsdg, BorrowUsdg};
use crate::accounts_liquidation::Liquidate;
use crate::handlers_admin::spec_claim_faucet;
use crate::handlers_collateral::{spec_deposit_collateral, spec_withdraw_collateral};
use crate::handlers_lending::{spec_supply_usdg, spec_withdraw_supplied_usdg, spec_borrow_usdg};
use crate::handlers_liquidation::spec_liquidate;
use crate::risk::{
    spec_portfolio_risk, spec_validate_risk_parameters, spec_weighted_value, spec_risk_totals,
    spec_market_of, spec_health_factor_bps, AccountInfo,
};
use crate::state::{CollateralBalance, MarketConfig};
use crate::laws_collateral::{
    collaterals_well_formed, recorded_collateral, law_deposit_records_amount,
    law_withdrawal_bounded_by_record,
};

verus! {

/// While the protocol is paused no new exposure can be taken or released: collateral
/// deposits and withdrawals, USDG supply and withdrawal, borrowing and faucet claims are
/// all refused.
pub proof fn law_pause_halts_new_exposure(
    deposit: DepositCollateral,
    deposit_amount: u64,
    withdraw: WithdrawCollateral,
    withdraw_amount: u64,
    supply: SupplyUsdg,
    supply_amount: u64,
    withdraw_supply: WithdrawSuppliedUsdg,
    withdraw_supply_amount: u64,
    borrow: BorrowUsdg,
    borrow_amount: u64,
    claim: ClaimFaucet,
    now: i64,
)
    requires
        deposit.protocol_config.paused,
        withdraw.protocol_config.paused,
        supply.protocol_config.paused,
        withdraw_supply.protocol_config.paused,
        borrow.protocol_config.paused,
        claim.protocol_config.paused,
    ensures
        spec_deposit_collateral(deposit, deposit_amount) is Err,
        spec_withdraw_collateral(withdraw, withdraw_amount, now) is Err,
        spec_supply_usdg(supply, supply_amount, now) is Err,
        spec_withdraw_supplied_usdg(withdraw_supply, withdraw_supply_amount, now) is Err,
        spec_borrow_usdg(borrow, borrow_amount, now) is Err,
        spec_claim_faucet(claim, now) is Err,
{
}

/// Liquidation stays available during a general pause: its outcome does not depend on the
/// protocol configuration's state (only the pool's own liquidation switch can stop it).
pub proof fn law_liquidation_ignores_pause(ctx: Liquidate, config: ProtocolConfig, max_repay_usdg: u64, now: i64)
    ensures
        spec_liquidate(Liquidate { protocol_config: config, ..ctx }, max_repay_usdg, now)
            == spec_liquidate(ctx, max_repay_usdg, now),
{
    let other = Liquidate { protocol_config: config, ..ctx };
    assert(other.remaining_accounts@ == ctx.remaining_accounts@);
}

/// After a faucet claim at `t1`, a second claim by the same claimant before the cooldown
/// has elapsed is refused with `FaucetCooldown`, and one once it has elapsed is granted
/// (unless the claimant's running total would overflow).
pub proof fn law_faucet_cooldown(ctx: ClaimFaucet, t1: i64, t2: i64)
    requires
        ctx.claimant@ != zero_key(),
        t1 > 0,
        t1 <= t2,
        spec_claim_faucet(ctx, t1) is Ok,
    ensures
        ({
            let again = ClaimFaucet { faucet_claim: spec_claim_faucet(ctx, t1)->Ok_0, ..ctx };
            &&& t2 - t1 < ctx.faucet_config.cooldown_seconds ==> spec_claim_faucet(again, t2)
                == Err::<crate::state::FaucetClaim, MiladyError>(MiladyError::FaucetCooldown)
            &&& (t2 - t1 >= ctx.faucet_config.cooldown_seconds && spec_claim_faucet(ctx, t1)->Ok_0.total_claimed
                + ctx.faucet_config.amount_per_claim <= u64::MAX) ==> spec_claim_faucet(again, t2) is Ok
        }),
{
}

/// A deposit records exactly its amount for the market, in the credit account and in the
/// market's total, and never takes the market past a configured supply cap.
pub proof fn law_deposit_within_supply_cap(ctx: DepositCollateral, amount: u64)
    requires
        collaterals_well_formed(ctx.credit_account.collaterals@),
        spec_deposit_collateral(ctx, amount) is Ok,
    ensures
        ({
            let (cs, total) = spec_deposit_collateral(ctx, amount)->Ok_0;
            &&& amount > 0
            &&& total == ctx.market_config.total_deposited + amount
            &&& (ctx.market_config.supply_cap > 0 ==> total <= ctx.market_config.supply_cap)
            &&& recorded_collateral(cs, ctx.market_config_key@) == recorded_collateral(
                ctx.credit_account.collaterals@,
                ctx.market_config_key@,
            ) + amount
            &&& collaterals_well_formed(cs)
        }),
{
    law_deposit_records_amount(ctx.credit_account.collaterals@, ctx.market_config_key, amount);
    crate::laws_collateral::law_deposit_keeps_list_well_formed(
        ctx.credit_account.collaterals@,
        ctx.market_config_key,
        amount,
    );
}

/// A collateral withdrawal never exceeds the recorded collateral, and with debt
/// outstanding it is granted only if the remaining collateral, at fresh oracle prices,
/// still covers the debt within the borrow limit with a health factor above 100%.
pub proof fn law_collateral_withdrawal_stays_safe(ctx: WithdrawCollateral, amount: u64, now: i64)
    requires
        collaterals_well_formed(ctx.credit_account.collaterals@),
        spec_withdraw_collateral(ctx, amount, now) is Ok,
    ensures
        ({
            let (cs, total) = spec_withdraw_collateral(ctx, amount, now)->Ok_0;
            let debt = ctx.credit_account.debt_usdg;
            &&& 0 < amount <= recorded_collateral(
                ctx.credit_account.collaterals@,
                ctx.market_config_key@,
            )
            &&& recorded_collateral(cs, ctx.market_config_key@) == recorded_collateral(
                ctx.credit_account.collaterals@,
                ctx.market_config_key@,
            ) - amount
            &&& total == ctx.market_config.total_deposited - amount
            &&& collaterals_well_formed(cs)
            &&& (debt > 0 ==> {
                let snap = spec_portfolio_risk(cs, debt, ctx.remaining_accounts@, true, now);
                &&& snap is Ok
                &&& debt <= snap->Ok_0.borrow_limit_usd_micro
                &&& snap->Ok_0.health_factor_bps > BPS_DENOMINATOR
            })
        }),
{
    law_withdrawal_bounded_by_record(ctx.credit_account.collaterals@, ctx.market_config_key, amount);
    crate::laws_collateral::law_withdrawal_keeps_list_well_formed(
        ctx.credit_account.collaterals@,
        ctx.market_config_key,
        amount,
    );
}

/// Every market the protocol accepts lends less than it can liquidate against: its LTV is
/// positive and below its liquidation threshold, so for any collateral value the borrow
/// limit it contributes never exceeds the liquidation capacity.
pub proof fn law_accepted_market_lends_below_capacity(
    ltv_bps: u16,
    liquidation_threshold_bps: u16,
    liquidation_bonus_bps: u16,
    max_confidence_bps: u16,
    max_price_age_secs: u32,
    value: u64,
)
    requires
        spec_validate_risk_parameters(
            ltv_bps,
            liquidation_threshold_bps,
            liquidation_bonus_bps,
            max_confidence_bps,
            max_price_age_secs,
        ) is Ok,
    ensures
        0 < ltv_bps < liquidation_threshold_bps <= BPS_DENOMINATOR,
        spec_weighted_value(value, ltv_bps) <= spec_weighted_value(value, liquidation_threshold_bps),
        spec_weighted_value(value, liquidation_threshold_bps) <= value,
{
    crate::interest::lemma_mul_le(value as int, ltv_bps as int, value as int, liquidation_threshold_bps as int);
    crate::interest::lemma_mul_le(value as int, liquidation_threshold_bps as int, value as int, 10_000);
    crate::interest::lemma_div_le(value * ltv_bps, value * liquidation_threshold_bps, 10_000);
    crate::interest::lemma_div_le(value * liquidation_threshold_bps, value * 10_000, 10_000);
    vstd::arithmetic::div_mod::lemma_div_multiples_vanish(value as int, 10_000);
    assert(value * 10_000 == 10_000 * value) by (nonlinear_arith);
}

/// A market whose LTV does not exceed its liquidation threshold, which does not exceed
/// 100%, as every market the protocol accepts (`law_accepted_market_lends_below_capacity`).
pub open spec fn market_ratios_ordered(m: MarketConfig) -> bool {
    m.ltv_bps <= m.liquidation_threshold_bps <= BPS_DENOMINATOR
}

/// Every market account handed to a portfolio valuation (the `2k`-th account for the
/// `k`-th collateral entry) carries ordered ratios.
pub open spec fn valuation_markets_ordered(cs: Seq<CollateralBalance>, accounts: Seq<AccountInfo>) -> bool {
    forall|k: int|
        0 <= k < cs.len() ==> market_ratios_ordered(#[trigger] spec_market_of(accounts[2 * k].data@))
}

/// Weighting a value by a smaller share never gives more, and no share above 100% is used.
proof fn lemma_weighted_ordered(value: u64, a: u16, b: u16)
    requires
        a <= b <= BPS_DENOMINATOR,
    ensures
        spec_weighted_value(value, a) <= spec_weighted_value(value, b),
        spec_weighted_value(value, b) <= value,
{
    crate::interest::lemma_mul_le(value as int, a as int, value as int, b as int);
    crate::interest::lemma_mul_le(value as int, b as int, value as int, 10_000);
    crate::interest::lemma_div_le(value * a, value * b, 10_000);
    crate::interest::lemma_div_le(value * b, value * 10_000, 10_000);
    vstd::arithmetic::div_mod::lemma_div_multiples_vanish(value as int, 10_000);
    assert(value * 10_000 == 10_000 * value) by (nonlinear_arith);
}

/// The running totals of a valuation keep borrow limit <= liquidation capacity <= value.
proof fn lemma_risk_totals_ordered(
    cs: Seq<CollateralBalance>,
    accounts: Seq<AccountInfo>,
    require_enabled: bool,
    now: i64,
)
    requires
        valuation_markets_ordered(cs, accounts),
        spec_risk_totals(cs, accounts, require_enabled, now) is Ok,
    ensures
        ({
            let (t, b, l) = spec_risk_totals(cs, accounts, require_enabled, now)->Ok_0;
            0 <= b <= l <= t
        }),
    decreases cs.len(),
{
    if cs.len() > 0 {
        let k = cs.len() - 1;
        let rest = cs.drop_last();
        assert forall|j: int| 0 <= j < rest.len() implies market_ratios_ordered(
            #[trigger] spec_market_of(accounts[2 * j].data@),
        ) by {
            assert(market_ratios_ordered(spec_market_of(accounts[2 * j].data@)));
        }
        lemma_risk_totals_ordered(rest, accounts, require_enabled, now);
        let (v, m) = crate::risk::spec_risk_entry(
            cs[k],
            accounts[2 * k],
            accounts[2 * k + 1],
            require_enabled,
            now,
        )->Ok_0;
        assert(market_ratios_ordered(spec_market_of(accounts[2 * k].data@)));
        lemma_weighted_ordered(v, m.ltv_bps, m.liquidation_threshold_bps);
    }
}

/// A portfolio valued against markets with ordered ratios has borrow limit <= liquidation
/// capacity <= collateral value, and a debt within the borrow limit has a health factor
/// of at least 100%.
pub proof fn law_portfolio_limit_below_capacity(
    cs: Seq<CollateralBalance>,
    debt: u64,
    accounts: Seq<AccountInfo>,
    require_enabled: bool,
    now: i64,
)
    requires
        valuation_markets_ordered(cs, accounts),
        spec_portfolio_risk(cs, debt, accounts, require_enabled, now) is Ok,
    ensures
        ({
            let snap = spec_portfolio_risk(cs, debt, accounts, require_enabled, now)->Ok_0;
            &&& snap.borrow_limit_usd_micro <= snap.liquidation_capacity_usd_micro
            &&& snap.liquidation_capacity_usd_micro <= snap.collateral_value_usd_micro
            &&& snap.health_factor_bps == spec_health_factor_bps(snap.liquidation_capacity_usd_micro, debt)
            &&& debt <= snap.borrow_limit_usd_micro ==> snap.health_factor_bps >= BPS_DENOMINATOR
        }),
{
    lemma_risk_totals_ordered(cs, accounts, require_enabled, now);
    let snap = spec_portfolio_risk(cs, debt, accounts, require_enabled, now)->Ok_0;
    let cap = snap.liquidation_capacity_usd_micro;
    if debt > 0 && debt <= snap.borrow_limit_usd_micro {
        assert(debt * 10_000 <= cap * 10_000) by (nonlinear_arith)
            requires
                debt <= cap,
        ;
        vstd::arithmetic::div_mod::lemma_div_is_ordered(debt * 10_000, cap * 10_000, debt as int);
        vstd::arithmetic::div_mod::lemma_div_multiples_vanish(10_000, debt as int);
    }
}

} // verus!
