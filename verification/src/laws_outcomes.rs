//! What the valuation, liquidation, supply and withdrawal operations compute, stated
//! directly from their inputs: the USD value of a token amount, the collateral a
//! liquidation seizes, the balance a supply credits, and when a withdrawal must be
//! granted.
use vstd::prelude::*;
use crate::constants::BPS_DENOMINATOR;
use crate::errors::MiladyError;
use crate::pubkey::zero_key;
use crate::state::CollateralBalance;
use crate::accounts_collateral::{WithdrawCollateral, DepositCollateral};
use crate::accounts_lending::{SupplyUsdg, WithdrawSuppliedUsdg, BorrowUsdg};
use crate::accounts_liquidation::Liquidate;
use crate::interest::{spec_accrue_pool_interest, spec_pool_available_liquidity, spec_refresh_rate_cache};
use crate::risk::{
    pow10_nat, spec_micro_price, spec_token_value_usd_micro, spec_read_pyth_price,
    spec_portfolio_risk, spec_reduce_collateral, spec_usd_micro_to_token_amount,
};
use crate::interest::{rate_curve, spec_borrow_apr_bps, spec_utilization_bps};
use crate::handlers_collateral::{spec_withdraw_collateral, spec_deposit_collateral};
use crate::handlers_lending::{spec_supply_usdg, spec_withdraw_supplied_usdg, spec_check_pool_accounts, spec_borrow_usdg, spec_repay};
use crate::pubkey::Pubkey;
use crate::state::CreditAccount;
use crate::risk::{spec_health_factor_bps, has_match, first_match, spec_weighted_value, spec_validate_oracle_confidence};
use crate::interest::{spec_supply_apr_bps, spec_apply_index_interest, spec_grow_by_index};
use crate::laws_collateral::collaterals_well_formed;
use crate::handlers_liquidation::spec_liquidate;
use crate::laws_collateral::recorded_collateral;

verus! {

/// The micro-unit price of one whole token is the oracle price scaled by `10^exponent`
/// and by one million micro-units per dollar (floor division for negative exponents).
pub proof fn law_micro_price_scales_by_exponent(price: i64, exponent: i32)
    requires
        price > 0,
        spec_micro_price(price, exponent) is Ok,
    ensures
        exponent >= 0 ==> spec_micro_price(price, exponent)->Ok_0 == price * pow10_nat(
            exponent as nat,
        ) * 1_000_000,
        exponent < 0 ==> spec_micro_price(price, exponent)->Ok_0 == price * 1_000_000 / (pow10_nat(
            (-exponent) as nat,
        ) as int),
{
    if exponent >= 0 {
        crate::risk::lemma_pow10_positive(exponent as nat);
        crate::interest::lemma_mul_le(price as int, 1, price as int, pow10_nat(exponent as nat) as int);
        assert(price * pow10_nat(exponent as nat) * 1_000_000 >= 0) by (nonlinear_arith)
            requires
                price > 0,
        ;
    } else {
        crate::risk::lemma_pow10_positive((-exponent) as nat);
        assert(price * 1_000_000 >= 0) by (nonlinear_arith)
            requires
                price > 0,
        ;
        vstd::arithmetic::div_mod::lemma_div_pos_is_pos(
            price * 1_000_000,
            pow10_nat((-exponent) as nat) as int,
        );
    }
}

/// `10^38` fits in a `u128`.
proof fn lemma_pow10_38()
    ensures
        pow10_nat(38) <= u128::MAX,
{
    reveal_with_fuel(pow10_nat, 39);
    assert(pow10_nat(38) == 100_000_000_000_000_000_000_000_000_000_000_000_000nat);
}

/// A balance grown from index `snapshot` to `index` is `floor(balance * index / snapshot)`.
proof fn lemma_grown_balance(balance: u64, snapshot: u128, index: u128)
    requires
        crate::interest::spec_grow_by_index(balance, snapshot, index) is Ok,
    ensures
        snapshot > 0,
        crate::interest::spec_grow_by_index(balance, snapshot, index)->Ok_0 == balance * index / (
        snapshot as int),
{
    if balance == 0 {
        assert(balance * index == 0) by (nonlinear_arith)
            requires
                balance == 0,
        ;
        vstd::arithmetic::div_mod::lemma_div_basics(snapshot as int);
    }
}

/// The USD micro-unit value of `amount` raw units of a token with `decimals` decimals is
/// `floor(amount * micro_price / 10^decimals)`: a whole token (`10^decimals` raw units) is
/// worth exactly the micro-unit price of one token, whatever the mint's decimals. The
/// value is granted whenever the price is positive and nothing overflows.
pub proof fn law_token_value_per_whole_token(amount: u64, decimals: u8, price: i64, exponent: i32)
    ensures
        spec_token_value_usd_micro(amount, decimals, price, exponent) is Ok ==> {
            let mp = spec_micro_price(price, exponent)->Ok_0;
            &&& price > 0
            &&& spec_micro_price(price, exponent) is Ok
            &&& spec_token_value_usd_micro(amount, decimals, price, exponent)->Ok_0 == amount * mp
                / (pow10_nat(decimals as nat) as int)
        },
        (price > 0 && decimals <= 38 && spec_micro_price(price, exponent) is Ok && amount
            * spec_micro_price(price, exponent)->Ok_0 <= u128::MAX && amount * spec_micro_price(
            price,
            exponent,
        )->Ok_0 / (pow10_nat(decimals as nat) as int) <= u64::MAX) ==> spec_token_value_usd_micro(
            amount,
            decimals,
            price,
            exponent,
        ) is Ok,
        (spec_token_value_usd_micro(amount, decimals, price, exponent) is Ok && amount == pow10_nat(
            decimals as nat,
        )) ==> spec_token_value_usd_micro(amount, decimals, price, exponent)->Ok_0
            == spec_micro_price(price, exponent)->Ok_0,
{
    crate::risk::lemma_pow10_positive(decimals as nat);
    if decimals <= 38 {
        crate::risk::lemma_pow10_monotone(decimals as nat, 38);
        lemma_pow10_38();
    }
    if amount == pow10_nat(decimals as nat) && spec_micro_price(price, exponent) is Ok {
        let mp = spec_micro_price(price, exponent)->Ok_0 as int;
        let s = pow10_nat(decimals as nat) as int;
        assert(s * mp == mp * s) by (nonlinear_arith);
        vstd::arithmetic::div_mod::lemma_div_multiples_vanish(mp, s);
    }
}

/// A successful liquidation seizes the smaller of the recorded collateral and the token
/// amount worth the repayment plus the market's own liquidation bonus:
/// `floor(floor(repay * (10_000 + bonus) / 10_000) * 10^decimals / micro_price)` at the
/// fresh oracle price of the market.
pub proof fn law_liquidation_seizes_repay_plus_market_bonus(ctx: Liquidate, max_repay_usdg: u64, now: i64)
    requires
        spec_liquidate(ctx, max_repay_usdg, now) is Ok,
    ensures
        ({
            let (plan, cs) = spec_liquidate(ctx, max_repay_usdg, now)->Ok_0;
            let market = ctx.market_config;
            let oracle = spec_read_pyth_price(ctx.price_update, now, market)->Ok_0;
            let mp = spec_micro_price(oracle.price, oracle.exponent)->Ok_0;
            let seize_value = plan.repay * (BPS_DENOMINATOR + market.liquidation_bonus_bps)
                / (BPS_DENOMINATOR as int);
            let tokens = seize_value * pow10_nat(market.decimals as nat) / (mp as int);
            let recorded = recorded_collateral(ctx.credit_account.collaterals@, ctx.market_config_key@);
            &&& spec_read_pyth_price(ctx.price_update, now, market) is Ok
            &&& spec_micro_price(oracle.price, oracle.exponent) is Ok
            &&& mp > 0
            &&& plan.seize == (if tokens < recorded { tokens } else { recorded as int })
        }),
{
}

/// A supply credits the supplier's balance synchronized to the pool's supply index plus
/// the amount supplied: an existing position's principal `P` taken at snapshot `S` is
/// worth `floor(P * I / S)` at the accrued index `I`, and the reported interest is
/// exactly that growth; a fresh position starts from the amount alone.
pub proof fn law_supply_credits_synchronized_balance(ctx: SupplyUsdg, amount: u64, now: i64)
    requires
        spec_supply_usdg(ctx, amount, now) is Ok,
    ensures
        ({
            let (p, pos, a, interest) = spec_supply_usdg(ctx, amount, now)->Ok_0;
            let old = ctx.supplier_position;
            let index = p.supply_index_e18;
            &&& pos.supply_index_snapshot_e18 == index
            &&& pos.last_updated_ts == now
            &&& p.total_supplied_usdg == ctx.lending_pool.total_supplied_usdg + a.supplier_interest_usdg
                + amount
            &&& (old.owner@ == zero_key() ==> pos.principal_usdg == amount && interest == 0)
            &&& (old.owner@ != zero_key() ==> {
                &&& old.supply_index_snapshot_e18 > 0
                &&& pos.principal_usdg == old.principal_usdg * index / (
                old.supply_index_snapshot_e18 as int) + amount
                &&& interest == old.principal_usdg * index / (old.supply_index_snapshot_e18 as int)
                    - old.principal_usdg
            })
        }),
{
    crate::laws_interest::law_accrual_conserves_liquidity(ctx.lending_pool, ctx.lending_pool_key, now);
    let (p1, a) = spec_accrue_pool_interest(ctx.lending_pool, ctx.lending_pool_key, now)->Ok_0;
    let start = crate::handlers_lending::spec_supply_position(ctx, p1, now);
    lemma_grown_balance(start.principal_usdg, start.supply_index_snapshot_e18, p1.supply_index_e18);
    let b1 = crate::interest::spec_grow_by_index(
        start.principal_usdg,
        start.supply_index_snapshot_e18,
        p1.supply_index_e18,
    )->Ok_0;
    crate::laws_interest::law_index_sync_never_shrinks(
        start.principal_usdg,
        start.supply_index_snapshot_e18,
        p1.supply_index_e18,
    );
    let (p, pos, a2, interest) = spec_supply_usdg(ctx, amount, now)->Ok_0;
    assert(p.supply_index_e18 == p1.supply_index_e18);
    assert(pos.principal_usdg == b1 + amount);
    assert(interest == b1 - start.principal_usdg);
    if ctx.supplier_position.owner@ == zero_key() {
        assert(start.principal_usdg == 0);
        assert(b1 == 0);
    }
}

/// Withdrawing supplied USDG is granted whenever the accounts check out, the protocol is
/// not paused, the amount is positive and at most the supplier's balance synchronized to
/// the accrued supply index (`floor(P * I / S)`), the accrued pool's available liquidity and
/// the vault's balance, and the pool can record it; the new balance is the synchronized
/// balance less the amount.
pub proof fn law_withdrawal_of_synchronized_balance_is_granted(ctx: WithdrawSuppliedUsdg, amount: u64, now: i64)
    requires
        spec_check_pool_accounts(ctx.lending_pool, ctx.protocol_config_key, ctx.usdg_mint, ctx.liquidity_vault) is Ok,
        ctx.supplier_position.owner@ == ctx.supplier@,
        ctx.supplier_position.lending_pool@ == ctx.lending_pool_key@,
        !ctx.protocol_config.paused,
        amount > 0,
        ctx.usdg_mint_decimals == 6,
        spec_accrue_pool_interest(ctx.lending_pool, ctx.lending_pool_key, now) is Ok,
        ({
            let p1 = spec_accrue_pool_interest(ctx.lending_pool, ctx.lending_pool_key, now)->Ok_0.0;
            let pos = ctx.supplier_position;
            &&& 0 < pos.supply_index_snapshot_e18 <= p1.supply_index_e18
            &&& pos.principal_usdg * p1.supply_index_e18 <= u128::MAX
            &&& amount <= pos.principal_usdg * p1.supply_index_e18 / (pos.supply_index_snapshot_e18 as int)
            &&& pos.principal_usdg * p1.supply_index_e18 / (pos.supply_index_snapshot_e18 as int) <= u64::MAX
            &&& spec_pool_available_liquidity(p1) is Ok
            &&& amount <= spec_pool_available_liquidity(p1)->Ok_0
            &&& amount <= ctx.liquidity_vault_amount
            &&& amount <= p1.total_supplied_usdg
            &&& spec_refresh_rate_cache(
                crate::state::LendingPool { total_supplied_usdg: (p1.total_supplied_usdg - amount) as u64, ..p1 },
            ) is Ok
        }),
    ensures
        spec_withdraw_supplied_usdg(ctx, amount, now) is Ok,
        ({
            let p1 = spec_accrue_pool_interest(ctx.lending_pool, ctx.lending_pool_key, now)->Ok_0.0;
            let pos = ctx.supplier_position;
            spec_withdraw_supplied_usdg(ctx, amount, now)->Ok_0.1.principal_usdg == pos.principal_usdg
                * p1.supply_index_e18 / (pos.supply_index_snapshot_e18 as int) - amount
        }),
{
    let p1 = spec_accrue_pool_interest(ctx.lending_pool, ctx.lending_pool_key, now)->Ok_0.0;
    let pos = ctx.supplier_position;
    let b = pos.principal_usdg * p1.supply_index_e18 / (pos.supply_index_snapshot_e18 as int);
    if pos.principal_usdg == 0 {
        assert(pos.principal_usdg * p1.supply_index_e18 == 0) by (nonlinear_arith)
            requires
                pos.principal_usdg == 0,
        ;
        vstd::arithmetic::div_mod::lemma_div_basics(pos.supply_index_snapshot_e18 as int);
    }
    assert(crate::interest::spec_grow_by_index(pos.principal_usdg, pos.supply_index_snapshot_e18, p1.supply_index_e18)
        == Ok::<u64, MiladyError>(b as u64));
}

/// Withdrawing collateral is granted whenever the accounts check out, the protocol is not
/// paused, the amount is positive and recorded, and either there is no debt or the
/// remaining collateral, at fresh prices, still covers the debt within its borrow limit
/// with a health factor above 100%.
pub proof fn law_safe_collateral_withdrawal_is_granted(ctx: WithdrawCollateral, amount: u64, now: i64)
    requires
        ctx.credit_account.owner@ == ctx.owner@,
        ctx.lending_pool.protocol@ == ctx.protocol_config_key@,
        ctx.market_config.protocol@ == ctx.protocol_config_key@,
        ctx.market_config.mint@ == ctx.collateral_mint@,
        !ctx.protocol_config.paused,
        amount > 0,
        amount <= ctx.market_config.total_deposited,
        spec_reduce_collateral(ctx.credit_account.collaterals@, ctx.market_config_key, amount) is Ok,
        ({
            let cs = spec_reduce_collateral(ctx.credit_account.collaterals@, ctx.market_config_key, amount)->Ok_0;
            let debt = ctx.credit_account.debt_usdg;
            debt > 0 ==> {
                let snap = spec_portfolio_risk(cs, debt, ctx.remaining_accounts@, true, now);
                &&& snap is Ok
                &&& debt <= snap->Ok_0.borrow_limit_usd_micro
                &&& snap->Ok_0.health_factor_bps > BPS_DENOMINATOR
            }
        }),
    ensures
        spec_withdraw_collateral(ctx, amount, now) == Ok::<(Seq<CollateralBalance>, u64), MiladyError>(
            (
                spec_reduce_collateral(ctx.credit_account.collaterals@, ctx.market_config_key, amount)->Ok_0,
                (ctx.market_config.total_deposited - amount) as u64,
            ),
        ),
{
}

/// The token amount bought by `usd_micro` at an oracle price is
/// `floor(usd_micro * 10^decimals / micro_price)`, and those tokens are worth no more than
/// `usd_micro`.
pub proof fn law_token_amount_for_usd(usd_micro: u64, decimals: u8, price: i64, exponent: i32)
    requires
        spec_usd_micro_to_token_amount(usd_micro, decimals, price, exponent) is Ok,
    ensures
        ({
            let mp = spec_micro_price(price, exponent)->Ok_0;
            let t = spec_usd_micro_to_token_amount(usd_micro, decimals, price, exponent)->Ok_0;
            &&& price > 0
            &&& spec_micro_price(price, exponent) is Ok
            &&& mp > 0
            &&& t == usd_micro * pow10_nat(decimals as nat) / (mp as int)
            &&& t * mp / (pow10_nat(decimals as nat) as int) <= usd_micro
        }),
{
    let mp = spec_micro_price(price, exponent)->Ok_0 as int;
    let sc = pow10_nat(decimals as nat) as int;
    let t = spec_usd_micro_to_token_amount(usd_micro, decimals, price, exponent)->Ok_0 as int;
    crate::risk::lemma_pow10_positive(decimals as nat);
    vstd::arithmetic::div_mod::lemma_fundamental_div_mod(usd_micro * sc, mp);
    assert(t * mp <= usd_micro * sc) by (nonlinear_arith)
        requires
            t == usd_micro * sc / mp,
            mp > 0,
            usd_micro * sc == mp * (usd_micro * sc / mp) + (usd_micro * sc) % mp,
            0 <= (usd_micro * sc) % mp,
    ;
    vstd::arithmetic::div_mod::lemma_div_is_ordered(t * mp, usd_micro * sc, sc);
    vstd::arithmetic::div_mod::lemma_div_multiples_vanish(usd_micro as int, sc);
    assert(usd_micro * sc == sc * usd_micro) by (nonlinear_arith);
}

/// The smaller of two integers.
pub open spec fn smaller(a: int, b: int) -> int {
    if a < b { a } else { b }
}

/// A successful liquidation repays the smallest of: the liquidator's cap, the borrower's
/// debt synchronized to the accrued borrow index (`floor(debt * I / S)`), the close-factor
/// limit (the close factor's share of that debt, at least one unit, at most the debt) and
/// the market's recorded collateral value net of its bonus
/// (`floor(value * 10_000 / (10_000 + bonus))`, with `value = floor(recorded * micro_price /
/// 10^decimals)`).
pub proof fn law_liquidation_repays_capped_amount(ctx: Liquidate, max_repay_usdg: u64, now: i64)
    requires
        spec_liquidate(ctx, max_repay_usdg, now) is Ok,
    ensures
        ({
            let (plan, cs) = spec_liquidate(ctx, max_repay_usdg, now)->Ok_0;
            let market = ctx.market_config;
            let account = ctx.credit_account;
            let d1 = plan.synced_debt as int;
            let oracle = spec_read_pyth_price(ctx.price_update, now, market)->Ok_0;
            let mp = spec_micro_price(oracle.price, oracle.exponent)->Ok_0;
            let recorded = recorded_collateral(account.collaterals@, ctx.market_config_key@);
            let value = recorded * mp / (pow10_nat(market.decimals as nat) as int);
            let share = d1 * ctx.lending_pool.liquidation_close_factor_bps / (BPS_DENOMINATOR as int);
            let close_limit = smaller(if share < 1 { 1 } else { share }, d1);
            let by_collateral = value * BPS_DENOMINATOR / (BPS_DENOMINATOR + market.liquidation_bonus_bps);
            &&& account.borrow_index_snapshot_e18 > 0
            &&& d1 == account.debt_usdg * plan.accrued_pool.borrow_index_e18 / (
            account.borrow_index_snapshot_e18 as int)
            &&& plan.repay == smaller(
                smaller(smaller(max_repay_usdg as int, d1), close_limit),
                by_collateral,
            )
        }),
{
    let (p1, a) = crate::interest::spec_accrue_pool_interest(ctx.lending_pool, ctx.lending_pool_key, now)->Ok_0;
    lemma_grown_balance(ctx.credit_account.debt_usdg, ctx.credit_account.borrow_index_snapshot_e18, p1.borrow_index_e18);
    let market = ctx.market_config;
    let oracle = spec_read_pyth_price(ctx.price_update, now, market)->Ok_0;
    let cs = ctx.credit_account.collaterals@;
    let recorded = cs[crate::risk::first_match(cs, ctx.market_config_key@)].amount;
    law_token_value_per_whole_token(recorded, market.decimals, oracle.price, oracle.exponent);
}

/// The borrow-rate curve starts at the base rate at zero utilization, reaches base +
/// slope1 at the kink and base + slope1 + slope2 at full utilization; the pool's borrow
/// APR is that curve at its utilization, which is the lent share of net assets in bps,
/// capped at 100%.
pub proof fn law_rate_curve_anchors(base: int, slope1: int, slope2: int, kink: int)
    requires
        0 < kink < BPS_DENOMINATOR,
        slope1 >= 0,
        slope2 >= 0,
    ensures
        rate_curve(base, slope1, slope2, kink, 0) == base,
        rate_curve(base, slope1, slope2, kink, kink) == base + slope1,
        rate_curve(base, slope1, slope2, kink, BPS_DENOMINATOR as int) == base + slope1 + slope2,
{
    assert(slope1 * 0 == 0) by (nonlinear_arith);
    vstd::arithmetic::div_mod::lemma_div_basics(kink);
    vstd::arithmetic::div_mod::lemma_div_by_multiple(slope1, kink);
    vstd::arithmetic::div_mod::lemma_div_by_multiple(slope2, BPS_DENOMINATOR - kink);
}

/// The pool's utilization is `floor(borrowed * 10_000 / net assets)` capped at 10_000 (zero
/// with nothing borrowed), and its borrow APR is the rate curve at that utilization.
pub proof fn law_borrow_apr_follows_utilization(pool: crate::state::LendingPool)
    requires
        crate::interest::kink_nonzero(pool),
        spec_borrow_apr_bps(pool) is Ok,
    ensures
        ({
            let u = spec_utilization_bps(pool)->Ok_0;
            let assets = pool.total_supplied_usdg + pool.protocol_reserves_usdg
                + pool.insurance_reserve_usdg - pool.bad_debt_usdg;
            &&& spec_utilization_bps(pool) is Ok
            &&& pool.total_borrowed_usdg == 0 ==> u == 0
            &&& pool.total_borrowed_usdg > 0 ==> assets > 0 && u == smaller(
                pool.total_borrowed_usdg * 10_000 / assets,
                10_000,
            )
            &&& spec_borrow_apr_bps(pool)->Ok_0 == rate_curve(
                pool.base_rate_bps as int,
                pool.slope1_bps as int,
                pool.slope2_bps as int,
                pool.kink_utilization_bps as int,
                u as int,
            )
        }),
{
    let u = spec_utilization_bps(pool)->Ok_0 as int;
    let k = pool.kink_utilization_bps as int;
    let s1 = pool.slope1_bps as int;
    let s2 = pool.slope2_bps as int;
    assert(s1 * u >= 0) by (nonlinear_arith)
        requires
            s1 >= 0,
            u >= 0,
    ;
    vstd::arithmetic::div_mod::lemma_div_pos_is_pos(s1 * u, k);
    if u > k {
        assert(s2 * (u - k) >= 0) by (nonlinear_arith)
            requires
                s2 >= 0,
                u > k,
        ;
        vstd::arithmetic::div_mod::lemma_div_pos_is_pos(s2 * (u - k), BPS_DENOMINATOR - k);
    }
}

/// A borrow is granted whenever the accounts check out, the protocol is not paused,
/// borrowing is enabled, the amount is positive and the USDG mint has 6 decimals, and,
/// against the accrued pool and the borrower's debt synchronized to its borrow index
/// (`floor(debt * I / S)`), the pool holds the amount idle, the cap leaves room, and the
/// fresh portfolio covers the new debt within its borrow limit with a health factor above
/// 100%; the new debt is the synchronized debt plus the amount.
pub proof fn law_covered_borrow_is_granted(ctx: BorrowUsdg, amount: u64, now: i64)
    requires
        ctx.credit_account.owner@ == ctx.borrower@,
        spec_check_pool_accounts(ctx.lending_pool, ctx.protocol_config_key, ctx.usdg_mint, ctx.liquidity_vault) is Ok,
        !ctx.protocol_config.paused,
        amount > 0,
        ctx.usdg_mint_decimals == 6,
        ctx.lending_pool.borrow_enabled,
        spec_accrue_pool_interest(ctx.lending_pool, ctx.lending_pool_key, now) is Ok,
        ({
            let p1 = spec_accrue_pool_interest(ctx.lending_pool, ctx.lending_pool_key, now)->Ok_0.0;
            let account = ctx.credit_account;
            let s = account.borrow_index_snapshot_e18;
            let d1 = account.debt_usdg * p1.borrow_index_e18 / (s as int);
            let snap = spec_portfolio_risk(account.collaterals@, d1 as u64, ctx.remaining_accounts@, true, now);
            &&& 0 < s <= p1.borrow_index_e18
            &&& account.debt_usdg * p1.borrow_index_e18 <= u128::MAX
            &&& d1 + amount <= u64::MAX
            &&& spec_pool_available_liquidity(p1) is Ok
            &&& amount <= spec_pool_available_liquidity(p1)->Ok_0
            &&& amount <= ctx.liquidity_vault_amount
            &&& p1.total_borrowed_usdg + amount <= u64::MAX
            &&& (p1.borrow_cap_usdg == 0 || p1.total_borrowed_usdg + amount <= p1.borrow_cap_usdg)
            &&& snap is Ok
            &&& d1 + amount <= snap->Ok_0.borrow_limit_usd_micro
            &&& spec_health_factor_bps(snap->Ok_0.liquidation_capacity_usd_micro, (d1 + amount) as u64)
                > BPS_DENOMINATOR
            &&& spec_refresh_rate_cache(
                crate::state::LendingPool { total_borrowed_usdg: (p1.total_borrowed_usdg + amount) as u64, ..p1 },
            ) is Ok
        }),
    ensures
        spec_borrow_usdg(ctx, amount, now) is Ok,
        ({
            let p1 = spec_accrue_pool_interest(ctx.lending_pool, ctx.lending_pool_key, now)->Ok_0.0;
            let account = ctx.credit_account;
            let d1 = account.debt_usdg * p1.borrow_index_e18 / (account.borrow_index_snapshot_e18 as int);
            &&& spec_borrow_usdg(ctx, amount, now)->Ok_0.synced_debt == d1
            &&& spec_borrow_usdg(ctx, amount, now)->Ok_0.new_debt == d1 + amount
        }),
{
    let p1 = spec_accrue_pool_interest(ctx.lending_pool, ctx.lending_pool_key, now)->Ok_0.0;
    lemma_grow_value(ctx.credit_account.debt_usdg, ctx.credit_account.borrow_index_snapshot_e18, p1.borrow_index_e18);
}

/// Growing a balance between two positive indexes succeeds when the product fits, and
/// gives `floor(balance * index / snapshot)`.
proof fn lemma_grow_value(balance: u64, snapshot: u128, index: u128)
    requires
        0 < snapshot <= index,
        balance * index <= u128::MAX,
        balance * index / (snapshot as int) <= u64::MAX,
    ensures
        crate::interest::spec_grow_by_index(balance, snapshot, index) == Ok::<u64, MiladyError>(
            (balance * index / (snapshot as int)) as u64,
        ),
{
    if balance == 0 {
        assert(balance * index == 0) by (nonlinear_arith)
            requires
                balance == 0,
        ;
        vstd::arithmetic::div_mod::lemma_div_basics(snapshot as int);
    }
}

/// A repayment is granted whenever the account belongs to the expected owner, the pool's
/// accounts check out, the USDG mint has 6 decimals and, against the accrued pool and the
/// debt synchronized to its borrow index (`floor(debt * I / S)`), that debt is positive,
/// the request is MAX or a positive amount at most that debt, the payer holds the amount
/// and the pool can record it; it settles exactly the requested amount (the whole
/// synchronized debt for MAX) and leaves the rest owed.
pub proof fn law_covered_repayment_is_granted(
    account: CreditAccount,
    pool: crate::state::LendingPool,
    pool_key: Pubkey,
    protocol_key: Pubkey,
    usdg_mint: Pubkey,
    liquidity_vault: Pubkey,
    payer_usdg_amount: u64,
    expected_owner: Pubkey,
    requested: Option<u64>,
    now: i64,
)
    requires
        account.owner@ == expected_owner@,
        spec_check_pool_accounts(pool, protocol_key, usdg_mint, liquidity_vault) is Ok,
        spec_accrue_pool_interest(pool, pool_key, now) is Ok,
        ({
            let p1 = spec_accrue_pool_interest(pool, pool_key, now)->Ok_0.0;
            let s = account.borrow_index_snapshot_e18;
            let d1 = account.debt_usdg * p1.borrow_index_e18 / (s as int);
            let amount = match requested { Some(x) => x as int, None => d1 };
            &&& 0 < s <= p1.borrow_index_e18
            &&& account.debt_usdg * p1.borrow_index_e18 <= u128::MAX
            &&& d1 <= u64::MAX
            &&& d1 > 0
            &&& 0 < amount <= d1
            &&& amount <= payer_usdg_amount
            &&& amount <= p1.total_borrowed_usdg
            &&& spec_pool_available_liquidity(p1) is Ok
            &&& spec_refresh_rate_cache(
                crate::state::LendingPool { total_borrowed_usdg: (p1.total_borrowed_usdg - amount) as u64, ..p1 },
            ) is Ok
        }),
    ensures
        spec_repay(account, pool, pool_key, protocol_key, usdg_mint, liquidity_vault, 6, payer_usdg_amount, expected_owner, requested, now) is Ok,
        ({
            let p1 = spec_accrue_pool_interest(pool, pool_key, now)->Ok_0.0;
            let d1 = account.debt_usdg * p1.borrow_index_e18 / (account.borrow_index_snapshot_e18 as int);
            let amount = match requested { Some(x) => x as int, None => d1 };
            let plan = spec_repay(account, pool, pool_key, protocol_key, usdg_mint, liquidity_vault, 6, payer_usdg_amount, expected_owner, requested, now)->Ok_0;
            &&& plan.synced_debt == d1
            &&& plan.amount == amount
            &&& plan.remaining_debt == d1 - amount
        }),
{
    let p1 = spec_accrue_pool_interest(pool, pool_key, now)->Ok_0.0;
    lemma_grow_value(account.debt_usdg, account.borrow_index_snapshot_e18, p1.borrow_index_e18);
}

/// A collateral deposit is granted whenever the accounts check out, the protocol is not
/// paused, the market is enabled, the amount is positive, the market's total stays within
/// its supply cap and the account either already records the market (without overflow)
/// or has room for another entry; it records exactly the amount more for the market.
pub proof fn law_covered_deposit_is_granted(ctx: DepositCollateral, amount: u64)
    requires
        collaterals_well_formed(ctx.credit_account.collaterals@),
        ctx.credit_account.owner@ == ctx.owner@,
        ctx.market_config.protocol@ == ctx.protocol_config_key@,
        ctx.market_config.mint@ == ctx.collateral_mint@,
        !ctx.protocol_config.paused,
        ctx.market_config.enabled,
        amount > 0,
        ctx.market_config.total_deposited + amount <= u64::MAX,
        ctx.market_config.supply_cap == 0 || ctx.market_config.total_deposited + amount
            <= ctx.market_config.supply_cap,
        recorded_collateral(ctx.credit_account.collaterals@, ctx.market_config_key@) + amount <= u64::MAX,
        has_match(ctx.credit_account.collaterals@, ctx.market_config_key@)
            || ctx.credit_account.collaterals@.len() < crate::constants::MAX_COLLATERAL_ASSETS,
    ensures
        spec_deposit_collateral(ctx, amount) is Ok,
        recorded_collateral(spec_deposit_collateral(ctx, amount)->Ok_0.0, ctx.market_config_key@)
            == recorded_collateral(ctx.credit_account.collaterals@, ctx.market_config_key@) + amount,
        spec_deposit_collateral(ctx, amount)->Ok_0.1 == ctx.market_config.total_deposited + amount,
{
    crate::laws_collateral::law_deposit_records_amount(ctx.credit_account.collaterals@, ctx.market_config_key, amount);
}

/// Health is the liquidation capacity over the debt in bps (`floor(capacity * 10_000 /
/// debt)`), saturating at `u64::MAX`, which is also the health of a debt-free account.
pub proof fn law_health_is_capacity_over_debt(capacity: u64, debt: u64)
    ensures
        debt == 0 ==> spec_health_factor_bps(capacity, debt) == u64::MAX,
        debt > 0 ==> spec_health_factor_bps(capacity, debt) == smaller(
            capacity * 10_000 / (debt as int),
            u64::MAX as int,
        ),
{
    if debt > 0 {
        assert(capacity * 10_000 >= 0) by (nonlinear_arith);
        vstd::arithmetic::div_mod::lemma_div_pos_is_pos(capacity * 10_000, debt as int);
    }
}

/// A value weighted by a ratio in bps is `floor(value * bps / 10_000)`.
pub proof fn law_weighted_value_is_bps_share(value: u64, bps: u16)
    ensures
        spec_weighted_value(value, bps) == value * bps / 10_000,
{
    crate::interest::lemma_mul_le(value as int, bps as int, u64::MAX as int, u16::MAX as int);
    crate::interest::lemma_div_le(value * bps, value * bps, 10_000);
}

/// The supply APR is the borrow rate scaled by the share of supplier claims that is lent
/// and by the suppliers' share after the reserve factor:
/// `floor(rate * borrowed * (10_000 - reserve_factor) / (supplied * 10_000))`, zero when
/// nothing is supplied or borrowed.
pub proof fn law_supply_apr_formula(pool: crate::state::LendingPool, borrow_rate_bps: u32)
    requires
        spec_supply_apr_bps(pool, borrow_rate_bps) is Ok,
    ensures
        (pool.total_supplied_usdg == 0 || pool.total_borrowed_usdg == 0) ==> spec_supply_apr_bps(
            pool,
            borrow_rate_bps,
        )->Ok_0 == 0,
        (pool.total_supplied_usdg > 0 && pool.total_borrowed_usdg > 0) ==> spec_supply_apr_bps(
            pool,
            borrow_rate_bps,
        )->Ok_0 == borrow_rate_bps * pool.total_borrowed_usdg * (10_000 - pool.reserve_factor_bps)
            / (pool.total_supplied_usdg * 10_000),
{
    if pool.total_supplied_usdg > 0 && pool.total_borrowed_usdg > 0 {
        let n = borrow_rate_bps * pool.total_borrowed_usdg * (10_000 - pool.reserve_factor_bps);
        let d = pool.total_supplied_usdg * 10_000;
        assert(n >= 0 && d > 0) by (nonlinear_arith)
            requires
                pool.total_supplied_usdg > 0,
                pool.reserve_factor_bps <= 10_000,
                n == borrow_rate_bps * pool.total_borrowed_usdg * (10_000 - pool.reserve_factor_bps),
                d == pool.total_supplied_usdg * 10_000,
        ;
        vstd::arithmetic::div_mod::lemma_div_pos_is_pos(n, d);
    }
}

/// Synchronizing a balance from index `snapshot` to `index` gives
/// `floor(balance * index / snapshot)`.
pub proof fn law_synchronized_balance_formula(balance: u64, snapshot: u128, index: u128)
    requires
        spec_grow_by_index(balance, snapshot, index) is Ok,
    ensures
        0 < snapshot <= index,
        spec_grow_by_index(balance, snapshot, index)->Ok_0 == balance * index / (snapshot as int),
{
    lemma_grown_balance(balance, snapshot, index);
}

/// An index grows by the interest-to-principal ratio: `index + floor(index * interest /
/// principal)`, unchanged when there is no principal or no interest.
pub proof fn law_index_growth_formula(index: u128, principal: u64, interest: u64)
    requires
        spec_apply_index_interest(index, principal, interest) is Ok,
    ensures
        (principal == 0 || interest == 0) ==> spec_apply_index_interest(index, principal, interest)->Ok_0
            == index,
        (principal > 0 && interest > 0) ==> spec_apply_index_interest(index, principal, interest)->Ok_0
            == index + index * interest / (principal as int),
{
    if principal > 0 && interest > 0 {
        assert(index * interest >= 0) by (nonlinear_arith);
        vstd::arithmetic::div_mod::lemma_div_pos_is_pos(index * interest, principal as int);
    }
}

/// An oracle price is accepted exactly when it is positive and its confidence band is at
/// most `max_confidence_bps` of the price: `conf * 10_000 <= price * max_confidence_bps`.
pub proof fn law_confidence_band(price: i64, conf: u64, max_confidence_bps: u16)
    ensures
        (spec_validate_oracle_confidence(price, conf, max_confidence_bps) is Ok) <==> (price > 0 && conf
            * 10_000 <= price * max_confidence_bps),
{
}

} // verus!
