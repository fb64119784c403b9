//! Properties of the interest engine that span several calls or hold of every input:
//! what an accrual conserves, how the fractional remainder loses nothing, and the
//! shape of the rate curve.
use vstd::prelude::*;
use crate::constants::BPS_DENOMINATOR;
use crate::pubkey::Pubkey;
use crate::state::{LendingPool, InitializeLendingPoolArgs, UpdateLendingPoolArgs};
use crate::accounts_lending::{InitializeLendingPool, UpdateLendingPool};
use crate::handlers_lending::{spec_initialize_lending_pool_check, spec_initialized_pool, spec_update_lending_pool};
use crate::interest::{
    interest_denominator, net_position, rate_curve, reserve_share,
    spec_accrue_pool_interest, spec_annual_interest_with_remainder, spec_grow_by_index,
    spec_pool_available_liquidity, spec_refresh_rate_cache, spec_validate_interest_model,
    kink_nonzero, spec_borrow_apr_bps,
};

verus! {

/// Refreshing the rate cache only rewrites the two cached rates.
pub proof fn law_rate_refresh_touches_only_rates(pool: LendingPool)
    requires
        spec_refresh_rate_cache(pool) is Ok,
    ensures
        ({
            let p = spec_refresh_rate_cache(pool)->Ok_0;
            p == LendingPool {
                last_borrow_apr_bps: p.last_borrow_apr_bps,
                last_supply_apr_bps: p.last_supply_apr_bps,
                ..pool
            }
        }),
{
}

/// An accrual moves interest from borrowers to suppliers and protocol reserves without
/// creating or destroying liquidity: the gross interest added to total borrows is split
/// exactly into the suppliers' share and the reserve factor's share, so the pool's net
/// position (and hence its available liquidity) is unchanged; both indexes only grow and
/// the accrual clock moves to `now`.
pub proof fn law_accrual_conserves_liquidity(pool: LendingPool, pool_key: Pubkey, now: i64)
    requires
        spec_accrue_pool_interest(pool, pool_key, now) is Ok,
    ensures
        ({
            let (p, a) = spec_accrue_pool_interest(pool, pool_key, now)->Ok_0;
            &&& a.gross_interest_usdg == a.supplier_interest_usdg + a.reserve_interest_usdg
            &&& a.reserve_interest_usdg == reserve_share(
                a.gross_interest_usdg as int,
                pool.reserve_factor_bps as int,
            )
            &&& a.reserve_interest_usdg == a.gross_interest_usdg * pool.reserve_factor_bps / 10_000
            &&& a.elapsed_seconds == now - pool.last_accrual_ts
            &&& spec_borrow_apr_bps(pool) == Ok::<u32, crate::errors::MiladyError>(a.borrow_apr_bps)
            &&& a.gross_interest_usdg * (31_536_000 * 10_000) + p.borrow_interest_remainder
                == pool.total_borrowed_usdg * a.borrow_apr_bps * a.elapsed_seconds
                + pool.borrow_interest_remainder
            &&& p.total_borrowed_usdg == pool.total_borrowed_usdg + a.gross_interest_usdg
            &&& p.total_supplied_usdg == pool.total_supplied_usdg + a.supplier_interest_usdg
            &&& p.protocol_reserves_usdg == pool.protocol_reserves_usdg + a.reserve_interest_usdg
            &&& p.insurance_reserve_usdg == pool.insurance_reserve_usdg
            &&& p.bad_debt_usdg == pool.bad_debt_usdg
            &&& net_position(p) == net_position(pool)
            &&& spec_pool_available_liquidity(p) == spec_pool_available_liquidity(pool)
            &&& p.borrow_index_e18 >= pool.borrow_index_e18
            &&& p.supply_index_e18 >= pool.supply_index_e18
            &&& p.last_accrual_ts == now
        }),
{
    let (p, a) = spec_accrue_pool_interest(pool, pool_key, now)->Ok_0;
    if now - pool.last_accrual_ts == 0 {
        assert(pool.total_borrowed_usdg * a.borrow_apr_bps * a.elapsed_seconds == 0) by (nonlinear_arith)
            requires
                a.elapsed_seconds == 0,
        ;
    } else {
        let rate = crate::interest::spec_borrow_apr_bps(pool)->Ok_0;
        let (gross, rem) = spec_annual_interest_with_remainder(
            pool.total_borrowed_usdg,
            rate,
            (now - pool.last_accrual_ts) as u64,
            pool.borrow_interest_remainder,
        )->Ok_0;
        let reserve = reserve_share(gross as int, pool.reserve_factor_bps as int);
        let supplier = gross - reserve;
        lemma_index_grows(pool.borrow_index_e18, pool.total_borrowed_usdg, gross);
        law_interest_nothing_lost(
            pool.total_borrowed_usdg,
            rate,
            (now - pool.last_accrual_ts) as u64,
            pool.borrow_interest_remainder,
        );
        lemma_index_grows(pool.supply_index_e18, pool.total_supplied_usdg, supplier as u64);
    }
}

/// `spec_apply_index_interest` never lowers an index.
proof fn lemma_index_grows(index: u128, principal: u64, interest: u64)
    requires
        crate::interest::spec_apply_index_interest(index, principal, interest) is Ok,
    ensures
        crate::interest::spec_apply_index_interest(index, principal, interest)->Ok_0 >= index,
{
    if principal != 0 && interest != 0 {
        assert(index * interest >= 0) by (nonlinear_arith);
        vstd::arithmetic::div_mod::lemma_div_pos_is_pos(index * interest, principal as int);
    }
}

/// Nothing is lost to rounding: the interest charged times the per-year denominator,
/// plus the remainder carried out, equals the exact numerator `principal * apr * elapsed`
/// plus the remainder carried in. The carried remainder stays below the denominator.
pub proof fn law_interest_nothing_lost(principal: u64, apr_bps: u32, elapsed: u64, remainder: u128)
    requires
        spec_annual_interest_with_remainder(principal, apr_bps, elapsed, remainder) is Ok,
    ensures
        ({
            let (i, r) = spec_annual_interest_with_remainder(
                principal,
                apr_bps,
                elapsed,
                remainder,
            )->Ok_0;
            &&& interest_denominator() == 31_536_000 * 10_000
            &&& i * interest_denominator() + r == principal * apr_bps * elapsed + remainder
            &&& remainder < interest_denominator() ==> r < interest_denominator()
            &&& (principal > 0 && apr_bps > 0 && elapsed > 0) ==> r < interest_denominator()
        }),
{
    let num = principal * apr_bps * elapsed + remainder;
    if !(principal == 0 || apr_bps == 0 || elapsed == 0) {
        vstd::arithmetic::div_mod::lemma_fundamental_div_mod(num, interest_denominator());
        assert(num / interest_denominator() * interest_denominator() == interest_denominator() * (
        num / interest_denominator())) by (nonlinear_arith);
    } else {
        assert(principal * apr_bps * elapsed == 0) by (nonlinear_arith)
            requires
                principal == 0 || apr_bps == 0 || elapsed == 0,
        ;
    }
}

/// Splitting an accrual period in two, carrying the remainder from the first call into
/// the second, charges exactly what one call over the whole period would: frequent
/// accruals cannot suppress sub-unit interest.
pub proof fn law_split_accrual_matches_whole(
    principal: u64,
    apr_bps: u32,
    t1: u64,
    t2: u64,
    remainder: u128,
)
    requires
        remainder < interest_denominator(),
        spec_annual_interest_with_remainder(principal, apr_bps, t1, remainder) is Ok,
        spec_annual_interest_with_remainder(
            principal,
            apr_bps,
            t2,
            spec_annual_interest_with_remainder(principal, apr_bps, t1, remainder)->Ok_0.1,
        ) is Ok,
    ensures
        ({
            let (i1, r1) = spec_annual_interest_with_remainder(
                principal,
                apr_bps,
                t1,
                remainder,
            )->Ok_0;
            let (i2, r2) = spec_annual_interest_with_remainder(principal, apr_bps, t2, r1)->Ok_0;
            let whole = principal * apr_bps * (t1 + t2) + remainder;
            &&& i1 + i2 == whole / interest_denominator()
            &&& r2 == whole % interest_denominator()
        }),
{
    let (i1, r1) = spec_annual_interest_with_remainder(principal, apr_bps, t1, remainder)->Ok_0;
    let (i2, r2) = spec_annual_interest_with_remainder(principal, apr_bps, t2, r1)->Ok_0;
    law_interest_nothing_lost(principal, apr_bps, t1, remainder);
    law_interest_nothing_lost(principal, apr_bps, t2, r1);
    let d = interest_denominator();
    let whole = principal * apr_bps * (t1 + t2) + remainder;
    assert(principal * apr_bps * (t1 + t2) == principal * apr_bps * t1 + principal * apr_bps * t2)
        by (nonlinear_arith);
    assert((i1 + i2) * d == i1 * d + i2 * d) by (nonlinear_arith);
    assert(whole == (i1 + i2) * d + r2);
    vstd::arithmetic::div_mod::lemma_fundamental_div_mod_converse(whole, d, (i1 + i2) as int, r2 as int);
}

/// An accrual that charges no whole unit still carries the whole numerator forward: the
/// remainder strictly grows when principal, rate and elapsed time are all positive.
pub proof fn law_sub_unit_interest_is_carried(
    principal: u64,
    apr_bps: u32,
    elapsed: u64,
    remainder: u128,
)
    requires
        principal > 0,
        apr_bps > 0,
        elapsed > 0,
        spec_annual_interest_with_remainder(principal, apr_bps, elapsed, remainder) is Ok,
        spec_annual_interest_with_remainder(principal, apr_bps, elapsed, remainder)->Ok_0.0 == 0,
    ensures
        spec_annual_interest_with_remainder(principal, apr_bps, elapsed, remainder)->Ok_0.1
            > remainder,
{
    law_interest_nothing_lost(principal, apr_bps, elapsed, remainder);
    assert(principal * apr_bps * elapsed > 0) by (nonlinear_arith)
        requires
            principal > 0,
            apr_bps > 0,
            elapsed > 0,
    ;
}

/// The borrow-rate curve never falls as utilization rises, for every kink strictly
/// inside (0, 100%] and non-negative slopes.
pub proof fn law_rate_curve_monotone(
    base: int,
    slope1: int,
    slope2: int,
    kink: int,
    u1: int,
    u2: int,
)
    requires
        0 < kink <= BPS_DENOMINATOR,
        slope1 >= 0,
        slope2 >= 0,
        0 <= u1 <= u2 <= BPS_DENOMINATOR,
    ensures
        rate_curve(base, slope1, slope2, kink, u1) <= rate_curve(base, slope1, slope2, kink, u2),
{
    assert(slope1 * u1 <= slope1 * u2) by (nonlinear_arith)
        requires
            slope1 >= 0,
            u1 <= u2,
    ;
    if u2 <= kink {
        vstd::arithmetic::div_mod::lemma_div_is_ordered(slope1 * u1, slope1 * u2, kink);
    } else if u1 <= kink {
        assert(slope1 * u1 <= slope1 * kink) by (nonlinear_arith)
            requires
                slope1 >= 0,
                u1 <= kink,
        ;
        vstd::arithmetic::div_mod::lemma_div_is_ordered(slope1 * u1, slope1 * kink, kink);
        vstd::arithmetic::div_mod::lemma_div_by_multiple(slope1, kink);
        assert(slope2 * (u2 - kink) >= 0) by (nonlinear_arith)
            requires
                slope2 >= 0,
                u2 > kink,
        ;
        vstd::arithmetic::div_mod::lemma_div_pos_is_pos(
            slope2 * (u2 - kink),
            BPS_DENOMINATOR - kink,
        );
    } else {
        assert(slope2 * (u1 - kink) <= slope2 * (u2 - kink)) by (nonlinear_arith)
            requires
                slope2 >= 0,
                u1 <= u2,
        ;
        vstd::arithmetic::div_mod::lemma_div_is_ordered(
            slope2 * (u1 - kink),
            slope2 * (u2 - kink),
            BPS_DENOMINATOR - kink,
        );
    }
}

/// Every interest model the protocol accepts has its kink strictly inside (0, 100%) and
/// a curve whose highest rate is within the safety ceiling.
pub proof fn law_accepted_model_is_well_formed(
    reserve_factor_bps: u16,
    base_rate_bps: u32,
    slope1_bps: u32,
    slope2_bps: u32,
    kink_utilization_bps: u16,
)
    requires
        spec_validate_interest_model(
            reserve_factor_bps,
            base_rate_bps,
            slope1_bps,
            slope2_bps,
            kink_utilization_bps,
        ) is Ok,
    ensures
        0 < kink_utilization_bps < BPS_DENOMINATOR,
        reserve_factor_bps <= crate::constants::MAX_RESERVE_FACTOR_BPS,
        forall|u: int|
            0 <= u <= BPS_DENOMINATOR ==> #[trigger] rate_curve(
                base_rate_bps as int,
                slope1_bps as int,
                slope2_bps as int,
                kink_utilization_bps as int,
                u,
            ) <= crate::constants::MAX_BORROW_APR_BPS,
{
    assert forall|u: int| 0 <= u <= BPS_DENOMINATOR implies #[trigger] rate_curve(
        base_rate_bps as int,
        slope1_bps as int,
        slope2_bps as int,
        kink_utilization_bps as int,
        u,
    ) <= crate::constants::MAX_BORROW_APR_BPS by {
        law_rate_curve_monotone(
            base_rate_bps as int,
            slope1_bps as int,
            slope2_bps as int,
            kink_utilization_bps as int,
            u,
            BPS_DENOMINATOR as int,
        );
        let k = kink_utilization_bps as int;
        let s2 = slope2_bps as int;
        assert(s2 * (BPS_DENOMINATOR - k) / (BPS_DENOMINATOR - k) == s2) by {
            vstd::arithmetic::div_mod::lemma_div_by_multiple(s2, BPS_DENOMINATOR - k);
        }
    }
}

/// Every lending pool the program creates or reconfigures has a kink strictly inside
/// (0, 100%), and accruing interest never changes the rate model: the positive kink that
/// the rate-dependent handlers rely on is an invariant of every pool.
pub proof fn law_pools_keep_a_positive_kink(
    init: InitializeLendingPool,
    init_args: InitializeLendingPoolArgs,
    update: UpdateLendingPool,
    update_args: UpdateLendingPoolArgs,
    pool: LendingPool,
    pool_key: Pubkey,
    now: i64,
)
    ensures
        spec_initialize_lending_pool_check(init, init_args) is Ok ==> kink_nonzero(
            spec_initialized_pool(init, init_args, now),
        ),
        spec_update_lending_pool(update, update_args, now) is Ok ==> kink_nonzero(
            spec_update_lending_pool(update, update_args, now)->Ok_0.0,
        ),
        spec_accrue_pool_interest(pool, pool_key, now) is Ok ==> spec_accrue_pool_interest(
            pool,
            pool_key,
            now,
        )->Ok_0.0.kink_utilization_bps == pool.kink_utilization_bps,
{
}

/// Synchronizing a balance to a later index never shrinks it.
pub proof fn law_index_sync_never_shrinks(balance: u64, snapshot: u128, index: u128)
    requires
        spec_grow_by_index(balance, snapshot, index) is Ok,
    ensures
        spec_grow_by_index(balance, snapshot, index)->Ok_0 >= balance,
        index == snapshot ==> spec_grow_by_index(balance, snapshot, index)->Ok_0 == balance,
{
    if balance != 0 {
        assert(balance * snapshot <= balance * index) by (nonlinear_arith)
            requires
                snapshot <= index,
        ;
        vstd::arithmetic::div_mod::lemma_div_is_ordered(
            balance * snapshot,
            balance * index,
            snapshot as int,
        );
        assert(balance * snapshot == snapshot * balance) by (nonlinear_arith);
        vstd::arithmetic::div_mod::lemma_div_multiples_vanish(balance as int, snapshot as int);
    }
}

} // verus!
