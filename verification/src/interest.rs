//! The interest engine: balance sheet, utilization-based rate curve, index accrual
//! with fractional-remainder carry, and lazy borrower/supplier synchronization.
use vstd::prelude::*;
use crate::constants::{BPS_DENOMINATOR, MAX_RESERVE_FACTOR_BPS, MAX_BORROW_APR_BPS, SECONDS_PER_YEAR};
use crate::errors::MiladyError;
use crate::pubkey::Pubkey;
use crate::state::{LendingPool, CreditAccount, SupplierPosition};
use crate::events::InterestAccrued;

verus! {

/// What one accrual did: elapsed time, the rates it charged and the interest split.
#[derive(Clone, Copy, Debug)]
pub struct InterestAccrual {
    /// The pool that accrued.
    pub lending_pool: Pubkey,
    pub elapsed_seconds: u64,
    /// Utilization after the accrual.
    pub utilization_bps: u16,
    /// Borrow APR charged over the elapsed period.
    pub borrow_apr_bps: u32,
    /// Supply APR in force over the elapsed period.
    pub supply_apr_bps: u32,
    pub gross_interest_usdg: u64,
    pub supplier_interest_usdg: u64,
    pub reserve_interest_usdg: u64,
}

/// Numerator scale of the per-second interest formula: seconds per year times bps.
pub open spec fn interest_denominator() -> int {
    SECONDS_PER_YEAR * BPS_DENOMINATOR
}

/// `a * b <= ba * bb` for bounded non-negative factors.
pub proof fn lemma_mul_le(a: int, b: int, ba: int, bb: int)
    requires
        0 <= a <= ba,
        0 <= b <= bb,
    ensures
        a * b <= ba * bb,
        0 <= a * b,
{
    assert(a * b <= ba * b) by (nonlinear_arith)
        requires
            0 <= a <= ba,
            0 <= b,
    ;
    assert(ba * b <= ba * bb) by (nonlinear_arith)
        requires
            0 <= ba,
            0 <= b <= bb,
    ;
    assert(0 <= a * b) by (nonlinear_arith)
        requires
            0 <= a,
            0 <= b,
    ;
}

/// `a / d <= b / d` when `a <= b`, and `a / d <= a`.
pub proof fn lemma_div_le(a: int, b: int, d: int)
    requires
        0 <= a <= b,
        0 < d,
    ensures
        a / d <= b / d,
        a / d <= a,
        0 <= a / d,
{
    vstd::arithmetic::div_mod::lemma_div_is_ordered(a, b, d);
    vstd::arithmetic::div_mod::lemma_div_is_ordered_by_denominator(a, 1, d);
    vstd::arithmetic::div_mod::lemma_div_pos_is_pos(a, d);
}

// ------------------------------------------------------------------------------------
// Interest-model validation
// ------------------------------------------------------------------------------------

/// When an interest model is accepted, and which error refuses it.
pub open spec fn spec_validate_interest_model(
    reserve_factor_bps: u16,
    base_rate_bps: u32,
    slope1_bps: u32,
    slope2_bps: u32,
    kink_utilization_bps: u16,
) -> Result<(), MiladyError> {
    if reserve_factor_bps > MAX_RESERVE_FACTOR_BPS {
        Err(MiladyError::InvalidReserveFactor)
    } else if !(kink_utilization_bps > 0 && kink_utilization_bps < BPS_DENOMINATOR) {
        Err(MiladyError::InvalidInterestKink)
    } else if base_rate_bps + slope1_bps + slope2_bps > u32::MAX {
        Err(MiladyError::MathOverflow)
    } else if base_rate_bps + slope1_bps + slope2_bps > MAX_BORROW_APR_BPS {
        Err(MiladyError::InterestRateTooHigh)
    } else {
        Ok(())
    }
}

/// Checks the reserve factor, the kink and the curve's maximum rate against the
/// protocol's safety bounds.
pub fn validate_interest_model(
    reserve_factor_bps: u16,
    base_rate_bps: u32,
    slope1_bps: u32,
    slope2_bps: u32,
    kink_utilization_bps: u16,
) -> (r: Result<(), MiladyError>)
    ensures
        r == spec_validate_interest_model(
            reserve_factor_bps,
            base_rate_bps,
            slope1_bps,
            slope2_bps,
            kink_utilization_bps,
        ),
{
    if reserve_factor_bps > MAX_RESERVE_FACTOR_BPS {
        return Err(MiladyError::InvalidReserveFactor);
    }
    if !(kink_utilization_bps > 0 && kink_utilization_bps < 10_000u16) {
        return Err(MiladyError::InvalidInterestKink);
    }
    let max_rate = match base_rate_bps.checked_add(slope1_bps) {
        Some(v) => v.checked_add(slope2_bps),
        None => None,
    };
    match max_rate {
        None => Err(MiladyError::MathOverflow),
        Some(m) => {
            if m > MAX_BORROW_APR_BPS {
                Err(MiladyError::InterestRateTooHigh)
            } else {
                Ok(())
            }
        },
    }
}

// ------------------------------------------------------------------------------------
// Balance sheet
// ------------------------------------------------------------------------------------

/// Net pool assets: supplier claims plus protocol and insurance reserves, less bad debt.
pub open spec fn spec_pool_total_assets(pool: LendingPool) -> Result<u64, MiladyError> {
    let gross = pool.total_supplied_usdg + pool.protocol_reserves_usdg
        + pool.insurance_reserve_usdg;
    if gross > u64::MAX {
        Err(MiladyError::MathOverflow)
    } else if gross < pool.bad_debt_usdg {
        Err(MiladyError::PoolInsolvent)
    } else {
        Ok((gross - pool.bad_debt_usdg) as u64)
    }
}

/// USDG the pool holds beyond what is lent out.
pub open spec fn spec_pool_available_liquidity(pool: LendingPool) -> Result<u64, MiladyError> {
    match spec_pool_total_assets(pool) {
        Err(e) => Err(e),
        Ok(assets) => if assets < pool.total_borrowed_usdg {
            Err(MiladyError::PoolAccountingInvariant)
        } else {
            Ok((assets - pool.total_borrowed_usdg) as u64)
        },
    }
}

/// The balance-sheet quantity behind available liquidity, without machine bounds.
pub open spec fn net_position(pool: LendingPool) -> int {
    pool.total_supplied_usdg + pool.protocol_reserves_usdg + pool.insurance_reserve_usdg
        - pool.bad_debt_usdg - pool.total_borrowed_usdg
}

/// Net assets of the pool (supplied + protocol reserves + insurance - bad debt).
pub fn pool_total_assets_usdg(pool: &LendingPool) -> (r: Result<u64, MiladyError>)
    ensures
        r == spec_pool_total_assets(*pool),
{
    let gross = match pool.total_supplied_usdg.checked_add(pool.protocol_reserves_usdg) {
        Some(v) => v.checked_add(pool.insurance_reserve_usdg),
        None => None,
    };
    match gross {
        None => Err(MiladyError::MathOverflow),
        Some(g) => match g.checked_sub(pool.bad_debt_usdg) {
            Some(v) => Ok(v),
            None => Err(MiladyError::PoolInsolvent),
        },
    }
}

/// Net assets not lent out.
pub fn pool_available_liquidity(pool: &LendingPool) -> (r: Result<u64, MiladyError>)
    ensures
        r == spec_pool_available_liquidity(*pool),
        r is Ok ==> r->Ok_0 == net_position(*pool),
{
    let assets = pool_total_assets_usdg(pool)?;
    match assets.checked_sub(pool.total_borrowed_usdg) {
        Some(v) => Ok(v),
        None => Err(MiladyError::PoolAccountingInvariant),
    }
}

// ------------------------------------------------------------------------------------
// Rate curve
// ------------------------------------------------------------------------------------

/// Share of net assets that is lent out, in bps, capped at 100%.
pub open spec fn spec_utilization_bps(pool: LendingPool) -> Result<u16, MiladyError> {
    if pool.total_borrowed_usdg == 0 {
        Ok(0)
    } else {
        match spec_pool_total_assets(pool) {
            Err(e) => Err(e),
            Ok(assets) => if assets == 0 {
                Err(MiladyError::PoolAccountingInvariant)
            } else {
                let u = pool.total_borrowed_usdg * BPS_DENOMINATOR / (assets as int);
                Ok((if u > BPS_DENOMINATOR {
                    BPS_DENOMINATOR as int
                } else {
                    u
                }) as u16)
            },
        }
    }
}

/// The piecewise-linear borrow rate at utilization `u`: `base + slope1 * u / kink` up to
/// the kink, then `base + slope1 + slope2 * (u - kink) / (10000 - kink)` (floor division).
pub open spec fn rate_curve(base: int, slope1: int, slope2: int, kink: int, u: int) -> int {
    if u <= kink {
        base + slope1 * u / kink
    } else {
        base + slope1 + slope2 * (u - kink) / (BPS_DENOMINATOR - kink)
    }
}

/// Whether the rate curve would divide by a zero kink for this pool.
pub open spec fn rate_curve_divides_by_zero(pool: LendingPool) -> bool {
    pool.kink_utilization_bps == 0 && spec_utilization_bps(pool) == Ok::<u16, MiladyError>(0u16)
}

/// Borrow APR of the pool's rate curve at its current utilization.
pub open spec fn spec_borrow_apr_bps(pool: LendingPool) -> Result<u32, MiladyError> {
    match spec_utilization_bps(pool) {
        Err(e) => Err(e),
        Ok(u) => {
            let rate = rate_curve(
                pool.base_rate_bps as int,
                pool.slope1_bps as int,
                pool.slope2_bps as int,
                pool.kink_utilization_bps as int,
                u as int,
            );
            if rate > u32::MAX {
                Err(MiladyError::MathOverflow)
            } else if rate > MAX_BORROW_APR_BPS {
                Err(MiladyError::InterestRateTooHigh)
            } else {
                Ok(rate as u32)
            }
        },
    }
}

/// Supply APR implied by a borrow rate: the borrow rate scaled by utilization of
/// supplier claims and by the suppliers' share after the reserve factor.
pub open spec fn spec_supply_apr_bps(pool: LendingPool, borrow_rate_bps: u32) -> Result<
    u32,
    MiladyError,
> {
    if pool.total_supplied_usdg == 0 || pool.total_borrowed_usdg == 0 {
        Ok(0)
    } else if pool.reserve_factor_bps > BPS_DENOMINATOR {
        Err(MiladyError::MathOverflow)
    } else {
        let q = borrow_rate_bps * pool.total_borrowed_usdg * (BPS_DENOMINATOR
            - pool.reserve_factor_bps) / (pool.total_supplied_usdg * BPS_DENOMINATOR);
        if q > u32::MAX {
            Err(MiladyError::MathOverflow)
        } else {
            Ok(q as u32)
        }
    }
}

/// Utilization of the pool in basis points, capped at 10_000.
pub fn utilization_bps(pool: &LendingPool) -> (r: Result<u16, MiladyError>)
    ensures
        r == spec_utilization_bps(*pool),
{
    if pool.total_borrowed_usdg == 0 {
        return Ok(0);
    }
    let assets = pool_total_assets_usdg(pool)?;
    if !(assets > 0) {
        return Err(MiladyError::PoolAccountingInvariant);
    }
    proof {
        lemma_mul_le(pool.total_borrowed_usdg as int, 10_000, u64::MAX as int, 10_000);
    }
    let utilization = (pool.total_borrowed_usdg as u128) * 10_000u128 / (assets as u128);
    let capped = if utilization > 10_000u128 {
        10_000u128
    } else {
        utilization
    };
    Ok(capped as u16)
}

/// Borrow APR in basis points from the pool's piecewise utilization curve.
pub fn borrow_apr_bps(pool: &LendingPool) -> (r: Result<u32, MiladyError>)
    requires
        !rate_curve_divides_by_zero(*pool),
    ensures
        r == spec_borrow_apr_bps(*pool),
{
    let utilization = utilization_bps(pool)? as u32;
    let kink = pool.kink_utilization_bps as u32;
    let rate: u128 = if utilization <= kink {
        proof {
            lemma_mul_le(pool.slope1_bps as int, utilization as int, u32::MAX as int, 10_000);
            lemma_div_le(
                pool.slope1_bps * utilization,
                u32::MAX * 10_000,
                kink as int,
            );
        }
        let variable = (pool.slope1_bps as u128) * (utilization as u128) / (kink as u128);
        (pool.base_rate_bps as u128) + variable
    } else {
        let excess = utilization - kink;
        let denominator = 10_000u32 - kink;
        proof {
            lemma_mul_le(pool.slope2_bps as int, excess as int, u32::MAX as int, 10_000);
            lemma_div_le(pool.slope2_bps * excess, u32::MAX * 10_000, denominator as int);
        }
        let jump = (pool.slope2_bps as u128) * (excess as u128) / (denominator as u128);
        (pool.base_rate_bps as u128) + (pool.slope1_bps as u128) + jump
    };
    if rate > u32::MAX as u128 {
        return Err(MiladyError::MathOverflow);
    }
    let rate_u32 = rate as u32;
    if rate_u32 > MAX_BORROW_APR_BPS {
        return Err(MiladyError::InterestRateTooHigh);
    }
    Ok(rate_u32)
}

/// Supply APR in basis points implied by `borrow_rate_bps`.
pub fn supply_apr_bps(pool: &LendingPool, borrow_rate_bps: u32) -> (r: Result<u32, MiladyError>)
    ensures
        r == spec_supply_apr_bps(*pool, borrow_rate_bps),
{
    if pool.total_supplied_usdg == 0 || pool.total_borrowed_usdg == 0 {
        return Ok(0);
    }
    let supplier_share_bps = match 10_000u64.checked_sub(pool.reserve_factor_bps as u64) {
        Some(v) => v,
        None => return Err(MiladyError::MathOverflow),
    };
    proof {
        lemma_mul_le(
            borrow_rate_bps as int,
            pool.total_borrowed_usdg as int,
            u32::MAX as int,
            u64::MAX as int,
        );
        lemma_mul_le(
            borrow_rate_bps * pool.total_borrowed_usdg,
            supplier_share_bps as int,
            u32::MAX * u64::MAX,
            10_000,
        );
        lemma_mul_le(pool.total_supplied_usdg as int, 10_000, u64::MAX as int, 10_000);
    }
    let numerator = (borrow_rate_bps as u128) * (pool.total_borrowed_usdg as u128) * (
    supplier_share_bps as u128);
    let denominator = (pool.total_supplied_usdg as u128) * 10_000u128;
    let q = numerator / denominator;
    if q > u32::MAX as u128 {
        Err(MiladyError::MathOverflow)
    } else {
        Ok(q as u32)
    }
}

/// The pool with its cached borrow and supply APR refreshed.
pub open spec fn spec_refresh_rate_cache(pool: LendingPool) -> Result<LendingPool, MiladyError> {
    match spec_borrow_apr_bps(pool) {
        Err(e) => Err(e),
        Ok(b) => match spec_supply_apr_bps(pool, b) {
            Err(e) => Err(e),
            Ok(s) => Ok(LendingPool { last_borrow_apr_bps: b, last_supply_apr_bps: s, ..pool }),
        },
    }
}

/// Recomputes the cached borrow and supply APR from the current balance sheet.
pub fn refresh_rate_cache(pool: &mut LendingPool) -> (r: Result<(), MiladyError>)
    requires
        !rate_curve_divides_by_zero(*old(pool)),
    ensures
        match spec_refresh_rate_cache(*old(pool)) {
            Ok(p) => r is Ok && *final(pool) == p,
            Err(e) => r == Err::<(), MiladyError>(e) && *final(pool) == *old(pool),
        },
{
    let borrow_rate = borrow_apr_bps(pool)?;
    let supply_rate = supply_apr_bps(pool, borrow_rate)?;
    pool.last_borrow_apr_bps = borrow_rate;
    pool.last_supply_apr_bps = supply_rate;
    Ok(())
}

// ------------------------------------------------------------------------------------
// Accrual
// ------------------------------------------------------------------------------------

/// Interest on `principal` at `apr_bps` over `elapsed_seconds`, adding the carried
/// `remainder` to the numerator: the quotient is the interest, the rest is carried on.
pub open spec fn spec_annual_interest_with_remainder(
    principal: u64,
    apr_bps: u32,
    elapsed_seconds: u64,
    remainder: u128,
) -> Result<(u64, u128), MiladyError> {
    if principal == 0 || apr_bps == 0 || elapsed_seconds == 0 {
        Ok((0, remainder))
    } else {
        let num = principal * apr_bps * elapsed_seconds + remainder;
        if num > u128::MAX {
            Err(MiladyError::MathOverflow)
        } else if num / interest_denominator() > u64::MAX {
            Err(MiladyError::MathOverflow)
        } else {
            Ok(
                (
                    (num / interest_denominator()) as u64,
                    (num % interest_denominator()) as u128,
                ),
            )
        }
    }
}

/// Simple interest for the elapsed period with the sub-unit remainder carried forward.
pub fn annual_interest_with_remainder(
    principal: u64,
    apr_bps: u32,
    elapsed_seconds: u64,
    remainder: u128,
) -> (r: Result<(u64, u128), MiladyError>)
    ensures
        r == spec_annual_interest_with_remainder(principal, apr_bps, elapsed_seconds, remainder),
{
    if principal == 0 || apr_bps == 0 || elapsed_seconds == 0 {
        return Ok((0, remainder));
    }
    let denominator: u128 = (SECONDS_PER_YEAR as u128) * 10_000u128;
    proof {
        lemma_mul_le(principal as int, apr_bps as int, u64::MAX as int, u32::MAX as int);
        assert(u64::MAX * u32::MAX <= u128::MAX);
    }
    let pa = (principal as u128) * (apr_bps as u128);
    let numerator = match pa.checked_mul(elapsed_seconds as u128) {
        Some(v) => v.checked_add(remainder),
        None => None,
    };
    match numerator {
        None => Err(MiladyError::MathOverflow),
        Some(n) => {
            let interest = n / denominator;
            let new_remainder = n % denominator;
            if interest > u64::MAX as u128 {
                Err(MiladyError::MathOverflow)
            } else {
                Ok((interest as u64, new_remainder))
            }
        },
    }
}

/// The index grown by the ratio `interest / principal` (floor).
pub open spec fn spec_apply_index_interest(index_e18: u128, principal: u64, interest: u64) -> Result<
    u128,
    MiladyError,
> {
    if principal == 0 || interest == 0 {
        Ok(index_e18)
    } else if index_e18 * interest > u128::MAX {
        Err(MiladyError::MathOverflow)
    } else if index_e18 + index_e18 * interest / (principal as int) > u128::MAX {
        Err(MiladyError::MathOverflow)
    } else {
        Ok((index_e18 + index_e18 * interest / (principal as int)) as u128)
    }
}

/// Grows an index by the interest earned on `principal`.
pub fn apply_index_interest(index_e18: u128, principal: u64, interest: u64) -> (r: Result<
    u128,
    MiladyError,
>)
    ensures
        r == spec_apply_index_interest(index_e18, principal, interest),
{
    if principal == 0 || interest == 0 {
        return Ok(index_e18);
    }
    let product = match index_e18.checked_mul(interest as u128) {
        Some(v) => v,
        None => return Err(MiladyError::MathOverflow),
    };
    let increment = product / (principal as u128);
    match index_e18.checked_add(increment) {
        Some(v) => Ok(v),
        None => Err(MiladyError::MathOverflow),
    }
}

/// Protocol share of `gross` interest at `reserve_factor_bps` (floor).
pub open spec fn reserve_share(gross: int, reserve_factor_bps: int) -> int {
    gross * reserve_factor_bps / (BPS_DENOMINATOR as int)
}

/// The pool and the accrual record after charging interest up to `now`.
///
/// Borrowed interest at the pre-accrual borrow rate is added to total borrows; the
/// reserve factor's share goes to protocol reserves, the rest to suppliers; both
/// indexes grow in proportion; the remainder is carried and the rate cache refreshed.
pub open spec fn spec_accrue_pool_interest(pool: LendingPool, pool_key: Pubkey, now: i64) -> Result<
    (LendingPool, InterestAccrual),
    MiladyError,
> {
    if now < pool.last_accrual_ts {
        Err(MiladyError::ClockWentBackwards)
    } else if now - pool.last_accrual_ts > i64::MAX {
        Err(MiladyError::MathOverflow)
    } else {
        let elapsed = (now - pool.last_accrual_ts) as u64;
        match spec_utilization_bps(pool) {
            Err(e) => Err(e),
            Ok(util) => match spec_borrow_apr_bps(pool) {
                Err(e) => Err(e),
                Ok(rate) => match spec_supply_apr_bps(pool, rate) {
                    Err(e) => Err(e),
                    Ok(supply_rate) => if elapsed == 0 {
                        Ok(
                            (
                                pool,
                                InterestAccrual {
                                    lending_pool: pool_key,
                                    elapsed_seconds: 0,
                                    utilization_bps: util,
                                    borrow_apr_bps: rate,
                                    supply_apr_bps: supply_rate,
                                    gross_interest_usdg: 0,
                                    supplier_interest_usdg: 0,
                                    reserve_interest_usdg: 0,
                                },
                            ),
                        )
                    } else {
                        spec_accrue_elapsed(pool, pool_key, now, elapsed, rate, supply_rate)
                    },
                },
            },
        }
    }
}

/// The accrual step of `spec_accrue_pool_interest` once some time has elapsed.
pub open spec fn spec_accrue_elapsed(
    pool: LendingPool,
    pool_key: Pubkey,
    now: i64,
    elapsed: u64,
    rate: u32,
    supply_rate: u32,
) -> Result<(LendingPool, InterestAccrual), MiladyError> {
    match spec_annual_interest_with_remainder(
        pool.total_borrowed_usdg,
        rate,
        elapsed,
        pool.borrow_interest_remainder,
    ) {
        Err(e) => Err(e),
        Ok((gross, rem)) => {
            let reserve = reserve_share(gross as int, pool.reserve_factor_bps as int);
            if reserve > u64::MAX || reserve > gross {
                Err(MiladyError::MathOverflow)
            } else {
                let supplier = gross - reserve;
                match spec_apply_index_interest(
                    pool.borrow_index_e18,
                    pool.total_borrowed_usdg,
                    gross,
                ) {
                    Err(e) => Err(e),
                    Ok(bidx) => match spec_apply_index_interest(
                        pool.supply_index_e18,
                        pool.total_supplied_usdg,
                        supplier as u64,
                    ) {
                        Err(e) => Err(e),
                        Ok(sidx) => if pool.total_borrowed_usdg + gross > u64::MAX
                            || pool.total_supplied_usdg + supplier > u64::MAX
                            || pool.protocol_reserves_usdg + reserve > u64::MAX {
                            Err(MiladyError::MathOverflow)
                        } else {
                            let grown = LendingPool {
                                borrow_index_e18: bidx,
                                supply_index_e18: sidx,
                                total_borrowed_usdg: (pool.total_borrowed_usdg + gross) as u64,
                                total_supplied_usdg: (pool.total_supplied_usdg + supplier) as u64,
                                protocol_reserves_usdg: (pool.protocol_reserves_usdg
                                    + reserve) as u64,
                                borrow_interest_remainder: rem,
                                last_accrual_ts: now,
                                ..pool
                            };
                            match spec_utilization_bps(grown) {
                                Err(e) => Err(e),
                                Ok(cu) => match spec_refresh_rate_cache(grown) {
                                    Err(e) => Err(e),
                                    Ok(refreshed) => Ok(
                                        (
                                            refreshed,
                                            InterestAccrual {
                                                lending_pool: pool_key,
                                                elapsed_seconds: elapsed,
                                                utilization_bps: cu,
                                                borrow_apr_bps: rate,
                                                supply_apr_bps: supply_rate,
                                                gross_interest_usdg: gross,
                                                supplier_interest_usdg: supplier as u64,
                                                reserve_interest_usdg: reserve as u64,
                                            },
                                        ),
                                    ),
                                },
                            }
                        },
                    },
                }
            }
        },
    }
}

/// A pool whose rate curve has a non-zero kink, as `validate_interest_model` demands of
/// every pool this program initializes or updates.
pub open spec fn kink_nonzero(pool: LendingPool) -> bool {
    pool.kink_utilization_bps > 0
}

/// Charges borrower interest since the last accrual and splits it between suppliers
/// and protocol reserves. On error the pool is left unchanged.
pub fn accrue_pool_interest(pool: &mut LendingPool, pool_key: Pubkey, now: i64) -> (r: Result<
    InterestAccrual,
    MiladyError,
>)
    requires
        kink_nonzero(*old(pool)),
    ensures
        match spec_accrue_pool_interest(*old(pool), pool_key, now) {
            Ok((p, a)) => r == Ok::<InterestAccrual, MiladyError>(a) && *final(pool) == p,
            Err(e) => r == Err::<InterestAccrual, MiladyError>(e) && *final(pool) == *old(pool),
        },
        kink_nonzero(*final(pool)),
{
    if now < pool.last_accrual_ts {
        return Err(MiladyError::ClockWentBackwards);
    }
    let elapsed_i64 = match now.checked_sub(pool.last_accrual_ts) {
        Some(v) => v,
        None => return Err(MiladyError::MathOverflow),
    };
    let elapsed = elapsed_i64 as u64;
    let utilization = utilization_bps(pool)?;
    let rate = borrow_apr_bps(pool)?;
    let supply_rate = supply_apr_bps(pool, rate)?;

    if elapsed == 0 {
        return Ok(
            InterestAccrual {
                lending_pool: pool_key,
                elapsed_seconds: 0,
                utilization_bps: utilization,
                borrow_apr_bps: rate,
                supply_apr_bps: supply_rate,
                gross_interest_usdg: 0,
                supplier_interest_usdg: 0,
                reserve_interest_usdg: 0,
            },
        );
    }
    let old_borrowed = pool.total_borrowed_usdg;
    let old_supplied = pool.total_supplied_usdg;
    let (gross_interest, new_remainder) = annual_interest_with_remainder(
        old_borrowed,
        rate,
        elapsed,
        pool.borrow_interest_remainder,
    )?;
    proof {
        lemma_mul_le(gross_interest as int, pool.reserve_factor_bps as int, u64::MAX as int, u16::MAX as int);
    }
    let reserve_u128 = (gross_interest as u128) * (pool.reserve_factor_bps as u128) / 10_000u128;
    if reserve_u128 > u64::MAX as u128 {
        return Err(MiladyError::MathOverflow);
    }
    let reserve_interest = reserve_u128 as u64;
    let supplier_interest = match gross_interest.checked_sub(reserve_interest) {
        Some(v) => v,
        None => return Err(MiladyError::MathOverflow),
    };
    let new_borrow_index = apply_index_interest(pool.borrow_index_e18, old_borrowed, gross_interest)?;
    let new_supply_index = apply_index_interest(pool.supply_index_e18, old_supplied, supplier_interest)?;
    let new_borrowed = match pool.total_borrowed_usdg.checked_add(gross_interest) {
        Some(v) => v,
        None => return Err(MiladyError::MathOverflow),
    };
    let new_supplied = match pool.total_supplied_usdg.checked_add(supplier_interest) {
        Some(v) => v,
        None => return Err(MiladyError::MathOverflow),
    };
    let new_reserves = match pool.protocol_reserves_usdg.checked_add(reserve_interest) {
        Some(v) => v,
        None => return Err(MiladyError::MathOverflow),
    };
    let mut grown = *pool;
    grown.borrow_index_e18 = new_borrow_index;
    grown.supply_index_e18 = new_supply_index;
    grown.total_borrowed_usdg = new_borrowed;
    grown.total_supplied_usdg = new_supplied;
    grown.protocol_reserves_usdg = new_reserves;
    grown.borrow_interest_remainder = new_remainder;
    grown.last_accrual_ts = now;

    let current_utilization = utilization_bps(&grown)?;
    refresh_rate_cache(&mut grown)?;
    *pool = grown;
    Ok(
        InterestAccrual {
            lending_pool: pool_key,
            elapsed_seconds: elapsed,
            utilization_bps: current_utilization,
            borrow_apr_bps: rate,
            supply_apr_bps: supply_rate,
            gross_interest_usdg: gross_interest,
            supplier_interest_usdg: supplier_interest,
            reserve_interest_usdg: reserve_interest,
        },
    )
}

/// The event that reports an accrual with time elapsed; none when no time passed.
pub open spec fn spec_interest_accrued_event(pool: LendingPool, accrual: InterestAccrual) -> Option<
    InterestAccrued,
> {
    if accrual.elapsed_seconds == 0 {
        None
    } else {
        Some(
            InterestAccrued {
                lending_pool: accrual.lending_pool,
                elapsed_seconds: accrual.elapsed_seconds,
                utilization_bps: accrual.utilization_bps,
                borrow_apr_bps: accrual.borrow_apr_bps,
                supply_apr_bps: accrual.supply_apr_bps,
                gross_interest_usdg: accrual.gross_interest_usdg,
                supplier_interest_usdg: accrual.supplier_interest_usdg,
                reserve_interest_usdg: accrual.reserve_interest_usdg,
                total_borrowed_usdg: pool.total_borrowed_usdg,
                total_supplied_usdg: pool.total_supplied_usdg,
                protocol_reserves_usdg: pool.protocol_reserves_usdg,
                borrow_index_e18: pool.borrow_index_e18,
                supply_index_e18: pool.supply_index_e18,
            },
        )
    }
}

/// The `InterestAccrued` event for an accrual that `accrue_pool_interest` just applied
/// to `pool`.
pub fn interest_accrued_event(pool: &LendingPool, accrual: &InterestAccrual) -> (e: Option<
    InterestAccrued,
>)
    ensures
        e == spec_interest_accrued_event(*pool, *accrual),
{
    if accrual.elapsed_seconds == 0 {
        None
    } else {
        Some(
            InterestAccrued {
                lending_pool: accrual.lending_pool,
                elapsed_seconds: accrual.elapsed_seconds,
                utilization_bps: accrual.utilization_bps,
                borrow_apr_bps: accrual.borrow_apr_bps,
                supply_apr_bps: accrual.supply_apr_bps,
                gross_interest_usdg: accrual.gross_interest_usdg,
                supplier_interest_usdg: accrual.supplier_interest_usdg,
                reserve_interest_usdg: accrual.reserve_interest_usdg,
                total_borrowed_usdg: pool.total_borrowed_usdg,
                total_supplied_usdg: pool.total_supplied_usdg,
                protocol_reserves_usdg: pool.protocol_reserves_usdg,
                borrow_index_e18: pool.borrow_index_e18,
                supply_index_e18: pool.supply_index_e18,
            },
        )
    }
}

// ------------------------------------------------------------------------------------
// Lazy synchronization of individual balances
// ------------------------------------------------------------------------------------

/// `balance` grown from index `snapshot` to index `index` (floor), or the error that
/// refuses the synchronization.
pub open spec fn spec_grow_by_index(balance: u64, snapshot: u128, index: u128) -> Result<
    u64,
    MiladyError,
> {
    if snapshot == 0 || index < snapshot {
        Err(MiladyError::InvalidInterestIndex)
    } else if balance == 0 {
        Ok(0)
    } else if balance * index > u128::MAX || balance * index / (snapshot as int) > u64::MAX {
        Err(MiladyError::MathOverflow)
    } else {
        Ok((balance * index / (snapshot as int)) as u64)
    }
}

/// Grows `balance` by the ratio of two indexes; never shrinks it.
fn grow_by_index(balance: u64, snapshot: u128, index: u128) -> (r: Result<u64, MiladyError>)
    ensures
        r == spec_grow_by_index(balance, snapshot, index),
        r is Ok ==> r->Ok_0 >= balance,
{
    if !(snapshot > 0) || !(index >= snapshot) {
        return Err(MiladyError::InvalidInterestIndex);
    }
    if balance == 0 {
        return Ok(0);
    }
    let product = match (balance as u128).checked_mul(index) {
        Some(v) => v,
        None => return Err(MiladyError::MathOverflow),
    };
    let grown = product / snapshot;
    proof {
        lemma_mul_le(balance as int, snapshot as int, balance as int, index as int);
        vstd::arithmetic::div_mod::lemma_div_is_ordered(
            balance * snapshot,
            balance * index,
            snapshot as int,
        );
        vstd::arithmetic::div_mod::lemma_div_multiples_vanish(balance as int, snapshot as int);
        assert(snapshot * balance == balance * snapshot) by (nonlinear_arith);
    }
    if grown > u64::MAX as u128 {
        return Err(MiladyError::MathOverflow);
    }
    Ok(grown as u64)
}

/// Brings a borrower's debt up to the pool's borrow index and returns the interest
/// added. On error the account is left unchanged.
pub fn sync_borrower_debt(account: &mut CreditAccount, pool: &LendingPool, now: i64) -> (r: Result<
    u64,
    MiladyError,
>)
    ensures
        match spec_grow_by_index(
            old(account).debt_usdg,
            old(account).borrow_index_snapshot_e18,
            pool.borrow_index_e18,
        ) {
            Ok(d) => {
                &&& r == Ok::<u64, MiladyError>((d - old(account).debt_usdg) as u64)
                &&& *final(account) == (CreditAccount {
                    debt_usdg: d,
                    borrow_index_snapshot_e18: pool.borrow_index_e18,
                    last_borrow_ts: now,
                    ..*old(account)
                })
            },
            Err(e) => r == Err::<u64, MiladyError>(e) && *final(account) == *old(account),
        },
{
    let new_debt = grow_by_index(account.debt_usdg, account.borrow_index_snapshot_e18, pool.borrow_index_e18)?;
    let accrued = new_debt - account.debt_usdg;
    account.debt_usdg = new_debt;
    account.borrow_index_snapshot_e18 = pool.borrow_index_e18;
    account.last_borrow_ts = now;
    Ok(accrued)
}

/// Brings a supplier's balance up to the pool's supply index and returns the interest
/// added. On error the position is left unchanged.
pub fn sync_supplier_balance(position: &mut SupplierPosition, pool: &LendingPool, now: i64) -> (r:
    Result<u64, MiladyError>)
    ensures
        match spec_grow_by_index(
            old(position).principal_usdg,
            old(position).supply_index_snapshot_e18,
            pool.supply_index_e18,
        ) {
            Ok(b) => {
                &&& r == Ok::<u64, MiladyError>((b - old(position).principal_usdg) as u64)
                &&& *final(position) == (SupplierPosition {
                    principal_usdg: b,
                    supply_index_snapshot_e18: pool.supply_index_e18,
                    last_updated_ts: now,
                    ..*old(position)
                })
            },
            Err(e) => r == Err::<u64, MiladyError>(e) && *final(position) == *old(position),
        },
{
    let new_balance = grow_by_index(
        position.principal_usdg,
        position.supply_index_snapshot_e18,
        pool.supply_index_e18,
    )?;
    let accrued = new_balance - position.principal_usdg;
    position.principal_usdg = new_balance;
    position.supply_index_snapshot_e18 = pool.supply_index_e18;
    position.last_updated_ts = now;
    Ok(accrued)
}

} // verus!
