//! The risk engine: Pyth price decoding and validation, fixed-point USD valuation,
//! weighted borrow limits, health factor and the collateral list of a credit account.
use vstd::prelude::*;
use crate::constants::{BPS_DENOMINATOR, USD_MICRO, MAX_COLLATERAL_ASSETS, MAX_LIQUIDATION_BONUS_BPS, MAX_CONFIDENCE_BPS, MAX_ORACLE_AGE_SECS};
use crate::errors::MiladyError;
use crate::pubkey::{Pubkey, spec_pyth_receiver_id};
use crate::state::{MarketConfig, CollateralBalance, CreditAccount, ProtocolConfig, RegisterMarketArgs, UpdateMarketArgs, market_layout_ok, market_decode_error, decodes_market};
use crate::pubkey::any_nonzero;
use crate::pubkey::spec_program_id;
use crate::bytes::{le_field, as_signed64, as_signed32, read_u64, read_i64, read_i32, read_array32, prefix8_matches};
use crate::interest::{lemma_mul_le, lemma_div_le};

verus! {

/// Persisted portfolio valuation of a credit account.
#[derive(Clone, Copy, Debug)]
pub struct RiskSnapshot {
    pub collateral_value_usd_micro: u64,
    pub borrow_limit_usd_micro: u64,
    pub liquidation_capacity_usd_micro: u64,
    pub health_factor_bps: u64,
}

/// A validated oracle price: `price * 10^exponent` US dollars per whole token.
#[derive(Clone, Copy, Debug)]
pub struct OraclePrice {
    pub price: i64,
    pub exponent: i32,
}

/// The cluster clock at the time of the instruction.
#[derive(Clone, Copy, Debug)]
pub struct Clock {
    pub unix_timestamp: i64,
}

/// An account handed to an instruction: its address, owning program and raw data.
#[derive(Clone, Debug)]
pub struct AccountInfo {
    pub key: Pubkey,
    pub owner: Pubkey,
    pub data: Vec<u8>,
}

// ------------------------------------------------------------------------------------
// Fixed-point helpers
// ------------------------------------------------------------------------------------

/// `10^n`.
pub open spec fn pow10_nat(n: nat) -> nat
    decreases n,
{
    if n == 0 {
        1
    } else {
        10 * pow10_nat((n - 1) as nat)
    }
}

/// `10^exponent` as a `u128`, or `MathOverflow` when it does not fit.
pub open spec fn spec_pow10(exponent: u32) -> Result<u128, MiladyError> {
    if pow10_nat(exponent as nat) > u128::MAX {
        Err(MiladyError::MathOverflow)
    } else {
        Ok(pow10_nat(exponent as nat) as u128)
    }
}

/// `10^n` grows with `n`.
pub proof fn lemma_pow10_monotone(a: nat, b: nat)
    requires
        a <= b,
    ensures
        1 <= pow10_nat(a) <= pow10_nat(b),
    decreases b - a,
{
    if a < b {
        lemma_pow10_monotone(a, (b - 1) as nat);
    } else {
        lemma_pow10_positive(a);
    }
}

/// `10^n` is positive.
pub proof fn lemma_pow10_positive(n: nat)
    ensures
        pow10_nat(n) >= 1,
    decreases n,
{
    if n > 0 {
        lemma_pow10_positive((n - 1) as nat);
    }
}

/// Checked `10^exponent` in `u128`.
pub fn pow10(exponent: u32) -> (r: Result<u128, MiladyError>)
    ensures
        r == spec_pow10(exponent),
{
    let mut acc: u128 = 1;
    let mut i: u32 = 0;
    while i < exponent
        invariant
            i <= exponent,
            acc == pow10_nat(i as nat),
        decreases exponent - i,
    {
        match acc.checked_mul(10) {
            Some(v) => {
                acc = v;
            },
            None => {
                proof {
                    lemma_pow10_monotone((i + 1) as nat, exponent as nat);
                }
                return Err(MiladyError::MathOverflow);
            },
        }
        i = i + 1;
    }
    Ok(acc)
}

/// Price of one whole token in USD micro-units: `price * 10^exponent * 10^6`, with
/// negative exponents applied by floor division.
pub open spec fn spec_micro_price(price: i64, exponent: i32) -> Result<u128, MiladyError> {
    if exponent >= 0 {
        match spec_pow10(exponent as u32) {
            Err(e) => Err(e),
            Ok(scale) => if price * scale > u128::MAX || price * scale * USD_MICRO > u128::MAX {
                Err(MiladyError::MathOverflow)
            } else {
                Ok((price * scale * USD_MICRO) as u128)
            },
        }
    } else if exponent == i32::MIN {
        Err(MiladyError::MathOverflow)
    } else {
        match spec_pow10((-exponent) as u32) {
            Err(e) => Err(e),
            Ok(scale) => Ok((price * USD_MICRO / (scale as int)) as u128),
        }
    }
}

/// USD micro-unit price of one whole token from a positive oracle price.
fn micro_price(price: i64, exponent: i32) -> (r: Result<u128, MiladyError>)
    requires
        price > 0,
    ensures
        r == spec_micro_price(price, exponent),
{
    let price_u128 = price as u128;
    if exponent >= 0 {
        let scale = pow10(exponent as u32)?;
        match price_u128.checked_mul(scale) {
            Some(v) => match v.checked_mul(1_000_000u128) {
                Some(w) => Ok(w),
                None => Err(MiladyError::MathOverflow),
            },
            None => {
                proof {
                    lemma_mul_le(price * scale, 1, price * scale, USD_MICRO as int);
                }
                Err(MiladyError::MathOverflow)
            },
        }
    } else {
        if exponent == i32::MIN {
            return Err(MiladyError::MathOverflow);
        }
        let abs_exp = (-exponent) as u32;
        let scale = pow10(abs_exp)?;
        proof {
            lemma_pow10_positive(abs_exp as nat);
            lemma_mul_le(price as int, USD_MICRO as int, i64::MAX as int, USD_MICRO as int);
            lemma_div_le(price * USD_MICRO, price * USD_MICRO, scale as int);
        }
        Ok(price_u128 * 1_000_000u128 / scale)
    }
}

/// USD micro-unit value of `amount` raw token units.
pub open spec fn spec_token_value_usd_micro(amount: u64, decimals: u8, price: i64, exponent: i32) -> Result<
    u64,
    MiladyError,
> {
    if price <= 0 {
        Err(MiladyError::InvalidOraclePrice)
    } else {
        match spec_micro_price(price, exponent) {
            Err(e) => Err(e),
            Ok(mp) => match spec_pow10(decimals as u32) {
                Err(e) => Err(e),
                Ok(token_scale) => if amount * mp > u128::MAX {
                    Err(MiladyError::MathOverflow)
                } else if amount * mp / (token_scale as int) > u64::MAX {
                    Err(MiladyError::MathOverflow)
                } else {
                    Ok((amount * mp / (token_scale as int)) as u64)
                },
            },
        }
    }
}

/// Values `amount` raw units of a token with `decimals` at an oracle price, in USD
/// micro-units (floor).
pub fn token_value_usd_micro(amount: u64, decimals: u8, price: i64, exponent: i32) -> (r: Result<
    u64,
    MiladyError,
>)
    ensures
        r == spec_token_value_usd_micro(amount, decimals, price, exponent),
{
    if !(price > 0) {
        return Err(MiladyError::InvalidOraclePrice);
    }
    let mp = micro_price(price, exponent)?;
    let token_scale = pow10(decimals as u32)?;
    proof {
        lemma_pow10_positive(decimals as nat);
    }
    let product = match (amount as u128).checked_mul(mp) {
        Some(v) => v,
        None => return Err(MiladyError::MathOverflow),
    };
    let value = product / token_scale;
    if value > u64::MAX as u128 {
        Err(MiladyError::MathOverflow)
    } else {
        Ok(value as u64)
    }
}

/// Raw token units worth `usd_micro` at an oracle price (floor).
pub open spec fn spec_usd_micro_to_token_amount(
    usd_micro: u64,
    decimals: u8,
    price: i64,
    exponent: i32,
) -> Result<u64, MiladyError> {
    if price <= 0 {
        Err(MiladyError::InvalidOraclePrice)
    } else {
        match spec_pow10(decimals as u32) {
            Err(e) => Err(e),
            Ok(token_scale) => match spec_micro_price(price, exponent) {
                Err(e) => Err(e),
                Ok(mp) => if mp == 0 {
                    Err(MiladyError::InvalidOraclePrice)
                } else if usd_micro * token_scale > u128::MAX {
                    Err(MiladyError::MathOverflow)
                } else if usd_micro * token_scale / (mp as int) > u64::MAX {
                    Err(MiladyError::MathOverflow)
                } else {
                    Ok((usd_micro * token_scale / (mp as int)) as u64)
                },
            },
        }
    }
}

/// Converts a USD micro-unit amount into raw units of a token at an oracle price.
pub fn usd_micro_to_token_amount(usd_micro: u64, decimals: u8, price: i64, exponent: i32) -> (r:
    Result<u64, MiladyError>)
    ensures
        r == spec_usd_micro_to_token_amount(usd_micro, decimals, price, exponent),
{
    if !(price > 0) {
        return Err(MiladyError::InvalidOraclePrice);
    }
    let token_scale = pow10(decimals as u32)?;
    let mp = micro_price(price, exponent)?;
    if !(mp > 0) {
        return Err(MiladyError::InvalidOraclePrice);
    }
    let product = match (usd_micro as u128).checked_mul(token_scale) {
        Some(v) => v,
        None => return Err(MiladyError::MathOverflow),
    };
    let raw = product / mp;
    if raw > u64::MAX as u128 {
        Err(MiladyError::MathOverflow)
    } else {
        Ok(raw as u64)
    }
}

/// The oracle's confidence band, relative to the price, is within `max_confidence_bps`.
pub open spec fn spec_validate_oracle_confidence(price: i64, conf: u64, max_confidence_bps: u16) -> Result<
    (),
    MiladyError,
> {
    if price <= 0 {
        Err(MiladyError::InvalidOraclePrice)
    } else if conf * BPS_DENOMINATOR > price * max_confidence_bps {
        Err(MiladyError::OracleConfidenceTooWide)
    } else {
        Ok(())
    }
}

/// Rejects a price whose confidence interval is wider than the market allows.
pub fn validate_oracle_confidence(price: i64, conf: u64, max_confidence_bps: u16) -> (r: Result<
    (),
    MiladyError,
>)
    ensures
        r == spec_validate_oracle_confidence(price, conf, max_confidence_bps),
{
    if !(price > 0) {
        return Err(MiladyError::InvalidOraclePrice);
    }
    proof {
        lemma_mul_le(conf as int, 10_000, u64::MAX as int, 10_000);
        lemma_mul_le(price as int, max_confidence_bps as int, i64::MAX as int, u16::MAX as int);
    }
    let lhs = (conf as u128) * 10_000u128;
    let rhs = (price as u128) * (max_confidence_bps as u128);
    if lhs <= rhs {
        Ok(())
    } else {
        Err(MiladyError::OracleConfidenceTooWide)
    }
}

/// `value * bps / 10_000` (floor).
pub open spec fn spec_weighted_value(value: u64, bps: u16) -> u128 {
    (value * bps / (BPS_DENOMINATOR as int)) as u128
}

/// A value weighted by a basis-point factor (floor); never fails.
pub fn weighted_value(value: u64, bps: u16) -> (r: Result<u128, MiladyError>)
    ensures
        r == Ok::<u128, MiladyError>(spec_weighted_value(value, bps)),
        r->Ok_0 <= value * bps,
{
    proof {
        lemma_mul_le(value as int, bps as int, u64::MAX as int, u16::MAX as int);
        lemma_div_le(value * bps, value * bps, 10_000);
    }
    Ok((value as u128) * (bps as u128) / 10_000u128)
}

/// Health factor in bps: liquidation capacity over debt, saturating at `u64::MAX`;
/// `u64::MAX` when there is no debt.
pub open spec fn spec_health_factor_bps(liquidation_capacity_usd_micro: u64, debt_usdg: u64) -> u64 {
    if debt_usdg == 0 {
        u64::MAX
    } else {
        let h = liquidation_capacity_usd_micro * BPS_DENOMINATOR / (debt_usdg as int);
        if h > u64::MAX {
            u64::MAX
        } else {
            h as u64
        }
    }
}

/// Health factor of a debt against a liquidation capacity; never fails.
pub fn health_factor_bps_for_debt(liquidation_capacity_usd_micro: u64, debt_usdg: u64) -> (r: Result<
    u64,
    MiladyError,
>)
    ensures
        r == Ok::<u64, MiladyError>(
            spec_health_factor_bps(liquidation_capacity_usd_micro, debt_usdg),
        ),
{
    if debt_usdg == 0 {
        return Ok(u64::MAX);
    }
    proof {
        lemma_mul_le(liquidation_capacity_usd_micro as int, 10_000, u64::MAX as int, 10_000);
    }
    let health = (liquidation_capacity_usd_micro as u128) * 10_000u128 / (debt_usdg as u128);
    if health > u64::MAX as u128 {
        Ok(u64::MAX)
    } else {
        Ok(health as u64)
    }
}

// ------------------------------------------------------------------------------------
// Pyth PriceUpdateV2 decoding
// ------------------------------------------------------------------------------------

/// First eight bytes of every Pyth `PriceUpdateV2` account.
pub open spec fn spec_price_update_discriminator() -> Seq<u8> {
    seq![34u8, 241u8, 35u8, 99u8, 157u8, 126u8, 244u8, 205u8]
}

/// Whether `s` is a decodable, fully verified `PriceUpdateV2`: discriminator, write
/// authority, verification level `Full` (tag 1), the price message and posted slot.
pub open spec fn pyth_full_update_ok(s: Seq<u8>) -> bool {
    &&& s.len() >= 133
    &&& s.subrange(0, 8) == spec_price_update_discriminator()
    &&& s[40] == 1
}

/// Feed id of a full `PriceUpdateV2` encoding.
pub open spec fn pyth_feed_id(s: Seq<u8>) -> Seq<u8> {
    s.subrange(41, 73)
}

/// Price of a full `PriceUpdateV2` encoding.
pub open spec fn pyth_price(s: Seq<u8>) -> int {
    as_signed64(le_field(s, 73, 8))
}

/// Confidence of a full `PriceUpdateV2` encoding.
pub open spec fn pyth_conf(s: Seq<u8>) -> int {
    le_field(s, 81, 8) as int
}

/// Exponent of a full `PriceUpdateV2` encoding.
pub open spec fn pyth_exponent(s: Seq<u8>) -> int {
    as_signed32(le_field(s, 89, 4))
}

/// Publish time of a full `PriceUpdateV2` encoding.
pub open spec fn pyth_publish_time(s: Seq<u8>) -> int {
    as_signed64(le_field(s, 93, 8))
}

/// The price a market may use from an oracle account at time `now`, or why not:
/// owner, encoding, feed, freshness, positivity and confidence, in that order.
pub open spec fn spec_read_pyth_price(price_info: AccountInfo, now: i64, market: MarketConfig) -> Result<
    OraclePrice,
    MiladyError,
> {
    let s = price_info.data@;
    if price_info.owner@ != spec_pyth_receiver_id() {
        Err(MiladyError::InvalidOracleOwner)
    } else if !pyth_full_update_ok(s) {
        Err(MiladyError::OracleReadFailed)
    } else if pyth_feed_id(s) != market.feed_id@ {
        Err(MiladyError::OracleReadFailed)
    } else if pyth_publish_time(s) + market.max_price_age_secs < now {
        Err(MiladyError::OracleReadFailed)
    } else if pyth_price(s) <= 0 {
        Err(MiladyError::InvalidOraclePrice)
    } else {
        match spec_validate_oracle_confidence(
            pyth_price(s) as i64,
            pyth_conf(s) as u64,
            market.max_confidence_bps,
        ) {
            Err(e) => Err(e),
            Ok(_) => Ok(OraclePrice { price: pyth_price(s) as i64, exponent: pyth_exponent(s) as i32 }),
        }
    }
}

/// Reads and validates a Pyth `PriceUpdateV2` account for `market` at the clock's time.
pub fn read_pyth_price(price_info: &AccountInfo, clock: &Clock, market: &MarketConfig) -> (r: Result<
    OraclePrice,
    MiladyError,
>)
    ensures
        r == spec_read_pyth_price(*price_info, clock.unix_timestamp, *market),
{
    let receiver = Pubkey::pyth_receiver_id();
    if !price_info.owner.key_eq(&receiver) {
        return Err(MiladyError::InvalidOracleOwner);
    }
    let data = price_info.data.as_slice();
    if data.len() < 133 {
        return Err(MiladyError::OracleReadFailed);
    }
    let disc: [u8; 8] = [34, 241, 35, 99, 157, 126, 244, 205];
    proof {
        assert(disc@ =~= spec_price_update_discriminator());
    }
    if !prefix8_matches(data, 0, &disc) {
        return Err(MiladyError::OracleReadFailed);
    }
    if data[40] != 1 {
        return Err(MiladyError::OracleReadFailed);
    }
    let feed_id = read_array32(data, 41);
    if !crate::pubkey::bytes_equal(&feed_id, &market.feed_id) {
        return Err(MiladyError::OracleReadFailed);
    }
    let price = read_i64(data, 73);
    let conf = read_u64(data, 81);
    let exponent = read_i32(data, 89);
    let publish_time = read_i64(data, 93);
    if (publish_time as i128) + (market.max_price_age_secs as i128) < (clock.unix_timestamp as i128) {
        return Err(MiladyError::OracleReadFailed);
    }
    if !(price > 0) {
        return Err(MiladyError::InvalidOraclePrice);
    }
    validate_oracle_confidence(price, conf, market.max_confidence_bps)?;
    Ok(OraclePrice { price, exponent })
}

// ------------------------------------------------------------------------------------
// Portfolio valuation
// ------------------------------------------------------------------------------------

/// The market configuration that a well-formed `MarketConfig` encoding carries.
pub open spec fn spec_market_of(data: Seq<u8>) -> MarketConfig {
    choose|m: MarketConfig| decodes_market(data, m)
}

/// Valuation of one collateral entry against its market and oracle accounts: the USD
/// value and the market configuration, or why the entry is refused.
pub open spec fn spec_risk_entry(
    collateral: CollateralBalance,
    market_info: AccountInfo,
    price_info: AccountInfo,
    require_enabled: bool,
    now: i64,
) -> Result<(u64, MarketConfig), MiladyError> {
    let market = spec_market_of(market_info.data@);
    if market_info.key@ != collateral.market@ {
        Err(MiladyError::MarketAccountMismatch)
    } else if market_info.owner@ != spec_program_id() {
        Err(MiladyError::InvalidMarketOwner)
    } else if !market_layout_ok(market_info.data@) {
        Err(market_decode_error(market_info.data@))
    } else if require_enabled && !market.enabled {
        Err(MiladyError::MarketDisabled)
    } else {
        match spec_read_pyth_price(price_info, now, market) {
            Err(e) => Err(e),
            Ok(p) => match spec_token_value_usd_micro(
                collateral.amount,
                market.decimals,
                p.price,
                p.exponent,
            ) {
                Err(e) => Err(e),
                Ok(v) => Ok((v, market)),
            },
        }
    }
}

/// Running totals (value, borrow limit, liquidation capacity) over the collateral
/// entries `cs`, the `k`-th valued against accounts `2k` (market) and `2k + 1` (oracle).
pub open spec fn spec_risk_totals(
    cs: Seq<CollateralBalance>,
    accounts: Seq<AccountInfo>,
    require_enabled: bool,
    now: i64,
) -> Result<(int, int, int), MiladyError>
    decreases cs.len(),
{
    if cs.len() == 0 {
        Ok((0, 0, 0))
    } else {
        let k = cs.len() - 1;
        match spec_risk_totals(cs.drop_last(), accounts, require_enabled, now) {
            Err(e) => Err(e),
            Ok((t, b, l)) => match spec_risk_entry(
                cs[k],
                accounts[2 * k],
                accounts[2 * k + 1],
                require_enabled,
                now,
            ) {
                Err(e) => Err(e),
                Ok((v, m)) => {
                    let t2 = t + v;
                    let b2 = b + spec_weighted_value(v, m.ltv_bps);
                    let l2 = l + spec_weighted_value(v, m.liquidation_threshold_bps);
                    if t2 > u128::MAX || b2 > u128::MAX || l2 > u128::MAX {
                        Err(MiladyError::MathOverflow)
                    } else {
                        Ok((t2, b2, l2))
                    }
                },
            },
        }
    }
}

/// Fresh risk snapshot of a credit account from ordered (market, oracle) account pairs.
pub open spec fn spec_compute_portfolio_risk(
    account: CreditAccount,
    accounts: Seq<AccountInfo>,
    require_enabled: bool,
    now: i64,
) -> Result<RiskSnapshot, MiladyError> {
    spec_portfolio_risk(account.collaterals@, account.debt_usdg, accounts, require_enabled, now)
}

/// Fresh risk snapshot of a collateral list and debt from ordered (market, oracle)
/// account pairs.
pub open spec fn spec_portfolio_risk(
    cs: Seq<CollateralBalance>,
    debt_usdg: u64,
    accounts: Seq<AccountInfo>,
    require_enabled: bool,
    now: i64,
) -> Result<RiskSnapshot, MiladyError> {
    let n = cs.len();
    if n * 2 > usize::MAX {
        Err(MiladyError::MathOverflow)
    } else if accounts.len() != n * 2 {
        Err(MiladyError::InvalidRiskAccounts)
    } else {
        match spec_risk_totals(cs, accounts, require_enabled, now) {
            Err(e) => Err(e),
            Ok((t, b, l)) => if t > u64::MAX || b > u64::MAX || l > u64::MAX {
                Err(MiladyError::MathOverflow)
            } else {
                Ok(
                    RiskSnapshot {
                        collateral_value_usd_micro: t as u64,
                        borrow_limit_usd_micro: b as u64,
                        liquidation_capacity_usd_micro: l as u64,
                        health_factor_bps: spec_health_factor_bps(l as u64, debt_usdg),
                    },
                )
            },
        }
    }
}

/// Values one collateral entry against its market and oracle accounts.
fn risk_entry(
    collateral: &CollateralBalance,
    market_info: &AccountInfo,
    price_info: &AccountInfo,
    require_enabled: bool,
    clock: &Clock,
) -> (r: Result<(u64, u16, u16), MiladyError>)
    ensures
        match spec_risk_entry(*collateral, *market_info, *price_info, require_enabled, clock.unix_timestamp) {
            Ok((v, m)) => r == Ok::<(u64, u16, u16), MiladyError>((v, m.ltv_bps, m.liquidation_threshold_bps)),
            Err(e) => r == Err::<(u64, u16, u16), MiladyError>(e),
        },
{
    if !market_info.key.key_eq(&collateral.market) {
        return Err(MiladyError::MarketAccountMismatch);
    }
    let program = Pubkey::program_id();
    if !market_info.owner.key_eq(&program) {
        return Err(MiladyError::InvalidMarketOwner);
    }
    let market = MarketConfig::try_deserialize(market_info.data.as_slice())?;
    let ghost chosen = spec_market_of(market_info.data@);
    proof {
        assert(decodes_market(market_info.data@, market));
        assert(decodes_market(market_info.data@, chosen));
        assert(chosen.feed_id@ == market.feed_id@);
    }
    if require_enabled && !market.enabled {
        return Err(MiladyError::MarketDisabled);
    }
    let price = read_pyth_price(price_info, clock, &market)?;
    let value = token_value_usd_micro(collateral.amount, market.decimals, price.price, price.exponent)?;
    Ok((value, market.ltv_bps, market.liquidation_threshold_bps))
}

/// Values every collateral entry and aggregates value, borrow limit and liquidation
/// capacity; markets must be enabled when `require_enabled`.
pub fn compute_portfolio_risk_internal(
    credit_account: &CreditAccount,
    remaining_accounts: &[AccountInfo],
    clock: &Clock,
    require_enabled: bool,
) -> (r: Result<RiskSnapshot, MiladyError>)
    ensures
        r == spec_compute_portfolio_risk(
            *credit_account,
            remaining_accounts@,
            require_enabled,
            clock.unix_timestamp,
        ),
{
    let n = credit_account.collaterals.len();
    let expected = match n.checked_mul(2) {
        Some(v) => v,
        None => return Err(MiladyError::MathOverflow),
    };
    if remaining_accounts.len() != expected {
        return Err(MiladyError::InvalidRiskAccounts);
    }
    let ghost cs = credit_account.collaterals@;
    let ghost ra = remaining_accounts@;
    let ghost now = clock.unix_timestamp;
    let mut total_value: u128 = 0;
    let mut borrow_limit: u128 = 0;
    let mut liquidation_capacity: u128 = 0;
    let mut index: usize = 0;
    proof {
        assert(cs.take(0) =~= Seq::<CollateralBalance>::empty());
    }
    while index < n
        invariant
            n == cs.len(),
            cs == credit_account.collaterals@,
            ra == remaining_accounts@,
            now == clock.unix_timestamp,
            ra.len() == 2 * n,
            expected == n * 2,
            index <= n,
            spec_risk_totals(cs.take(index as int), ra, require_enabled, now)
                == Ok::<(int, int, int), MiladyError>(
                (total_value as int, borrow_limit as int, liquidation_capacity as int),
            ),
        decreases n - index,
    {
        let ghost prefix = cs.take(index + 1);
        proof {
            assert(prefix.drop_last() =~= cs.take(index as int));
            assert(prefix[index as int] == cs[index as int]);
        }
        let entry = risk_entry(
            &credit_account.collaterals[index],
            &remaining_accounts[index * 2],
            &remaining_accounts[index * 2 + 1],
            require_enabled,
            clock,
        );
        let (value, ltv, threshold) = match entry {
            Ok(t) => t,
            Err(e) => {
                proof {
                    lemma_risk_totals_error_persists(cs, ra, require_enabled, now, index + 1);
                }
                return Err(e);
            },
        };
        let w_ltv = weighted_value(value, ltv)?;
        let w_liq = weighted_value(value, threshold)?;
        let nt = total_value.checked_add(value as u128);
        let nb = borrow_limit.checked_add(w_ltv);
        let nl = liquidation_capacity.checked_add(w_liq);
        match (nt, nb, nl) {
            (Some(t), Some(b), Some(l)) => {
                total_value = t;
                borrow_limit = b;
                liquidation_capacity = l;
            },
            _ => {
                proof {
                    lemma_risk_totals_error_persists(cs, ra, require_enabled, now, index + 1);
                }
                return Err(MiladyError::MathOverflow);
            },
        }
        index = index + 1;
    }
    proof {
        assert(cs.take(n as int) =~= cs);
    }
    if total_value > u64::MAX as u128 || borrow_limit > u64::MAX as u128 || liquidation_capacity
        > u64::MAX as u128 {
        return Err(MiladyError::MathOverflow);
    }
    let liquidation_capacity_u64 = liquidation_capacity as u64;
    let health = health_factor_bps_for_debt(liquidation_capacity_u64, credit_account.debt_usdg)?;
    Ok(
        RiskSnapshot {
            collateral_value_usd_micro: total_value as u64,
            borrow_limit_usd_micro: borrow_limit as u64,
            liquidation_capacity_usd_micro: liquidation_capacity_u64,
            health_factor_bps: health,
        },
    )
}

/// An error on a prefix of the collateral list is the error of the whole list.
pub proof fn lemma_risk_totals_error_persists(
    cs: Seq<CollateralBalance>,
    ra: Seq<AccountInfo>,
    require_enabled: bool,
    now: i64,
    k: int,
)
    requires
        0 <= k <= cs.len(),
        spec_risk_totals(cs.take(k), ra, require_enabled, now) is Err,
    ensures
        spec_risk_totals(cs, ra, require_enabled, now) == spec_risk_totals(
            cs.take(k),
            ra,
            require_enabled,
            now,
        ),
    decreases cs.len() - k,
{
    if k < cs.len() {
        let next = cs.take(k + 1);
        assert(next.drop_last() =~= cs.take(k));
        lemma_risk_totals_error_persists(cs, ra, require_enabled, now, k + 1);
    } else {
        assert(cs.take(k) =~= cs);
    }
}

/// Portfolio risk for borrowing and withdrawals: every market must be enabled.
pub fn compute_portfolio_risk(
    credit_account: &CreditAccount,
    remaining_accounts: &[AccountInfo],
    clock: &Clock,
) -> (r: Result<RiskSnapshot, MiladyError>)
    ensures
        r == spec_compute_portfolio_risk(*credit_account, remaining_accounts@, true, clock.unix_timestamp),
{
    compute_portfolio_risk_internal(credit_account, remaining_accounts, clock, true)
}

/// Portfolio risk for liquidation: disabled markets still count.
pub fn compute_portfolio_risk_for_liquidation(
    credit_account: &CreditAccount,
    remaining_accounts: &[AccountInfo],
    clock: &Clock,
) -> (r: Result<RiskSnapshot, MiladyError>)
    ensures
        r == spec_compute_portfolio_risk(*credit_account, remaining_accounts@, false, clock.unix_timestamp),
{
    compute_portfolio_risk_internal(credit_account, remaining_accounts, clock, false)
}

// ------------------------------------------------------------------------------------
// Collateral list of a credit account
// ------------------------------------------------------------------------------------

/// Entry `i` is the first one recorded for market `key`.
pub open spec fn is_first_match(cs: Seq<CollateralBalance>, key: Seq<u8>, i: int) -> bool {
    &&& 0 <= i < cs.len()
    &&& cs[i].market@ == key
    &&& forall|j: int| 0 <= j < i ==> cs[j].market@ != key
}

/// Some entry is recorded for market `key`.
pub open spec fn has_match(cs: Seq<CollateralBalance>, key: Seq<u8>) -> bool {
    exists|i: int| 0 <= i < cs.len() && cs[i].market@ == key
}

/// Index of the first entry recorded for market `key`.
pub open spec fn first_match(cs: Seq<CollateralBalance>, key: Seq<u8>) -> int {
    choose|i: int| is_first_match(cs, key, i)
}

/// The collateral list after depositing `amount` of `market`: added to the market's
/// entry, or appended as a new entry when there is room.
pub open spec fn spec_upsert_collateral(cs: Seq<CollateralBalance>, market: Pubkey, amount: u64) -> Result<
    Seq<CollateralBalance>,
    MiladyError,
> {
    if has_match(cs, market@) {
        let i = first_match(cs, market@);
        if cs[i].amount + amount > u64::MAX {
            Err(MiladyError::MathOverflow)
        } else {
            Ok(
                cs.update(
                    i,
                    CollateralBalance { market: cs[i].market, amount: (cs[i].amount + amount) as u64 },
                ),
            )
        }
    } else if cs.len() >= MAX_COLLATERAL_ASSETS {
        Err(MiladyError::TooManyCollateralAssets)
    } else {
        Ok(cs.push(CollateralBalance { market, amount }))
    }
}

/// The collateral list after removing `amount` of `market`; an entry that reaches zero
/// is dropped.
pub open spec fn spec_reduce_collateral(cs: Seq<CollateralBalance>, market: Pubkey, amount: u64) -> Result<
    Seq<CollateralBalance>,
    MiladyError,
> {
    if !has_match(cs, market@) {
        Err(MiladyError::CollateralNotFound)
    } else {
        let i = first_match(cs, market@);
        if cs[i].amount < amount {
            Err(MiladyError::InsufficientCollateral)
        } else if cs[i].amount == amount {
            Ok(cs.remove(i))
        } else {
            Ok(
                cs.update(
                    i,
                    CollateralBalance { market: cs[i].market, amount: (cs[i].amount - amount) as u64 },
                ),
            )
        }
    }
}

/// The first match is unique.
pub proof fn lemma_first_match(cs: Seq<CollateralBalance>, key: Seq<u8>, i: int)
    requires
        is_first_match(cs, key, i),
    ensures
        has_match(cs, key),
        first_match(cs, key) == i,
{
    let c = first_match(cs, key);
    assert(is_first_match(cs, key, c));
    if c < i {
        assert(cs[c].market@ != key);
    } else if c > i {
        assert(cs[i].market@ != key);
    }
}

/// Index of the first entry recorded for `market`, if any.
pub fn find_collateral(cs: &Vec<CollateralBalance>, market: &Pubkey) -> (r: Option<usize>)
    ensures
        match r {
            Some(i) => is_first_match(cs@, market@, i as int) && first_match(cs@, market@) == i,
            None => !has_match(cs@, market@),
        },
{
    let mut i: usize = 0;
    while i < cs.len()
        invariant
            i <= cs@.len(),
            forall|j: int| 0 <= j < i ==> cs@[j].market@ != market@,
        decreases cs@.len() - i,
    {
        if cs[i].market.key_eq(market) {
            proof {
                lemma_first_match(cs@, market@, i as int);
            }
            return Some(i);
        }
        i = i + 1;
    }
    None
}

/// Adds deposited collateral to a credit account. On error the account is unchanged.
pub fn upsert_collateral(account: &mut CreditAccount, market: Pubkey, amount: u64) -> (r: Result<
    (),
    MiladyError,
>)
    ensures
        match spec_upsert_collateral(old(account).collaterals@, market, amount) {
            Ok(cs) => r is Ok && final(account).collaterals@ == cs,
            Err(e) => r == Err::<(), MiladyError>(e) && final(account).collaterals@ == old(
                account,
            ).collaterals@,
        },
        *final(account) == (CreditAccount { collaterals: final(account).collaterals, ..*old(account) }),
{
    match find_collateral(&account.collaterals, &market) {
        Some(i) => {
            let entry = account.collaterals[i];
            match entry.amount.checked_add(amount) {
                Some(v) => {
                    account.collaterals.set(i, CollateralBalance { market: entry.market, amount: v });
                    Ok(())
                },
                None => Err(MiladyError::MathOverflow),
            }
        },
        None => {
            if !(account.collaterals.len() < MAX_COLLATERAL_ASSETS) {
                return Err(MiladyError::TooManyCollateralAssets);
            }
            account.collaterals.push(CollateralBalance { market, amount });
            Ok(())
        },
    }
}

/// Removes collateral from a credit account, dropping an entry that reaches zero.
/// On error the account is unchanged.
pub fn reduce_collateral(account: &mut CreditAccount, market: Pubkey, amount: u64) -> (r: Result<
    (),
    MiladyError,
>)
    ensures
        match spec_reduce_collateral(old(account).collaterals@, market, amount) {
            Ok(cs) => r is Ok && final(account).collaterals@ == cs,
            Err(e) => r == Err::<(), MiladyError>(e) && final(account).collaterals@ == old(
                account,
            ).collaterals@,
        },
        *final(account) == (CreditAccount { collaterals: final(account).collaterals, ..*old(account) }),
{
    let index = match find_collateral(&account.collaterals, &market) {
        Some(i) => i,
        None => return Err(MiladyError::CollateralNotFound),
    };
    let entry = account.collaterals[index];
    let balance = match entry.amount.checked_sub(amount) {
        Some(v) => v,
        None => return Err(MiladyError::InsufficientCollateral),
    };
    if balance == 0 {
        account.collaterals.remove(index);
    } else {
        account.collaterals.set(index, CollateralBalance { market: entry.market, amount: balance });
    }
    Ok(())
}

// ------------------------------------------------------------------------------------
// Administrative validation
// ------------------------------------------------------------------------------------

/// Only the configured protocol authority may sign.
pub fn assert_protocol_authority(config: &ProtocolConfig, authority: &Pubkey) -> (r: Result<
    (),
    MiladyError,
>)
    ensures
        r == (if authority@ == config.authority@ {
            Ok::<(), MiladyError>(())
        } else {
            Err(MiladyError::Unauthorized)
        }),
{
    if authority.key_eq(&config.authority) {
        Ok(())
    } else {
        Err(MiladyError::Unauthorized)
    }
}

/// Which risk parameters a market may carry, and which error refuses the others.
pub open spec fn spec_validate_risk_parameters(
    ltv_bps: u16,
    liquidation_threshold_bps: u16,
    liquidation_bonus_bps: u16,
    max_confidence_bps: u16,
    max_price_age_secs: u32,
) -> Result<(), MiladyError> {
    if !(ltv_bps > 0 && ltv_bps < 10_000) {
        Err(MiladyError::InvalidLtv)
    } else if !(liquidation_threshold_bps > ltv_bps && liquidation_threshold_bps <= 10_000) {
        Err(MiladyError::InvalidLiquidationThreshold)
    } else if liquidation_bonus_bps > MAX_LIQUIDATION_BONUS_BPS {
        Err(MiladyError::InvalidLiquidationBonus)
    } else if !(max_confidence_bps > 0 && max_confidence_bps <= MAX_CONFIDENCE_BPS) {
        Err(MiladyError::InvalidConfidenceLimit)
    } else if !(max_price_age_secs > 0 && max_price_age_secs <= MAX_ORACLE_AGE_SECS) {
        Err(MiladyError::InvalidOracleAge)
    } else {
        Ok(())
    }
}

/// Checks a market's LTV, liquidation threshold, bonus, confidence and age limits.
pub fn validate_risk_parameters(
    ltv_bps: u16,
    liquidation_threshold_bps: u16,
    liquidation_bonus_bps: u16,
    max_confidence_bps: u16,
    max_price_age_secs: u32,
) -> (r: Result<(), MiladyError>)
    ensures
        r == spec_validate_risk_parameters(
            ltv_bps,
            liquidation_threshold_bps,
            liquidation_bonus_bps,
            max_confidence_bps,
            max_price_age_secs,
        ),
{
    if !(ltv_bps > 0 && ltv_bps < 10_000) {
        return Err(MiladyError::InvalidLtv);
    }
    if !(liquidation_threshold_bps > ltv_bps && liquidation_threshold_bps <= 10_000) {
        return Err(MiladyError::InvalidLiquidationThreshold);
    }
    if liquidation_bonus_bps > MAX_LIQUIDATION_BONUS_BPS {
        return Err(MiladyError::InvalidLiquidationBonus);
    }
    if !(max_confidence_bps > 0 && max_confidence_bps <= MAX_CONFIDENCE_BPS) {
        return Err(MiladyError::InvalidConfidenceLimit);
    }
    if !(max_price_age_secs > 0 && max_price_age_secs <= MAX_ORACLE_AGE_SECS) {
        return Err(MiladyError::InvalidOracleAge);
    }
    Ok(())
}

/// Checks the risk parameters of a market registration.
pub fn validate_market_args(args: &RegisterMarketArgs) -> (r: Result<(), MiladyError>)
    ensures
        r == spec_validate_risk_parameters(
            args.ltv_bps,
            args.liquidation_threshold_bps,
            args.liquidation_bonus_bps,
            args.max_confidence_bps,
            args.max_price_age_secs,
        ),
{
    validate_risk_parameters(
        args.ltv_bps,
        args.liquidation_threshold_bps,
        args.liquidation_bonus_bps,
        args.max_confidence_bps,
        args.max_price_age_secs,
    )
}

/// Some byte of the array is non-zero.
pub open spec fn nonzero_bytes(s: Seq<u8>) -> bool {
    exists|j: int| 0 <= j < s.len() && s[j] != 0
}

/// Checks a market update: a non-empty feed id and valid risk parameters.
pub fn validate_update_market_args(args: &UpdateMarketArgs) -> (r: Result<(), MiladyError>)
    ensures
        r == (if !nonzero_bytes(args.feed_id@) {
            Err(MiladyError::InvalidFeedId)
        } else {
            spec_validate_risk_parameters(
                args.ltv_bps,
                args.liquidation_threshold_bps,
                args.liquidation_bonus_bps,
                args.max_confidence_bps,
                args.max_price_age_secs,
            )
        }),
{
    if !any_nonzero(&args.feed_id) {
        return Err(MiladyError::InvalidFeedId);
    }
    validate_risk_parameters(
        args.ltv_bps,
        args.liquidation_threshold_bps,
        args.liquidation_bonus_bps,
        args.max_confidence_bps,
        args.max_price_age_secs,
    )
}

} // verus!
