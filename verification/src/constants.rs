use vstd::prelude::*;

verus! {

/// Basis-point denominator: 10_000 bps = 100%.
pub const BPS_DENOMINATOR: u64 = 10_000;
/// One US dollar in micro-units; USDG has 6 decimals so raw USDG units are USD micro-units.
pub const USD_MICRO: u64 = 1_000_000;
/// Maximum number of distinct collateral markets per credit account.
pub const MAX_COLLATERAL_ASSETS: usize = 8;
/// Length of a market symbol.
pub const MAX_SYMBOL_BYTES: usize = 8;
/// Highest liquidation bonus a market may configure.
pub const MAX_LIQUIDATION_BONUS_BPS: u16 = 2_500;
/// Widest oracle confidence band a market may configure.
pub const MAX_CONFIDENCE_BPS: u16 = 2_000;
/// Longest oracle staleness window a market may configure.
pub const MAX_ORACLE_AGE_SECS: u32 = 3_600;
/// Highest protocol reserve factor of the interest model.
pub const MAX_RESERVE_FACTOR_BPS: u16 = 5_000;
/// Safety ceiling on the borrow APR the rate curve may produce.
pub const MAX_BORROW_APR_BPS: u32 = 10_000;
/// Seconds in a (365-day) year, the unit of every APR.
pub const SECONDS_PER_YEAR: u64 = 31_536_000;
/// Scale of the borrow and supply indexes: 1.0 is 1e18.
pub const INDEX_SCALE_E18: u128 = 1_000_000_000_000_000_000;
/// Longest faucet cooldown accepted at registration.
pub const MAX_FAUCET_COOLDOWN_SECS: u32 = 86_400;
/// Layout version written by `initialize_protocol`.
pub const PROTOCOL_VERSION: u16 = 7;

} // verus!
