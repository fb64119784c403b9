//! Account layouts of the protocol and instruction arguments.
use vstd::prelude::*;
use crate::pubkey::Pubkey;
use crate::errors::MiladyError;
use crate::bytes::{le_field, read_u16, read_u32, read_u64, read_array32, read_array8, prefix8_matches};

verus! {

/// Global protocol configuration (the `protocol` PDA).
#[derive(Clone, Copy, Debug)]
pub struct ProtocolConfig {
    pub authority: Pubkey,
    pub treasury: Pubkey,
    pub emergency_authority: Pubkey,
    pub version: u16,
    pub paused: bool,
    pub bump: u8,
}

/// Per-collateral-asset risk parameters and deposit accounting.
#[derive(Clone, Copy, Debug)]
pub struct MarketConfig {
    pub protocol: Pubkey,
    pub mint: Pubkey,
    pub symbol: [u8; 8],
    pub feed_id: [u8; 32],
    pub decimals: u8,
    pub ltv_bps: u16,
    pub liquidation_threshold_bps: u16,
    pub liquidation_bonus_bps: u16,
    pub max_confidence_bps: u16,
    pub max_price_age_secs: u32,
    pub supply_cap: u64,
    pub debt_ceiling_usdg: u64,
    pub total_deposited: u64,
    pub enabled: bool,
    pub bump: u8,
}

/// A mock-asset faucet registration.
#[derive(Clone, Copy, Debug)]
pub struct FaucetConfig {
    pub protocol: Pubkey,
    pub mint: Pubkey,
    pub amount_per_claim: u64,
    pub cooldown_seconds: u32,
    pub enabled: bool,
    pub bump: u8,
}

/// Per-wallet, per-mint faucet cooldown record.
#[derive(Clone, Copy, Debug)]
pub struct FaucetClaim {
    pub claimant: Pubkey,
    pub mint: Pubkey,
    pub last_claim_ts: i64,
    pub total_claimed: u64,
    pub bump: u8,
}

/// Amount of one collateral market held for a credit account.
#[derive(Clone, Copy, Debug)]
pub struct CollateralBalance {
    pub market: Pubkey,
    pub amount: u64,
}

/// A borrower's credit account: debt, collateral list and the last risk snapshot.
#[derive(Clone, Debug)]
pub struct CreditAccount {
    pub owner: Pubkey,
    /// USDG has 6 decimals, so raw debt units equal USD micro-units.
    pub debt_usdg: u64,
    /// Borrow index at which `debt_usdg` was last synchronized.
    pub borrow_index_snapshot_e18: u128,
    pub last_borrow_ts: i64,
    pub collaterals: Vec<CollateralBalance>,
    pub last_collateral_value_usd_micro: u64,
    pub last_borrow_limit_usd_micro: u64,
    pub last_liquidation_capacity_usd_micro: u64,
    pub last_health_factor_bps: u64,
    pub last_valuation_ts: i64,
    pub bump: u8,
}

/// The USDG lending pool: balance sheet, interest indexes and rate model.
#[derive(Clone, Copy, Debug)]
pub struct LendingPool {
    pub protocol: Pubkey,
    pub usdg_mint: Pubkey,
    pub liquidity_vault: Pubkey,
    pub total_supplied_usdg: u64,
    pub total_borrowed_usdg: u64,
    /// Reserve claim created from the protocol's share of borrower interest.
    pub protocol_reserves_usdg: u64,
    /// Carries sub-micro-unit borrower interest across frequent accrual calls.
    pub borrow_interest_remainder: u128,
    /// Zero means uncapped.
    pub borrow_cap_usdg: u64,
    /// Global indexes, scaled by 1e18.
    pub borrow_index_e18: u128,
    pub supply_index_e18: u128,
    pub last_accrual_ts: i64,
    pub reserve_factor_bps: u16,
    /// Piecewise utilization curve: base + slope1 up to kink, then slope2.
    pub base_rate_bps: u32,
    pub slope1_bps: u32,
    pub slope2_bps: u32,
    pub kink_utilization_bps: u16,
    pub last_borrow_apr_bps: u32,
    pub last_supply_apr_bps: u32,
    pub borrow_enabled: bool,
    pub bump: u8,
    /// Dedicated USDG insurance reserve, second in the loss waterfall.
    pub insurance_reserve_usdg: u64,
    /// Losses not covered by reserves; a claim on the pool's assets.
    pub bad_debt_usdg: u64,
    /// Largest share of a debt one liquidation may repay.
    pub liquidation_close_factor_bps: u16,
    pub liquidation_enabled: bool,
}

/// A lender's claim on the pool.
#[derive(Clone, Copy, Debug)]
pub struct SupplierPosition {
    pub owner: Pubkey,
    pub lending_pool: Pubkey,
    /// Balance including interest synchronized so far.
    pub principal_usdg: u64,
    pub supply_index_snapshot_e18: u128,
    pub created_at: i64,
    pub last_updated_ts: i64,
    pub bump: u8,
}

/// Arguments of `register_market`.
#[derive(Clone, Copy, Debug)]
pub struct RegisterMarketArgs {
    pub symbol: [u8; 8],
    pub feed_id: [u8; 32],
    pub ltv_bps: u16,
    pub liquidation_threshold_bps: u16,
    pub liquidation_bonus_bps: u16,
    pub max_confidence_bps: u16,
    pub max_price_age_secs: u32,
    /// Raw token units. Zero means uncapped.
    pub supply_cap: u64,
    pub debt_ceiling_usdg: u64,
}

/// Arguments of `update_market`.
#[derive(Clone, Copy, Debug)]
pub struct UpdateMarketArgs {
    pub feed_id: [u8; 32],
    pub ltv_bps: u16,
    pub liquidation_threshold_bps: u16,
    pub liquidation_bonus_bps: u16,
    pub max_confidence_bps: u16,
    pub max_price_age_secs: u32,
    pub supply_cap: u64,
    pub debt_ceiling_usdg: u64,
    pub enabled: bool,
}

/// Arguments of `initialize_lending_pool`.
#[derive(Clone, Copy, Debug)]
pub struct InitializeLendingPoolArgs {
    /// Zero means uncapped.
    pub borrow_cap_usdg: u64,
    pub reserve_factor_bps: u16,
    pub base_rate_bps: u32,
    pub slope1_bps: u32,
    pub slope2_bps: u32,
    pub kink_utilization_bps: u16,
}

/// Arguments of `update_lending_pool`.
#[derive(Clone, Copy, Debug)]
pub struct UpdateLendingPoolArgs {
    pub borrow_cap_usdg: u64,
    pub reserve_factor_bps: u16,
    pub base_rate_bps: u32,
    pub slope1_bps: u32,
    pub slope2_bps: u32,
    pub kink_utilization_bps: u16,
    pub borrow_enabled: bool,
}

/// First eight bytes of every `MarketConfig` account.
pub open spec fn spec_market_discriminator() -> Seq<u8> {
    seq![119u8, 255u8, 200u8, 88u8, 252u8, 82u8, 128u8, 24u8]
}

/// Length of a `MarketConfig` account's discriminator and fields.
pub const MARKET_CONFIG_ENCODED_LEN: usize = 151;

/// Whether `s` starts with a well-formed `MarketConfig` encoding: discriminator,
/// enough bytes for every field, and a Borsh boolean (0 or 1) for `enabled`.
pub open spec fn market_layout_ok(s: Seq<u8>) -> bool {
    &&& s.len() >= 151
    &&& s.subrange(0, 8) == spec_market_discriminator()
    &&& (s[149] == 0 || s[149] == 1)
}

/// Why `s` is not a well-formed `MarketConfig` encoding: no room for a discriminator,
/// another account type's discriminator, or a malformed body.
pub open spec fn market_decode_error(s: Seq<u8>) -> MiladyError {
    if s.len() < 8 {
        MiladyError::AccountDiscriminatorNotFound
    } else if s.subrange(0, 8) != spec_market_discriminator() {
        MiladyError::AccountDiscriminatorMismatch
    } else {
        MiladyError::AccountDidNotDeserialize
    }
}

/// `m` holds the fields that the `MarketConfig` encoding `s` carries.
pub open spec fn decodes_market(s: Seq<u8>, m: MarketConfig) -> bool {
    &&& m.protocol@ == s.subrange(8, 40)
    &&& m.mint@ == s.subrange(40, 72)
    &&& m.symbol@ == s.subrange(72, 80)
    &&& m.feed_id@ == s.subrange(80, 112)
    &&& m.decimals == s[112]
    &&& m.ltv_bps == le_field(s, 113, 2)
    &&& m.liquidation_threshold_bps == le_field(s, 115, 2)
    &&& m.liquidation_bonus_bps == le_field(s, 117, 2)
    &&& m.max_confidence_bps == le_field(s, 119, 2)
    &&& m.max_price_age_secs == le_field(s, 121, 4)
    &&& m.supply_cap == le_field(s, 125, 8)
    &&& m.debt_ceiling_usdg == le_field(s, 133, 8)
    &&& m.total_deposited == le_field(s, 141, 8)
    &&& m.enabled == (s[149] == 1)
    &&& m.bump == s[150]
}

impl MarketConfig {
    /// Decodes a `MarketConfig` account: an eight-byte discriminator followed by the
    /// fields in declaration order, little-endian; trailing bytes are ignored.
    pub fn try_deserialize(data: &[u8]) -> (r: Result<MarketConfig, MiladyError>)
        ensures
            match r {
                Ok(m) => market_layout_ok(data@) && decodes_market(data@, m),
                Err(e) => !market_layout_ok(data@) && e == market_decode_error(data@),
            },
    {
        if data.len() < 8 {
            return Err(MiladyError::AccountDiscriminatorNotFound);
        }
        let disc: [u8; 8] = [119, 255, 200, 88, 252, 82, 128, 24];
        proof {
            assert(disc@ =~= spec_market_discriminator());
        }
        if !prefix8_matches(data, 0, &disc) {
            return Err(MiladyError::AccountDiscriminatorMismatch);
        }
        if data.len() < MARKET_CONFIG_ENCODED_LEN {
            return Err(MiladyError::AccountDidNotDeserialize);
        }
        let enabled_byte = data[149];
        if enabled_byte > 1 {
            return Err(MiladyError::AccountDidNotDeserialize);
        }
        Ok(MarketConfig {
            protocol: Pubkey { bytes: read_array32(data, 8) },
            mint: Pubkey { bytes: read_array32(data, 40) },
            symbol: read_array8(data, 72),
            feed_id: read_array32(data, 80),
            decimals: data[112],
            ltv_bps: read_u16(data, 113),
            liquidation_threshold_bps: read_u16(data, 115),
            liquidation_bonus_bps: read_u16(data, 117),
            max_confidence_bps: read_u16(data, 119),
            max_price_age_secs: read_u32(data, 121),
            supply_cap: read_u64(data, 125),
            debt_ceiling_usdg: read_u64(data, 133),
            total_deposited: read_u64(data, 141),
            enabled: enabled_byte == 1,
            bump: data[150],
        })
    }
}

impl CreditAccount {
    /// A copy of the account with its own collateral list.
    pub fn duplicate(&self) -> (r: CreditAccount)
        ensures
            r.collaterals@ == self.collaterals@,
            r == (CreditAccount { collaterals: r.collaterals, ..*self }),
    {
        let mut collaterals: Vec<CollateralBalance> = Vec::new();
        let mut i: usize = 0;
        while i < self.collaterals.len()
            invariant
                i <= self.collaterals@.len(),
                collaterals@ == self.collaterals@.take(i as int),
            decreases self.collaterals@.len() - i,
        {
            collaterals.push(self.collaterals[i]);
            i = i + 1;
            proof {
                assert(collaterals@ =~= self.collaterals@.take(i as int));
            }
        }
        proof {
            assert(self.collaterals@.take(i as int) =~= self.collaterals@);
        }
        CreditAccount {
            owner: self.owner,
            debt_usdg: self.debt_usdg,
            borrow_index_snapshot_e18: self.borrow_index_snapshot_e18,
            last_borrow_ts: self.last_borrow_ts,
            collaterals,
            last_collateral_value_usd_micro: self.last_collateral_value_usd_micro,
            last_borrow_limit_usd_micro: self.last_borrow_limit_usd_micro,
            last_liquidation_capacity_usd_micro: self.last_liquidation_capacity_usd_micro,
            last_health_factor_bps: self.last_health_factor_bps,
            last_valuation_ts: self.last_valuation_ts,
            bump: self.bump,
        }
    }
}

} // verus!
