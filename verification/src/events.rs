//! Events: what each instruction reports, including the token movements it asks for.
use vstd::prelude::*;
use crate::pubkey::Pubkey;

verus! {

/// The protocol configuration was created.
#[derive(Clone, Copy, Debug)]
pub struct ProtocolInitialized {
    pub authority: Pubkey,
    pub treasury: Pubkey,
    pub emergency_authority: Pubkey,
    pub version: u16,
}

/// The emergency pause flag changed.
#[derive(Clone, Copy, Debug)]
pub struct ProtocolPauseChanged {
    pub paused: bool,
}

/// A collateral market was registered.
#[derive(Clone, Copy, Debug)]
pub struct MarketRegistered {
    pub market: Pubkey,
    pub mint: Pubkey,
    pub symbol: [u8; 8],
    pub ltv_bps: u16,
    pub liquidation_threshold_bps: u16,
}

/// A collateral market's parameters changed.
#[derive(Clone, Copy, Debug)]
pub struct MarketUpdated {
    pub market: Pubkey,
    pub enabled: bool,
    pub ltv_bps: u16,
    pub liquidation_threshold_bps: u16,
}

/// A faucet asset was registered.
#[derive(Clone, Copy, Debug)]
pub struct FaucetAssetRegistered {
    pub mint: Pubkey,
    pub amount_per_claim: u64,
    pub cooldown_seconds: u32,
}

/// `amount` of the faucet mint is to be minted to the claimant.
#[derive(Clone, Copy, Debug)]
pub struct FaucetClaimed {
    pub claimant: Pubkey,
    pub mint: Pubkey,
    pub amount: u64,
    pub total_claimed: u64,
}

/// A credit account was opened.
#[derive(Clone, Copy, Debug)]
pub struct CreditAccountInitialized {
    pub owner: Pubkey,
    pub credit_account: Pubkey,
}

/// `amount` collateral tokens move from the owner into the collateral vault.
#[derive(Clone, Copy, Debug)]
pub struct CollateralDeposited {
    pub owner: Pubkey,
    pub market: Pubkey,
    pub mint: Pubkey,
    pub amount: u64,
}

/// `amount` collateral tokens move from the collateral vault to the owner.
#[derive(Clone, Copy, Debug)]
pub struct CollateralWithdrawn {
    pub owner: Pubkey,
    pub market: Pubkey,
    pub mint: Pubkey,
    pub amount: u64,
}

/// The persisted risk snapshot was refreshed.
#[derive(Clone, Copy, Debug)]
pub struct HealthRefreshed {
    pub credit_account: Pubkey,
    pub collateral_value_usd_micro: u64,
    pub borrow_limit_usd_micro: u64,
    pub liquidation_capacity_usd_micro: u64,
    pub debt_usdg: u64,
    pub health_factor_bps: u64,
}

/// The USDG lending pool was created.
#[derive(Clone, Copy, Debug)]
pub struct LendingPoolInitialized {
    pub lending_pool: Pubkey,
    pub usdg_mint: Pubkey,
    pub liquidity_vault: Pubkey,
    pub borrow_cap_usdg: u64,
    pub reserve_factor_bps: u16,
    pub base_rate_bps: u32,
    pub slope1_bps: u32,
    pub slope2_bps: u32,
    pub kink_utilization_bps: u16,
}

/// The pool's cap, rate model or borrow switch changed.
#[derive(Clone, Copy, Debug)]
pub struct LendingPoolUpdated {
    pub lending_pool: Pubkey,
    pub borrow_cap_usdg: u64,
    pub reserve_factor_bps: u16,
    pub base_rate_bps: u32,
    pub slope1_bps: u32,
    pub slope2_bps: u32,
    pub kink_utilization_bps: u16,
    pub borrow_enabled: bool,
}

/// `amount` USDG moves from the supplier into the liquidity vault.
#[derive(Clone, Copy, Debug)]
pub struct UsdgSupplied {
    pub supplier: Pubkey,
    pub lending_pool: Pubkey,
    pub amount: u64,
    pub accrued_interest_usdg: u64,
    pub supplier_balance_usdg: u64,
    pub total_supplied_usdg: u64,
}

/// `amount` USDG moves from the liquidity vault to the supplier.
#[derive(Clone, Copy, Debug)]
pub struct UsdgSupplyWithdrawn {
    pub supplier: Pubkey,
    pub lending_pool: Pubkey,
    pub amount: u64,
    pub accrued_interest_usdg: u64,
    pub supplier_balance_usdg: u64,
    pub total_supplied_usdg: u64,
}

/// `amount` USDG moves from the liquidity vault to the borrower.
#[derive(Clone, Copy, Debug)]
pub struct UsdgBorrowed {
    pub borrower: Pubkey,
    pub lending_pool: Pubkey,
    pub amount: u64,
    pub accrued_interest_usdg: u64,
    pub new_debt_usdg: u64,
    pub total_borrowed_usdg: u64,
    pub borrow_limit_usd_micro: u64,
    pub health_factor_bps: u64,
    pub borrow_apr_bps: u32,
}

/// Borrower interest was accrued into the pool.
#[derive(Clone, Copy, Debug)]
pub struct InterestAccrued {
    pub lending_pool: Pubkey,
    pub elapsed_seconds: u64,
    pub utilization_bps: u16,
    pub borrow_apr_bps: u32,
    pub supply_apr_bps: u32,
    pub gross_interest_usdg: u64,
    pub supplier_interest_usdg: u64,
    pub reserve_interest_usdg: u64,
    pub total_borrowed_usdg: u64,
    pub total_supplied_usdg: u64,
    pub protocol_reserves_usdg: u64,
    pub borrow_index_e18: u128,
    pub supply_index_e18: u128,
}

/// A borrower's debt was brought up to the pool's borrow index.
#[derive(Clone, Copy, Debug)]
pub struct BorrowerInterestSynced {
    pub owner: Pubkey,
    pub credit_account: Pubkey,
    pub accrued_interest_usdg: u64,
    pub debt_usdg: u64,
    pub borrow_index_e18: u128,
    pub health_factor_bps: u64,
}

/// A supplier's balance was brought up to the pool's supply index.
#[derive(Clone, Copy, Debug)]
pub struct SupplierInterestSynced {
    pub supplier: Pubkey,
    pub supplier_position: Pubkey,
    pub accrued_interest_usdg: u64,
    pub balance_usdg: u64,
    pub supply_index_e18: u128,
}

/// `amount` USDG moves from the payer into the liquidity vault against a debt.
#[derive(Clone, Copy, Debug)]
pub struct UsdgRepaid {
    pub payer: Pubkey,
    pub borrower: Pubkey,
    pub lending_pool: Pubkey,
    pub amount: u64,
    pub accrued_interest_usdg: u64,
    pub remaining_debt_usdg: u64,
    pub total_borrowed_usdg: u64,
    pub available_liquidity_usdg: u64,
    pub health_factor_bps: u64,
    pub on_behalf: bool,
}

/// A credit account is closed and its rent returned.
#[derive(Clone, Copy, Debug)]
pub struct CreditAccountClosed {
    pub owner: Pubkey,
    pub credit_account: Pubkey,
}

/// A supplier position is closed and its rent returned.
#[derive(Clone, Copy, Debug)]
pub struct SupplierPositionClosed {
    pub supplier: Pubkey,
    pub supplier_position: Pubkey,
    pub lending_pool: Pubkey,
}

/// The liquidation close factor or switch changed.
#[derive(Clone, Copy, Debug)]
pub struct LiquidationConfigUpdated {
    pub lending_pool: Pubkey,
    pub close_factor_bps: u16,
    pub enabled: bool,
}

/// `repay_usdg` USDG moves from the liquidator into the pool and `collateral_seized` collateral from the vault to the liquidator.
#[derive(Clone, Copy, Debug)]
pub struct PositionLiquidated {
    pub liquidator: Pubkey,
    pub borrower: Pubkey,
    pub lending_pool: Pubkey,
    pub market: Pubkey,
    pub repay_usdg: u64,
    pub collateral_seized: u64,
    pub liquidation_bonus_bps: u16,
    pub debt_remaining_usdg: u64,
    pub health_before_bps: u64,
    pub health_after_bps: u64,
    pub available_liquidity_usdg: u64,
}

/// `amount` USDG moves from the funder into the liquidity vault as insurance.
#[derive(Clone, Copy, Debug)]
pub struct InsuranceReserveFunded {
    pub funder: Pubkey,
    pub lending_pool: Pubkey,
    pub amount: u64,
    pub insurance_reserve_usdg: u64,
}

/// An exhausted account's debt was written off through the loss waterfall.
#[derive(Clone, Copy, Debug)]
pub struct BadDebtAbsorbed {
    pub borrower: Pubkey,
    pub lending_pool: Pubkey,
    pub written_off_usdg: u64,
    pub protocol_reserve_cover_usdg: u64,
    pub insurance_cover_usdg: u64,
    pub uncovered_bad_debt_usdg: u64,
    pub total_bad_debt_usdg: u64,
}

/// `amount` USDG moves from the funder into the liquidity vault against bad debt.
#[derive(Clone, Copy, Debug)]
pub struct BadDebtRecapitalized {
    pub funder: Pubkey,
    pub lending_pool: Pubkey,
    pub amount: u64,
    pub remaining_bad_debt_usdg: u64,
}

} // verus!
