//! Accounts of the liquidation and loss-waterfall instructions, as plain values.
use vstd::prelude::*;
use crate::pubkey::Pubkey;
use crate::state::{ProtocolConfig, MarketConfig, CreditAccount, LendingPool};
use crate::risk::AccountInfo;

verus! {

/// Accounts of `update_liquidation_config`.
#[derive(Clone, Copy, Debug)]
pub struct UpdateLiquidationConfig {
    /// Signer; must be the protocol authority.
    pub authority: Pubkey,
    pub protocol_config: ProtocolConfig,
    pub protocol_config_key: Pubkey,
    pub lending_pool: LendingPool,
    pub lending_pool_key: Pubkey,
}

/// Accounts of `liquidate`; `remaining_accounts` holds a (market, oracle) pair for every
/// collateral entry of the borrower, in order, and `price_update` is the oracle account
/// of the market being seized.
#[derive(Clone, Debug)]
pub struct Liquidate {
    /// Signer repaying the debt and receiving the collateral.
    pub liquidator: Pubkey,
    /// Owner of the credit account being liquidated.
    pub borrower: Pubkey,
    pub protocol_config: ProtocolConfig,
    pub protocol_config_key: Pubkey,
    pub credit_account: CreditAccount,
    pub lending_pool: LendingPool,
    pub lending_pool_key: Pubkey,
    pub usdg_mint: Pubkey,
    pub usdg_mint_decimals: u8,
    /// Token balance of the liquidator's USDG account.
    pub liquidator_usdg_amount: u64,
    pub liquidity_vault: Pubkey,
    pub market_config: MarketConfig,
    pub market_config_key: Pubkey,
    pub collateral_mint: Pubkey,
    pub collateral_mint_decimals: u8,
    /// Token balance of the borrower's collateral vault for this market.
    pub collateral_vault_amount: u64,
    pub price_update: AccountInfo,
    pub remaining_accounts: Vec<AccountInfo>,
}

/// Accounts of `fund_insurance_reserve`.
#[derive(Clone, Copy, Debug)]
pub struct FundInsuranceReserve {
    /// Signer paying the USDG.
    pub funder: Pubkey,
    pub protocol_config: ProtocolConfig,
    pub protocol_config_key: Pubkey,
    pub lending_pool: LendingPool,
    pub lending_pool_key: Pubkey,
    pub usdg_mint: Pubkey,
    pub usdg_mint_decimals: u8,
    /// Token balance of the funder's USDG account.
    pub funder_usdg_amount: u64,
    pub liquidity_vault: Pubkey,
}

/// Accounts of `absorb_bad_debt`.
#[derive(Clone, Debug)]
pub struct AbsorbBadDebt {
    pub caller: Pubkey,
    /// Owner of the exhausted credit account.
    pub borrower: Pubkey,
    pub protocol_config: ProtocolConfig,
    pub protocol_config_key: Pubkey,
    pub credit_account: CreditAccount,
    pub lending_pool: LendingPool,
    pub lending_pool_key: Pubkey,
}

/// Accounts of `recapitalize_bad_debt`.
#[derive(Clone, Copy, Debug)]
pub struct RecapitalizeBadDebt {
    /// Signer paying the USDG.
    pub funder: Pubkey,
    pub protocol_config: ProtocolConfig,
    pub protocol_config_key: Pubkey,
    pub lending_pool: LendingPool,
    pub lending_pool_key: Pubkey,
    pub usdg_mint: Pubkey,
    pub usdg_mint_decimals: u8,
    /// Token balance of the funder's USDG account.
    pub funder_usdg_amount: u64,
    pub liquidity_vault: Pubkey,
}

} // verus!
