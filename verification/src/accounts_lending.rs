//! Accounts of the lending-pool instructions, as plain values.
use vstd::prelude::*;
use crate::pubkey::Pubkey;
use crate::state::{ProtocolConfig, CreditAccount, LendingPool, SupplierPosition};
use crate::risk::AccountInfo;

verus! {

/// Accounts of `initialize_lending_pool`.
#[derive(Clone, Copy, Debug)]
pub struct InitializeLendingPool {
    /// Signer; must be the protocol authority.
    pub authority: Pubkey,
    pub protocol_config: ProtocolConfig,
    pub protocol_config_key: Pubkey,
    pub usdg_mint: Pubkey,
    pub usdg_mint_decimals: u8,
    /// The pool account being initialized.
    pub lending_pool: LendingPool,
    pub lending_pool_key: Pubkey,
    pub lending_pool_bump: u8,
    pub liquidity_vault: Pubkey,
}

/// Accounts of `update_lending_pool`.
#[derive(Clone, Copy, Debug)]
pub struct UpdateLendingPool {
    /// Signer; must be the protocol authority.
    pub authority: Pubkey,
    pub protocol_config: ProtocolConfig,
    pub protocol_config_key: Pubkey,
    pub lending_pool: LendingPool,
    pub lending_pool_key: Pubkey,
}

/// Accounts of `supply_usdg`.
#[derive(Clone, Copy, Debug)]
pub struct SupplyUsdg {
    /// Signer; owner of the source USDG account and of the position.
    pub supplier: Pubkey,
    pub protocol_config: ProtocolConfig,
    pub protocol_config_key: Pubkey,
    pub lending_pool: LendingPool,
    pub lending_pool_key: Pubkey,
    pub usdg_mint: Pubkey,
    pub usdg_mint_decimals: u8,
    pub liquidity_vault: Pubkey,
    /// The supplier's position; all-zero when it was just created.
    pub supplier_position: SupplierPosition,
    pub supplier_position_bump: u8,
}

/// Accounts of `withdraw_supplied_usdg`.
#[derive(Clone, Copy, Debug)]
pub struct WithdrawSuppliedUsdg {
    /// Signer; owner of the position.
    pub supplier: Pubkey,
    pub protocol_config: ProtocolConfig,
    pub protocol_config_key: Pubkey,
    pub lending_pool: LendingPool,
    pub lending_pool_key: Pubkey,
    pub usdg_mint: Pubkey,
    pub usdg_mint_decimals: u8,
    pub liquidity_vault: Pubkey,
    /// Token balance of the liquidity vault.
    pub liquidity_vault_amount: u64,
    pub supplier_position: SupplierPosition,
}

/// Accounts of `borrow_usdg`; `remaining_accounts` holds a (market, oracle) pair for
/// every collateral entry, in order.
#[derive(Clone, Debug)]
pub struct BorrowUsdg {
    /// Signer; owner of the credit account.
    pub borrower: Pubkey,
    pub protocol_config: ProtocolConfig,
    pub protocol_config_key: Pubkey,
    pub credit_account: CreditAccount,
    pub lending_pool: LendingPool,
    pub lending_pool_key: Pubkey,
    pub usdg_mint: Pubkey,
    pub usdg_mint_decimals: u8,
    pub liquidity_vault: Pubkey,
    /// Token balance of the liquidity vault.
    pub liquidity_vault_amount: u64,
    pub remaining_accounts: Vec<AccountInfo>,
}

/// Accounts of `accrue_interest`.
#[derive(Clone, Copy, Debug)]
pub struct AccrueInterest {
    pub caller: Pubkey,
    pub protocol_config: ProtocolConfig,
    pub protocol_config_key: Pubkey,
    pub lending_pool: LendingPool,
    pub lending_pool_key: Pubkey,
}

/// Accounts of `sync_borrower_interest`.
#[derive(Clone, Debug)]
pub struct SyncBorrowerInterest {
    /// Signer; owner of the credit account.
    pub owner: Pubkey,
    pub protocol_config: ProtocolConfig,
    pub protocol_config_key: Pubkey,
    pub credit_account: CreditAccount,
    pub credit_account_key: Pubkey,
    pub lending_pool: LendingPool,
    pub lending_pool_key: Pubkey,
}

/// Accounts of `sync_supplier_interest`.
#[derive(Clone, Copy, Debug)]
pub struct SyncSupplierInterest {
    /// Signer; owner of the position.
    pub supplier: Pubkey,
    pub protocol_config: ProtocolConfig,
    pub protocol_config_key: Pubkey,
    pub lending_pool: LendingPool,
    pub lending_pool_key: Pubkey,
    pub supplier_position: SupplierPosition,
    pub supplier_position_key: Pubkey,
}

/// Accounts of `repay_usdg` and `repay_usdg_max`.
#[derive(Clone, Debug)]
pub struct RepayUsdg {
    /// Signer; the borrower, paying from their own USDG account.
    pub payer: Pubkey,
    pub protocol_config: ProtocolConfig,
    pub protocol_config_key: Pubkey,
    pub credit_account: CreditAccount,
    pub lending_pool: LendingPool,
    pub lending_pool_key: Pubkey,
    pub usdg_mint: Pubkey,
    pub usdg_mint_decimals: u8,
    /// Token balance of the payer's USDG account.
    pub payer_usdg_amount: u64,
    pub liquidity_vault: Pubkey,
}

/// Accounts of `repay_usdg_on_behalf` and `repay_usdg_on_behalf_max`.
#[derive(Clone, Debug)]
pub struct RepayUsdgOnBehalf {
    /// Signer; pays from their own USDG account.
    pub payer: Pubkey,
    /// Owner of the credit account being repaid.
    pub borrower: Pubkey,
    pub protocol_config: ProtocolConfig,
    pub protocol_config_key: Pubkey,
    pub credit_account: CreditAccount,
    pub lending_pool: LendingPool,
    pub lending_pool_key: Pubkey,
    pub usdg_mint: Pubkey,
    pub usdg_mint_decimals: u8,
    /// Token balance of the payer's USDG account.
    pub payer_usdg_amount: u64,
    pub liquidity_vault: Pubkey,
}

/// Accounts of `close_credit_account`.
#[derive(Clone, Debug)]
pub struct CloseCreditAccount {
    /// Signer; owner of the credit account, receives its rent.
    pub owner: Pubkey,
    pub protocol_config: ProtocolConfig,
    pub credit_account: CreditAccount,
    pub credit_account_key: Pubkey,
}

/// Accounts of `close_supplier_position`.
#[derive(Clone, Copy, Debug)]
pub struct CloseSupplierPosition {
    /// Signer; owner of the position, receives its rent.
    pub supplier: Pubkey,
    pub protocol_config: ProtocolConfig,
    pub protocol_config_key: Pubkey,
    pub lending_pool: LendingPool,
    pub lending_pool_key: Pubkey,
    pub supplier_position: SupplierPosition,
    pub supplier_position_key: Pubkey,
}

} // verus!
