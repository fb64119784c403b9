//! Accounts of the credit-account and collateral instructions, as plain values.
use vstd::prelude::*;
use crate::pubkey::Pubkey;
use crate::state::{ProtocolConfig, MarketConfig, CreditAccount, LendingPool};
use crate::risk::AccountInfo;

verus! {

/// Accounts of `initialize_credit_account`.
#[derive(Clone, Debug)]
pub struct InitializeCreditAccount {
    /// Signer; owner of the new account.
    pub owner: Pubkey,
    pub protocol_config: ProtocolConfig,
    /// The credit account being initialized.
    pub credit_account: CreditAccount,
    pub credit_account_key: Pubkey,
    pub credit_account_bump: u8,
}

/// Accounts of `deposit_collateral`.
#[derive(Clone, Debug)]
pub struct DepositCollateral {
    /// Signer; owner of the credit account and of the source token account.
    pub owner: Pubkey,
    pub protocol_config: ProtocolConfig,
    pub protocol_config_key: Pubkey,
    pub credit_account: CreditAccount,
    pub market_config: MarketConfig,
    pub market_config_key: Pubkey,
    pub collateral_mint: Pubkey,
    pub collateral_mint_decimals: u8,
}

/// Accounts of `withdraw_collateral`; `remaining_accounts` holds a (market, oracle)
/// pair for every collateral entry, in order.
#[derive(Clone, Debug)]
pub struct WithdrawCollateral {
    /// Signer; owner of the credit account.
    pub owner: Pubkey,
    pub protocol_config: ProtocolConfig,
    pub protocol_config_key: Pubkey,
    pub credit_account: CreditAccount,
    pub lending_pool: LendingPool,
    pub market_config: MarketConfig,
    pub market_config_key: Pubkey,
    pub collateral_mint: Pubkey,
    pub collateral_mint_decimals: u8,
    pub remaining_accounts: Vec<AccountInfo>,
}

/// Accounts of `refresh_health`; `remaining_accounts` holds a (market, oracle) pair for
/// every collateral entry, in order.
#[derive(Clone, Debug)]
pub struct RefreshHealth {
    pub caller: Pubkey,
    pub protocol_config: ProtocolConfig,
    pub protocol_config_key: Pubkey,
    pub credit_account: CreditAccount,
    pub credit_account_key: Pubkey,
    pub lending_pool: LendingPool,
    pub remaining_accounts: Vec<AccountInfo>,
}

} // verus!
