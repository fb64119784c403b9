//! Accounts of the administrative and faucet instructions, as plain values.
use vstd::prelude::*;
use crate::pubkey::Pubkey;
use crate::state::{ProtocolConfig, MarketConfig, FaucetConfig, FaucetClaim};

verus! {

/// Accounts of `initialize_protocol`.
#[derive(Clone, Copy, Debug)]
pub struct InitializeProtocol {
    /// Signer paying for the new configuration; becomes the protocol authority.
    pub authority: Pubkey,
    pub treasury: Pubkey,
    pub emergency_authority: Pubkey,
    /// The configuration account being initialized.
    pub protocol_config: ProtocolConfig,
    pub protocol_config_bump: u8,
}

/// Accounts of `set_pause`.
#[derive(Clone, Copy, Debug)]
pub struct SetPause {
    /// Signer; must be the configured emergency authority.
    pub emergency_authority: Pubkey,
    pub protocol_config: ProtocolConfig,
}

/// Accounts of `register_market`.
#[derive(Clone, Copy, Debug)]
pub struct RegisterMarket {
    /// Signer; must be the protocol authority.
    pub authority: Pubkey,
    pub protocol_config: ProtocolConfig,
    pub protocol_config_key: Pubkey,
    pub collateral_mint: Pubkey,
    pub collateral_mint_decimals: u8,
    /// The market account being initialized.
    pub market_config: MarketConfig,
    pub market_config_key: Pubkey,
    pub market_config_bump: u8,
}

/// Accounts of `update_market`.
#[derive(Clone, Copy, Debug)]
pub struct UpdateMarket {
    /// Signer; must be the protocol authority.
    pub authority: Pubkey,
    pub protocol_config: ProtocolConfig,
    pub protocol_config_key: Pubkey,
    pub market_config: MarketConfig,
    pub market_config_key: Pubkey,
}

/// Accounts of `register_faucet_asset`.
#[derive(Clone, Copy, Debug)]
pub struct RegisterFaucetAsset {
    /// Signer; must be the protocol authority.
    pub authority: Pubkey,
    pub protocol_config: ProtocolConfig,
    pub protocol_config_key: Pubkey,
    pub mint: Pubkey,
    /// The faucet account being initialized.
    pub faucet_config: FaucetConfig,
    pub faucet_config_bump: u8,
}

/// Accounts of `set_faucet_status`.
#[derive(Clone, Copy, Debug)]
pub struct SetFaucetStatus {
    /// Signer; must be the protocol authority.
    pub authority: Pubkey,
    pub protocol_config: ProtocolConfig,
    pub protocol_config_key: Pubkey,
    pub faucet_config: FaucetConfig,
}

/// Accounts of `claim_faucet`.
#[derive(Clone, Copy, Debug)]
pub struct ClaimFaucet {
    /// Signer receiving the minted tokens.
    pub claimant: Pubkey,
    pub protocol_config: ProtocolConfig,
    pub protocol_config_key: Pubkey,
    pub faucet_config: FaucetConfig,
    pub mint: Pubkey,
    /// The claimant's cooldown record; all-zero when it was just created.
    pub faucet_claim: FaucetClaim,
    pub faucet_claim_bump: u8,
}

} // verus!
