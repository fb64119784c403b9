//! Protocol configuration, market registry and the mock-asset faucet.
use vstd::prelude::*;
use crate::constants::{PROTOCOL_VERSION, MAX_FAUCET_COOLDOWN_SECS};
use crate::errors::MiladyError;
use crate::pubkey::{Pubkey, zero_key};
use crate::state::{FaucetClaim, FaucetConfig, ProtocolConfig, RegisterMarketArgs, UpdateMarketArgs, MarketConfig};
use crate::events::{ProtocolInitialized, ProtocolPauseChanged, MarketRegistered, MarketUpdated, FaucetAssetRegistered, FaucetClaimed};
use crate::accounts_admin::{InitializeProtocol, SetPause, RegisterMarket, UpdateMarket, RegisterFaucetAsset, SetFaucetStatus, ClaimFaucet};
use crate::risk::{assert_protocol_authority, validate_market_args, validate_update_market_args, spec_validate_risk_parameters, nonzero_bytes};
use crate::risk::Clock;
use crate::pubkey::any_nonzero;

verus! {

/// Creates the protocol configuration: the signer becomes authority, with the given
/// treasury and emergency authority, the current layout version, unpaused.
pub fn initialize_protocol(ctx: &mut InitializeProtocol) -> (r: Result<ProtocolInitialized, MiladyError>)
    ensures
        final(ctx).authority == old(ctx).authority,
        final(ctx).treasury == old(ctx).treasury,
        final(ctx).emergency_authority == old(ctx).emergency_authority,
        final(ctx).protocol_config_bump == old(ctx).protocol_config_bump,
        final(ctx).protocol_config.authority == old(ctx).authority,
        final(ctx).protocol_config.treasury == old(ctx).treasury,
        final(ctx).protocol_config.emergency_authority == old(ctx).emergency_authority,
        final(ctx).protocol_config.version == PROTOCOL_VERSION,
        final(ctx).protocol_config.paused == false,
        final(ctx).protocol_config.bump == old(ctx).protocol_config_bump,
        r == Ok::<ProtocolInitialized, MiladyError>(
            ProtocolInitialized {
                authority: old(ctx).authority,
                treasury: old(ctx).treasury,
                emergency_authority: old(ctx).emergency_authority,
                version: PROTOCOL_VERSION,
            },
        ),
{
    ctx.protocol_config.authority = ctx.authority;
    ctx.protocol_config.treasury = ctx.treasury;
    ctx.protocol_config.emergency_authority = ctx.emergency_authority;
    ctx.protocol_config.version = PROTOCOL_VERSION;
    ctx.protocol_config.paused = false;
    ctx.protocol_config.bump = ctx.protocol_config_bump;
    Ok(
        ProtocolInitialized {
            authority: ctx.protocol_config.authority,
            treasury: ctx.protocol_config.treasury,
            emergency_authority: ctx.protocol_config.emergency_authority,
            version: ctx.protocol_config.version,
        },
    )
}

/// Sets or clears the emergency pause; only the emergency authority may sign.
pub fn set_pause(ctx: &mut SetPause, paused: bool) -> (r: Result<ProtocolPauseChanged, MiladyError>)
    ensures
        if old(ctx).emergency_authority@ == old(ctx).protocol_config.emergency_authority@ {
            &&& r == Ok::<ProtocolPauseChanged, MiladyError>(ProtocolPauseChanged { paused })
            &&& final(ctx).protocol_config == (ProtocolConfig { paused, ..old(ctx).protocol_config })
            &&& final(ctx).emergency_authority == old(ctx).emergency_authority
        } else {
            r == Err::<ProtocolPauseChanged, MiladyError>(MiladyError::Unauthorized) && *final(ctx)
                == *old(ctx)
        },
{
    if !ctx.emergency_authority.key_eq(&ctx.protocol_config.emergency_authority) {
        return Err(MiladyError::Unauthorized);
    }
    ctx.protocol_config.paused = paused;
    Ok(ProtocolPauseChanged { paused })
}

/// When `register_market` succeeds, and which error refuses it.
pub open spec fn spec_register_market_check(ctx: RegisterMarket, args: RegisterMarketArgs) -> Result<
    (),
    MiladyError,
> {
    if ctx.authority@ != ctx.protocol_config.authority@ {
        Err(MiladyError::Unauthorized)
    } else if spec_validate_risk_parameters(
        args.ltv_bps,
        args.liquidation_threshold_bps,
        args.liquidation_bonus_bps,
        args.max_confidence_bps,
        args.max_price_age_secs,
    ) is Err {
        spec_validate_risk_parameters(
            args.ltv_bps,
            args.liquidation_threshold_bps,
            args.liquidation_bonus_bps,
            args.max_confidence_bps,
            args.max_price_age_secs,
        )
    } else if !nonzero_bytes(args.symbol@) {
        Err(MiladyError::InvalidSymbol)
    } else if !nonzero_bytes(args.feed_id@) {
        Err(MiladyError::InvalidFeedId)
    } else {
        Ok(())
    }
}

/// The market configuration `register_market` writes.
pub open spec fn spec_registered_market(ctx: RegisterMarket, args: RegisterMarketArgs) -> MarketConfig {
    MarketConfig {
        protocol: ctx.protocol_config_key,
        mint: ctx.collateral_mint,
        symbol: args.symbol,
        feed_id: args.feed_id,
        decimals: ctx.collateral_mint_decimals,
        ltv_bps: args.ltv_bps,
        liquidation_threshold_bps: args.liquidation_threshold_bps,
        liquidation_bonus_bps: args.liquidation_bonus_bps,
        max_confidence_bps: args.max_confidence_bps,
        max_price_age_secs: args.max_price_age_secs,
        supply_cap: args.supply_cap,
        debt_ceiling_usdg: args.debt_ceiling_usdg,
        total_deposited: 0,
        enabled: true,
        bump: ctx.market_config_bump,
    }
}

/// Registers a collateral market with validated risk parameters, enabled and empty.
pub fn register_market(ctx: &mut RegisterMarket, args: RegisterMarketArgs) -> (r: Result<
    MarketRegistered,
    MiladyError,
>)
    ensures
        match spec_register_market_check(*old(ctx), args) {
            Ok(_) => {
                &&& final(ctx).market_config == spec_registered_market(*old(ctx), args)
                &&& *final(ctx) == (RegisterMarket { market_config: final(ctx).market_config, ..*old(ctx) })
                &&& r == Ok::<MarketRegistered, MiladyError>(
                    MarketRegistered {
                        market: old(ctx).market_config_key,
                        mint: old(ctx).collateral_mint,
                        symbol: args.symbol,
                        ltv_bps: args.ltv_bps,
                        liquidation_threshold_bps: args.liquidation_threshold_bps,
                    },
                )
            },
            Err(e) => r == Err::<MarketRegistered, MiladyError>(e) && *final(ctx) == *old(ctx),
        },
{
    assert_protocol_authority(&ctx.protocol_config, &ctx.authority)?;
    validate_market_args(&args)?;
    if !any_nonzero(&args.symbol) {
        return Err(MiladyError::InvalidSymbol);
    }
    if !any_nonzero(&args.feed_id) {
        return Err(MiladyError::InvalidFeedId);
    }
    ctx.market_config = MarketConfig {
        protocol: ctx.protocol_config_key,
        mint: ctx.collateral_mint,
        symbol: args.symbol,
        feed_id: args.feed_id,
        decimals: ctx.collateral_mint_decimals,
        ltv_bps: args.ltv_bps,
        liquidation_threshold_bps: args.liquidation_threshold_bps,
        liquidation_bonus_bps: args.liquidation_bonus_bps,
        max_confidence_bps: args.max_confidence_bps,
        max_price_age_secs: args.max_price_age_secs,
        supply_cap: args.supply_cap,
        debt_ceiling_usdg: args.debt_ceiling_usdg,
        total_deposited: 0,
        enabled: true,
        bump: ctx.market_config_bump,
    };
    Ok(
        MarketRegistered {
            market: ctx.market_config_key,
            mint: ctx.market_config.mint,
            symbol: ctx.market_config.symbol,
            ltv_bps: ctx.market_config.ltv_bps,
            liquidation_threshold_bps: ctx.market_config.liquidation_threshold_bps,
        },
    )
}

/// When `update_market` succeeds, and which error refuses it.
pub open spec fn spec_update_market_check(ctx: UpdateMarket, args: UpdateMarketArgs) -> Result<
    (),
    MiladyError,
> {
    if ctx.market_config.protocol@ != ctx.protocol_config_key@ {
        Err(MiladyError::InvalidProtocol)
    } else if ctx.authority@ != ctx.protocol_config.authority@ {
        Err(MiladyError::Unauthorized)
    } else if !nonzero_bytes(args.feed_id@) {
        Err(MiladyError::InvalidFeedId)
    } else {
        spec_validate_risk_parameters(
            args.ltv_bps,
            args.liquidation_threshold_bps,
            args.liquidation_bonus_bps,
            args.max_confidence_bps,
            args.max_price_age_secs,
        )
    }
}

/// Replaces a market's feed, risk parameters, caps and enabled flag.
pub fn update_market(ctx: &mut UpdateMarket, args: UpdateMarketArgs) -> (r: Result<
    MarketUpdated,
    MiladyError,
>)
    ensures
        match spec_update_market_check(*old(ctx), args) {
            Ok(_) => {
                &&& final(ctx).market_config == (MarketConfig {
                    feed_id: args.feed_id,
                    ltv_bps: args.ltv_bps,
                    liquidation_threshold_bps: args.liquidation_threshold_bps,
                    liquidation_bonus_bps: args.liquidation_bonus_bps,
                    max_confidence_bps: args.max_confidence_bps,
                    max_price_age_secs: args.max_price_age_secs,
                    supply_cap: args.supply_cap,
                    debt_ceiling_usdg: args.debt_ceiling_usdg,
                    enabled: args.enabled,
                    ..old(ctx).market_config
                })
                &&& *final(ctx) == (UpdateMarket { market_config: final(ctx).market_config, ..*old(ctx) })
                &&& r == Ok::<MarketUpdated, MiladyError>(
                    MarketUpdated {
                        market: old(ctx).market_config_key,
                        enabled: args.enabled,
                        ltv_bps: args.ltv_bps,
                        liquidation_threshold_bps: args.liquidation_threshold_bps,
                    },
                )
            },
            Err(e) => r == Err::<MarketUpdated, MiladyError>(e) && *final(ctx) == *old(ctx),
        },
{
    if !ctx.market_config.protocol.key_eq(&ctx.protocol_config_key) {
        return Err(MiladyError::InvalidProtocol);
    }
    assert_protocol_authority(&ctx.protocol_config, &ctx.authority)?;
    validate_update_market_args(&args)?;
    ctx.market_config.feed_id = args.feed_id;
    ctx.market_config.ltv_bps = args.ltv_bps;
    ctx.market_config.liquidation_threshold_bps = args.liquidation_threshold_bps;
    ctx.market_config.liquidation_bonus_bps = args.liquidation_bonus_bps;
    ctx.market_config.max_confidence_bps = args.max_confidence_bps;
    ctx.market_config.max_price_age_secs = args.max_price_age_secs;
    ctx.market_config.supply_cap = args.supply_cap;
    ctx.market_config.debt_ceiling_usdg = args.debt_ceiling_usdg;
    ctx.market_config.enabled = args.enabled;
    Ok(
        MarketUpdated {
            market: ctx.market_config_key,
            enabled: ctx.market_config.enabled,
            ltv_bps: ctx.market_config.ltv_bps,
            liquidation_threshold_bps: ctx.market_config.liquidation_threshold_bps,
        },
    )
}

/// When `register_faucet_asset` succeeds, and which error refuses it.
pub open spec fn spec_register_faucet_check(ctx: RegisterFaucetAsset, amount_per_claim: u64, cooldown_seconds: u32) -> Result<
    (),
    MiladyError,
> {
    if ctx.authority@ != ctx.protocol_config.authority@ {
        Err(MiladyError::Unauthorized)
    } else if amount_per_claim == 0 {
        Err(MiladyError::InvalidAmount)
    } else if cooldown_seconds > MAX_FAUCET_COOLDOWN_SECS {
        Err(MiladyError::InvalidCooldown)
    } else {
        Ok(())
    }
}

/// Registers a faucet for a mock mint, enabled.
pub fn register_faucet_asset(
    ctx: &mut RegisterFaucetAsset,
    amount_per_claim: u64,
    cooldown_seconds: u32,
) -> (r: Result<FaucetAssetRegistered, MiladyError>)
    ensures
        match spec_register_faucet_check(*old(ctx), amount_per_claim, cooldown_seconds) {
            Ok(_) => {
                &&& final(ctx).faucet_config == (FaucetConfig {
                    protocol: old(ctx).protocol_config_key,
                    mint: old(ctx).mint,
                    amount_per_claim,
                    cooldown_seconds,
                    enabled: true,
                    bump: old(ctx).faucet_config_bump,
                })
                &&& *final(ctx) == (RegisterFaucetAsset { faucet_config: final(ctx).faucet_config, ..*old(ctx) })
                &&& r == Ok::<FaucetAssetRegistered, MiladyError>(
                    FaucetAssetRegistered { mint: old(ctx).mint, amount_per_claim, cooldown_seconds },
                )
            },
            Err(e) => r == Err::<FaucetAssetRegistered, MiladyError>(e) && *final(ctx) == *old(ctx),
        },
{
    assert_protocol_authority(&ctx.protocol_config, &ctx.authority)?;
    if !(amount_per_claim > 0) {
        return Err(MiladyError::InvalidAmount);
    }
    if !(cooldown_seconds <= MAX_FAUCET_COOLDOWN_SECS) {
        return Err(MiladyError::InvalidCooldown);
    }
    ctx.faucet_config = FaucetConfig {
        protocol: ctx.protocol_config_key,
        mint: ctx.mint,
        amount_per_claim,
        cooldown_seconds,
        enabled: true,
        bump: ctx.faucet_config_bump,
    };
    Ok(FaucetAssetRegistered { mint: ctx.faucet_config.mint, amount_per_claim, cooldown_seconds })
}

/// Enables or disables a faucet.
pub fn set_faucet_status(ctx: &mut SetFaucetStatus, enabled: bool) -> (r: Result<(), MiladyError>)
    ensures
        if old(ctx).faucet_config.protocol@ != old(ctx).protocol_config_key@ {
            r == Err::<(), MiladyError>(MiladyError::InvalidProtocol) && *final(ctx) == *old(ctx)
        } else if old(ctx).authority@ != old(ctx).protocol_config.authority@ {
            r == Err::<(), MiladyError>(MiladyError::Unauthorized) && *final(ctx) == *old(ctx)
        } else {
            &&& r is Ok
            &&& *final(ctx) == (SetFaucetStatus {
                faucet_config: FaucetConfig { enabled, ..old(ctx).faucet_config },
                ..*old(ctx)
            })
        },
{
    if !ctx.faucet_config.protocol.key_eq(&ctx.protocol_config_key) {
        return Err(MiladyError::InvalidProtocol);
    }
    assert_protocol_authority(&ctx.protocol_config, &ctx.authority)?;
    ctx.faucet_config.enabled = enabled;
    Ok(())
}

/// The claim record a faucet claim starts from: a fresh one when the record is unset.
pub open spec fn spec_claim_record(ctx: ClaimFaucet) -> FaucetClaim {
    if ctx.faucet_claim.claimant@ == zero_key() {
        FaucetClaim {
            claimant: ctx.claimant,
            mint: ctx.mint,
            last_claim_ts: 0,
            total_claimed: 0,
            bump: ctx.faucet_claim_bump,
        }
    } else {
        ctx.faucet_claim
    }
}

/// The claim record after a faucet claim at `now`, or why the claim is refused.
pub open spec fn spec_claim_faucet(ctx: ClaimFaucet, now: i64) -> Result<FaucetClaim, MiladyError> {
    let claim = spec_claim_record(ctx);
    let amount = ctx.faucet_config.amount_per_claim;
    if ctx.faucet_config.protocol@ != ctx.protocol_config_key@ {
        Err(MiladyError::InvalidProtocol)
    } else if ctx.faucet_config.mint@ != ctx.mint@ {
        Err(MiladyError::InvalidMint)
    } else if ctx.protocol_config.paused {
        Err(MiladyError::ProtocolPaused)
    } else if !ctx.faucet_config.enabled {
        Err(MiladyError::FaucetDisabled)
    } else if claim.claimant@ != ctx.claimant@ {
        Err(MiladyError::Unauthorized)
    } else if claim.mint@ != ctx.mint@ {
        Err(MiladyError::InvalidMint)
    } else if claim.last_claim_ts > 0 && now - claim.last_claim_ts < i64::MIN {
        Err(MiladyError::MathOverflow)
    } else if claim.last_claim_ts > 0 && now - claim.last_claim_ts < ctx.faucet_config.cooldown_seconds {
        Err(MiladyError::FaucetCooldown)
    } else if claim.total_claimed + amount > u64::MAX {
        Err(MiladyError::MathOverflow)
    } else {
        Ok(
            FaucetClaim {
                last_claim_ts: now,
                total_claimed: (claim.total_claimed + amount) as u64,
                ..claim
            },
        )
    }
}

/// Mints one faucet allowance to the claimant once the cooldown since their last
/// claim has passed; the event's `amount` is what is to be minted.
pub fn claim_faucet(ctx: &mut ClaimFaucet, clock: &Clock) -> (r: Result<FaucetClaimed, MiladyError>)
    ensures
        match spec_claim_faucet(*old(ctx), clock.unix_timestamp) {
            Ok(c) => {
                &&& final(ctx).faucet_claim == c
                &&& *final(ctx) == (ClaimFaucet { faucet_claim: c, ..*old(ctx) })
                &&& r == Ok::<FaucetClaimed, MiladyError>(
                    FaucetClaimed {
                        claimant: c.claimant,
                        mint: c.mint,
                        amount: old(ctx).faucet_config.amount_per_claim,
                        total_claimed: c.total_claimed,
                    },
                )
            },
            Err(e) => r == Err::<FaucetClaimed, MiladyError>(e) && *final(ctx) == *old(ctx),
        },
{
    if !ctx.faucet_config.protocol.key_eq(&ctx.protocol_config_key) {
        return Err(MiladyError::InvalidProtocol);
    }
    if !ctx.faucet_config.mint.key_eq(&ctx.mint) {
        return Err(MiladyError::InvalidMint);
    }
    if ctx.protocol_config.paused {
        return Err(MiladyError::ProtocolPaused);
    }
    if !ctx.faucet_config.enabled {
        return Err(MiladyError::FaucetDisabled);
    }
    let now = clock.unix_timestamp;
    let zero = Pubkey::zero();
    let mut claim = ctx.faucet_claim;
    if claim.claimant.key_eq(&zero) {
        claim = FaucetClaim {
            claimant: ctx.claimant,
            mint: ctx.mint,
            last_claim_ts: 0,
            total_claimed: 0,
            bump: ctx.faucet_claim_bump,
        };
    }
    if !claim.claimant.key_eq(&ctx.claimant) {
        return Err(MiladyError::Unauthorized);
    }
    if !claim.mint.key_eq(&ctx.mint) {
        return Err(MiladyError::InvalidMint);
    }
    if claim.last_claim_ts > 0 {
        let elapsed = match now.checked_sub(claim.last_claim_ts) {
            Some(v) => v,
            None => return Err(MiladyError::MathOverflow),
        };
        if !(elapsed >= ctx.faucet_config.cooldown_seconds as i64) {
            return Err(MiladyError::FaucetCooldown);
        }
    }
    let amount = ctx.faucet_config.amount_per_claim;
    let total = match claim.total_claimed.checked_add(amount) {
        Some(v) => v,
        None => return Err(MiladyError::MathOverflow),
    };
    claim.last_claim_ts = now;
    claim.total_claimed = total;
    ctx.faucet_claim = claim;
    Ok(
        FaucetClaimed {
            claimant: claim.claimant,
            mint: claim.mint,
            amount,
            total_claimed: claim.total_claimed,
        },
    )
}

} // verus!
