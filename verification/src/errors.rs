use vstd::prelude::*;

verus! {

/// Every way an instruction of the protocol can be refused.
#[derive(Clone, Copy, Debug, PartialEq, Eq, Structural)]
pub enum MiladyError {
    /// The signer is not authorized for this action.
    Unauthorized,
    /// The protocol is paused.
    ProtocolPaused,
    /// The referenced protocol account is invalid.
    InvalidProtocol,
    /// Amount must be greater than zero.
    InvalidAmount,
    /// Token mint does not match the configured market or pool.
    InvalidMint,
    /// Market symbol must not be empty.
    InvalidSymbol,
    /// Oracle feed id must not be empty.
    InvalidFeedId,
    /// LTV must be between 0 and 10000 basis points.
    InvalidLtv,
    /// Liquidation threshold must be above LTV and no more than 10000 basis points.
    InvalidLiquidationThreshold,
    /// Liquidation bonus is outside the supported range.
    InvalidLiquidationBonus,
    /// Oracle confidence limit is outside the supported range.
    InvalidConfidenceLimit,
    /// Oracle maximum age is outside the supported range.
    InvalidOracleAge,
    /// Market is disabled.
    MarketDisabled,
    /// Collateral market supply cap exceeded.
    SupplyCapExceeded,
    /// Faucet is disabled for this asset.
    FaucetDisabled,
    /// Faucet claim is still in cooldown.
    FaucetCooldown,
    /// Faucet cooldown exceeds the Devnet safety limit.
    InvalidCooldown,
    /// Maximum collateral asset count reached.
    TooManyCollateralAssets,
    /// Collateral entry was not found.
    CollateralNotFound,
    /// Insufficient deposited collateral.
    InsufficientCollateral,
    /// Withdrawal would leave the account above its safe borrowing limit.
    UnsafeWithdrawal,
    /// Risk refresh accounts are missing or incorrectly ordered.
    InvalidRiskAccounts,
    /// Market account does not match the collateral entry.
    MarketAccountMismatch,
    /// Market config account is not owned by 44 Milady.
    InvalidMarketOwner,
    /// Oracle account is not owned by the Pyth Receiver program.
    InvalidOracleOwner,
    /// Pyth oracle update could not be read, is stale, or is for the wrong feed.
    OracleReadFailed,
    /// Oracle returned a non-positive price.
    InvalidOraclePrice,
    /// Oracle confidence interval is wider than this market permits.
    OracleConfidenceTooWide,
    /// USDG must use exactly 6 decimals.
    InvalidUsdgDecimals,
    /// Reserve factor is outside the supported range.
    InvalidReserveFactor,
    /// Interest-rate kink must be between 0% and 100% utilization.
    InvalidInterestKink,
    /// Configured maximum borrow APR exceeds the protocol safety ceiling.
    InterestRateTooHigh,
    /// Clock moved backwards relative to the pool's last accrual timestamp.
    ClockWentBackwards,
    /// Interest index is zero, decreasing, or otherwise invalid.
    InvalidInterestIndex,
    /// Borrowing is disabled for this lending pool.
    BorrowingDisabled,
    /// Borrow would exceed the pool borrow cap.
    BorrowCapExceeded,
    /// Borrow cap cannot be set below outstanding debt.
    BorrowCapBelowOutstandingDebt,
    /// The pool does not have enough available USDG.
    InsufficientLiquidity,
    /// The requested borrow would exceed this account's collateral borrowing limit.
    BorrowLimitExceeded,
    /// The requested borrow would make this account immediately liquidatable.
    BorrowWouldBeLiquidatable,
    /// Supplier position does not have enough supplied principal.
    InsufficientSupply,
    /// Liquidity vault does not match the lending pool.
    InvalidLiquidityVault,
    /// Supplier position does not belong to this lending pool.
    InvalidLendingPool,
    /// Lending pool supplied/borrowed accounting invariant is broken.
    PoolAccountingInvariant,
    /// This credit account has no debt to repay.
    NoDebtToRepay,
    /// Repayment amount exceeds the synchronized debt balance.
    RepayAmountExceedsDebt,
    /// The repayment wallet does not hold enough USDG.
    InsufficientRepaymentFunds,
    /// Credit account still has outstanding debt.
    CreditAccountHasDebt,
    /// Credit account still has deposited collateral.
    CreditAccountHasCollateral,
    /// Supplier position still has a non-zero USDG claim.
    SupplierPositionNotEmpty,
    /// Collateral vault still contains tokens.
    CollateralVaultNotEmpty,
    /// Collateral market is still recorded on the credit account.
    CollateralStillRecorded,
    /// Liquidation close factor must be between 1 and 10000 basis points.
    InvalidCloseFactor,
    /// Liquidations are disabled for this lending pool.
    LiquidationDisabled,
    /// The borrower is not below the liquidation health threshold.
    PositionNotLiquidatable,
    /// The liquidation amount is too small after close-factor/collateral caps.
    LiquidationTooSmall,
    /// Collateral vault balance is below the protocol's recorded collateral.
    CollateralVaultAccountingMismatch,
    /// Collateral remains and must be liquidated before bad debt can be written off.
    CollateralRemainsForLiquidation,
    /// Bad-debt recapitalization exceeds the recorded deficit.
    BadDebtCoverageExceedsDeficit,
    /// Pool claims are below recorded bad debt; the pool is insolvent.
    PoolInsolvent,
    /// Admin address must be non-zero and different where required.
    InvalidAdminAddress,
    /// There is no pending protocol-authority transfer.
    NoPendingAuthorityTransfer,
    /// There is no pending emergency-authority transfer.
    NoPendingEmergencyAuthorityTransfer,
    /// Arithmetic overflow or underflow.
    MathOverflow,
    /// Account data is too short to hold an account discriminator.
    AccountDiscriminatorNotFound,
    /// Account data starts with another account type's discriminator.
    AccountDiscriminatorMismatch,
    /// Account data is not a well-formed encoding of the expected account type.
    AccountDidNotDeserialize,
}

} // verus!
