use vstd::prelude::*;

verus! {

/// Every way an operation of the engine can fail. A failed operation changes nothing.
#[derive(Clone, Copy, Debug, PartialEq, Eq, Structural)]
pub enum ErrorCode {
    /// Program already initialized.
    AlreadyInitialized,
    /// Token name too long.
    TokenNameTooLong,
    /// Token symbol too long.
    TokenSymbolTooLong,
    /// Token URI too long.
    TokenUriTooLong,
    /// Invalid decimals value.
    InvalidDecimals,
    /// Invalid initial supply.
    InvalidInitialSupply,
    /// Token not found.
    TokenNotFound,
    /// Token already launched to DEX.
    TokenAlreadyLaunched,
    /// Invalid purchase amount.
    InvalidPurchaseAmount,
    /// Purchase amount too small.
    PurchaseAmountTooSmall,
    /// Purchase amount too large.
    PurchaseAmountTooLarge,
    /// Insufficient SOL balance.
    InsufficientSolBalance,
    /// Insufficient token balance.
    InsufficientTokenBalance,
    /// Bonding curve calculation error.
    BondingCurveError,
    /// Launch threshold not met.
    LaunchThresholdNotMet,
    /// Launch cooldown period not elapsed.
    LaunchCooldownActive,
    /// Unauthorized operation.
    Unauthorized,
    /// Invalid fee rate.
    InvalidFeeRate,
    /// Invalid launch threshold.
    InvalidLaunchThreshold,
    /// Trading not active.
    TradingNotActive,
    /// Slippage tolerance exceeded.
    SlippageExceeded,
    /// Token creation failed.
    TokenCreationFailed,
    /// Mint authority transfer failed.
    MintAuthorityTransferFailed,
    /// Token account creation failed.
    TokenAccountCreationFailed,
    /// Invalid token program.
    InvalidTokenProgram,
    /// Arithmetic overflow.
    ArithmeticOverflow,
    /// Arithmetic underflow.
    ArithmeticUnderflow,
    /// Division by zero.
    DivisionByZero,
    /// Invalid account.
    InvalidAccount,
    /// Account not mutable.
    AccountNotMutable,
    /// Invalid signer.
    InvalidSigner,
    /// Token metadata update failed.
    TokenMetadataUpdateFailed,
    /// Insufficient reserves.
    InsufficientReserves,
    /// Bonding curve inactive.
    BondingCurveInactive,
    /// Invalid transaction ID.
    InvalidTransactionId,
    /// Invalid creator.
    InvalidCreator,
    /// Invalid token account.
    InvalidTokenAccount,
}

} // verus!
