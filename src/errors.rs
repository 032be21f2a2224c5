use vstd::prelude::*;

verus! {

/// Failures reported by the pair engine.
#[derive(Clone, Copy, Debug, PartialEq, Eq, Structural)]
pub enum PairError {
    AlreadyInitialized,
    NotInitialized,
    InsufficientLiquidity,
    InsufficientInputAmount,
    InsufficientOutputAmount,
    InvalidK,
    Locked,
    FlashLoanNotRepaid,
    FlashPayloadTooLarge,
    Paused,
    Overflow,
    ZeroAddress,
    InvalidInput,
    InsufficientLiquidityMinted,
    InsufficientLiquidityBurned,
}

/// Failures reported by the liquidity router's checks.
#[derive(Clone, Copy, Debug, PartialEq, Eq, Structural)]
pub enum RouterError {
    Expired,
    InsufficientOutputAmount,
    ExcessiveInputAmount,
    InvalidPath,
    PairNotFound,
    IdenticalTokens,
    ZeroAmount,
    InsufficientLiquidity,
    SlippageExceeded,
}

/// Failures reported by the share-token ledger.
#[derive(Clone, Copy, Debug, PartialEq, Eq, Structural)]
pub enum LpTokenError {
    AlreadyInitialized,
    NotInitialized,
    Unauthorized,
    InsufficientBalance,
    InsufficientAllowance,
    Overflow,
}

/// Failures reported by the pair registry.
#[derive(Clone, Copy, Debug, PartialEq, Eq, Structural)]
pub enum FactoryError {
    AlreadyInitialized,
    NotInitialized,
    PairExists,
    InvalidSignerCount,
    InsufficientSignatures,
    TimelockNotExpired,
    ProtocolPaused,
    IdenticalTokens,
    UpgradeTimelockNotExpired,
    Unauthorized,
    PairLimitReached,
}

} // verus!
