use vstd::prelude::*;

verus! {

/// Errors of the lending market.
#[derive(Debug, Clone, Copy, PartialEq, Eq, Structural)]
pub enum AurumError {
    /// Config is already paused.
    ConfigAlreadyPaused,
    /// Config is already unpaused.
    ConfigAlreadyUnpaused,
    /// Invalid amount.
    InvalidAmount,
    /// Math overflow.
    MathOverflow,
    /// Unauthorized.
    Unauthorized,
    /// Mint not whitelisted.
    MintNotWhitelisted,
    /// Invalid market vault.
    InvalidVault,
    /// Insufficient balance.
    InsufficientBalance,
    /// Insufficient liquidity in market.
    InsufficientLiquidity,
    /// Position not eligible for liquidation.
    NotLiquidatable,
    /// No active position for the market.
    InvalidPosition,
    /// The price feed update is unusable (stale, mismatched or not fully verified).
    InvalidPriceFeed,
    /// The mint carries token extensions that are not supported.
    MintNotSupported,
    /// The new treasury equals the current one.
    TresurySameAsOldOne,
    /// A position refers to a market that was not supplied.
    MarketNotFound,
    /// The cluster clock could not be read.
    ClockUnavailable,
    /// The mint account data could not be decoded.
    InvalidMintData,
    /// No bump seed yields a valid program address for the seeds.
    AddressDerivationFailed,
    /// The protocol is paused.
    ProtocolPaused,
    /// The position's debt would exceed its collateral times the loan-to-value factor.
    InsufficientCollateral,
}

} // verus!
