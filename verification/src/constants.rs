use vstd::prelude::*;

verus! {

/// Seed of the global configuration account address.
pub const CONFIG_SEED: &'static str = "global_config";
/// Seed of a mint whitelist account address.
pub const MINT_WHITELISTED_SEED: &'static str = "mint_whitelisted";
/// Seed of a market account address.
pub const MARKET_SEED: &'static str = "market";
/// Seed of a user position account address.
pub const USER_POSITION_SEED: &'static str = "user_position";

/// Fixed-point scale of interest indices and rates (1e18).
pub const INDEX_MANTISSA: u128 = 1_000_000_000_000_000_000u128;

/// Seconds in a year of 365.25 days.
pub const SECONDS_PER_YEAR: u128 = 31_557_600u128;

/// Basis points denominator (100% = 10_000 bps).
pub const BPS_DENOMINATOR: u128 = 10_000u128;

/// Oldest Pyth price, in seconds before the cluster clock, that a liquidation accepts.
pub const PRICE_MAXIMUM_AGE: u64 = 60u64;

} // verus!
