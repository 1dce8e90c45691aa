//! Account state of the lending market.  Account addresses (public keys) are
//! held as their 32 raw bytes.
use vstd::prelude::*;

verus! {

/// The all-zero address, which marks an unused slot.
pub open spec fn zero_key() -> Seq<u8> {
    Seq::new(32, |i: int| 0u8)
}

/// Compares two addresses byte by byte.
pub fn keys_equal(a: &[u8; 32], b: &[u8; 32]) -> (r: bool)
    ensures
        r == (a@ == b@),
{
    let mut i: usize = 0;
    while i < 32
        invariant
            0 <= i <= 32,
            a@.len() == 32,
            b@.len() == 32,
            forall|j: int| 0 <= j < i ==> a@[j] == b@[j],
        decreases 32 - i,
    {
        if a[i] != b[i] {
            return false;
        }
        i = i + 1;
    }
    assert(a@ =~= b@);
    true
}

/// Whether an address is the all-zero default address.
pub fn key_is_default(k: &[u8; 32]) -> (r: bool)
    ensures
        r == (k@ == zero_key()),
{
    let zero: [u8; 32] = [0u8; 32];
    assert(zero@ =~= zero_key());
    keys_equal(k, &zero)
}

/// Global protocol configuration.
#[derive(Clone, Copy, Debug)]
pub struct Config {
    pub bump: u8,
    pub admin: [u8; 32],
    pub treasury: [u8; 32],
    pub paused: bool,
    pub updated_at: u64,
    /// Share of the supplied balance, in basis points, up to which a position may borrow
    /// and beyond which it may be liquidated (e.g. 8000 for 80%).
    pub liquidation_threshold: u64,
    /// Bonus, in basis points, a liquidator receives on the repaid amount (e.g. 500 for 5%).
    pub liquidation_bonus: u64,
    /// Borrow rate per year at zero utilization, scaled by 1e18.
    pub base_rate: u64,
    /// Rate added per year at full use of the range below the kink, scaled by 1e18.
    pub slope1: u64,
    /// Rate added per year at full use of the range above the kink, scaled by 1e18.
    pub jump_slope: u64,
    /// Utilization, in basis points, at which the slope switches to `jump_slope`.
    pub kink: u64,
    /// Share of borrower interest, in basis points, kept as protocol reserves.
    pub reserve_factor: u64,
}

/// Parameters of the interest-rate model and liquidation settings.
#[derive(Clone, Copy, Debug)]
pub struct GlobalConfigParams {
    pub base_rate: u64,
    pub slope1: u64,
    pub jump_slope: u64,
    pub kink: u64,
    pub reserve_factor: u64,
    pub liquidation_threshold: u64,
    pub liquidation_bonus: u64,
}

/// One lending market (one asset).
#[derive(Clone, Copy, Debug)]
pub struct Market {
    pub bump: u8,
    pub mint: [u8; 32],
    pub vault: [u8; 32],
    /// Totals in base token units.
    pub total_cash: u128,
    pub total_borrows: u128,
    pub total_reserves: u128,
    pub c_token_mint: [u8; 32],
    pub c_token_supply: u128,
    pub pyth_feed_id: [u8; 32],
    pub decimals: u8,
    /// Interest indices scaled by 1e18.
    pub borrow_index: u128,
    pub supply_index: u128,
    pub ltv_bps: u16,
    pub liquidation_threshold_bps: u16,
    pub liquidation_bonus_bps: u16,
    pub reserve_factor_bps: u16,
    pub kink_utilization_bps: u16,
    pub base_rate_per_year: u64,
    pub slope1_per_year: u64,
    pub slope2_per_year: u64,
    pub last_updated_ts: u64,
}

/// Parameters of a new market.
#[derive(Clone, Copy, Debug)]
pub struct MarketInitParams {
    pub pyth_feed_id: [u8; 32],
    pub decimals: u8,
    pub ltv_bps: u16,
    pub liquidation_threshold_bps: u16,
    pub liquidation_bonus_bps: u16,
    pub reserve_factor_bps: u16,
    pub kink_utilization_bps: u16,
    pub base_rate_per_year: u64,
    pub slope1_per_year: u64,
    pub slope2_per_year: u64,
}

impl Default for MarketInitParams {
    /// The default market parameters: 9 decimals, 75% LTV, 80% liquidation threshold,
    /// 5% bonus, 10% reserve factor, 80% kink, 0% base rate, 5% and 20% slopes.
    fn default() -> (p: MarketInitParams)
        ensures
            p.pyth_feed_id@ == zero_key(),
            p.decimals == 9,
            p.ltv_bps == 7500,
            p.liquidation_threshold_bps == 8000,
            p.liquidation_bonus_bps == 500,
            p.reserve_factor_bps == 1000,
            p.kink_utilization_bps == 8000,
            p.base_rate_per_year == 0,
            p.slope1_per_year == 50_000_000_000_000_000,
            p.slope2_per_year == 200_000_000_000_000_000,
    {
        let feed: [u8; 32] = [0u8; 32];
        assert(feed@ =~= zero_key());
        MarketInitParams {
            pyth_feed_id: feed,
            decimals: 9,
            ltv_bps: 7500,
            liquidation_threshold_bps: 8000,
            liquidation_bonus_bps: 500,
            reserve_factor_bps: 1000,
            kink_utilization_bps: 8000,
            base_rate_per_year: 0,
            slope1_per_year: 50_000_000_000_000_000,
            slope2_per_year: 200_000_000_000_000_000,
        }
    }
}

/// Whitelist entry of a mint.
#[derive(Clone, Debug)]
pub struct MintWhitelisted {
    pub mint: [u8; 32],
    pub mint_decimals: u8,
    pub is_whitelisted: bool,
    pub bump: u8,
    pub pyth_price_feed: String,
}

/// Parameters of a whitelist update.
#[derive(Clone, Debug)]
pub struct MintWhitelistedParams {
    pub pyth_price_feed: String,
    pub is_whitelisted: bool,
}

/// Number of position slots of a user position account.
pub const MAX_POSITIONS: usize = 10;

/// A user's supply and borrow in one market.
#[derive(Clone, Copy, Debug)]
pub struct Position {
    pub market: [u8; 32],
    pub supply_principal: u128,
    pub borrow_principal: u128,
    pub supply_index: u128,
    pub borrow_index: u128,
    /// 1 when the supply counts as collateral, 0 otherwise.
    pub is_collateral: u8,
}

impl Position {
    /// A slot is in use when its market address is not the default address.
    pub open spec fn active(self) -> bool {
        self.market@ != zero_key()
    }

    /// Whether this slot is in use.
    pub fn is_active(&self) -> (r: bool)
        ensures
            r == self.active(),
    {
        !key_is_default(&self.market)
    }
}

/// A user's position account.
#[derive(Clone, Copy, Debug)]
pub struct UserPosition {
    pub bump: u8,
    pub owner: [u8; 32],
    pub num_positions: u8,
    pub positions: [Position; 10],
}

} // verus!
