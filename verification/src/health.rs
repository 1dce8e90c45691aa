//! Health factor of a user position across markets.
use vstd::prelude::*;
use crate::errors::AurumError;
use crate::state::{keys_equal, Config, Market, Position, UserPosition};

verus! {

/// `10^n`.
pub open spec fn pow10(n: nat) -> nat
    decreases n,
{
    if n == 0 { 1 } else { 10 * pow10((n - 1) as nat) }
}

/// `10^n` grows with `n`.
pub proof fn lemma_pow10_monotone(a: nat, b: nat)
    requires
        a <= b,
    ensures
        pow10(a) <= pow10(b),
    decreases b - a,
{
    if a < b {
        lemma_pow10_monotone(a, (b - 1) as nat);
    }
}

/// `10^18` is the 1e18 mantissa.
pub proof fn lemma_pow10_18()
    ensures
        pow10(18) == 1_000_000_000_000_000_000,
{
    reveal_with_fuel(pow10, 19);
}

/// `10^exp`, or `None` when it does not fit in `u128`.
pub fn checked_pow10(exp: u32) -> (r: Option<u128>)
    ensures
        r == (if pow10(exp as nat) <= u128::MAX { Some(pow10(exp as nat) as u128) } else { None::<u128> }),
{
    let mut acc: u128 = 1;
    let mut i: u32 = 0;
    while i < exp
        invariant
            0 <= i <= exp,
            acc == pow10(i as nat),
        decreases exp - i,
    {
        acc = match acc.checked_mul(10) {
            Some(x) => x,
            None => {
                proof { lemma_pow10_monotone((i + 1) as nat, exp as nat); }
                return None;
            },
        };
        i = i + 1;
    }
    Some(acc)
}

/// A market together with its account address and the oracle price of its asset: USD per
/// whole token with 18 decimals, as `get_price_value` gives it.
#[derive(Clone, Copy, Debug)]
pub struct MarketAccount {
    pub key: [u8; 32],
    pub market: Market,
    pub price: u128,
}

/// Oracle price of the market's asset.
fn get_asset_price(market: &MarketAccount, _global_config: &Config) -> (r: u128)
    ensures
        r == market.price,
{
    market.price
}

/// A principal compounded by `market_index / position_index`; unchanged when the position
/// index is 0.
pub open spec fn grown(principal: u128, market_index: u128, position_index: u128) -> int {
    if position_index > 0 { principal * market_index / position_index as int } else { principal as int }
}

/// (collateral value, borrow value) of a position in USD with 18 decimals: balances times
/// the market's oracle `price`, scaled down by the mint decimals; the supply counts as
/// collateral, weighted by the market's LTV, only when flagged.  `None` where the
/// arithmetic leaves `u128`.
pub open spec fn position_value_spec(p: Position, m: Market, price: u128) -> Option<(u128, u128)> {
    if p.supply_index > 0 && p.supply_principal * m.supply_index > u128::MAX {
        None
    } else if p.borrow_index > 0 && p.borrow_principal * m.borrow_index > u128::MAX {
        None
    } else {
        let s = grown(p.supply_principal, m.supply_index, p.supply_index);
        let b = grown(p.borrow_principal, m.borrow_index, p.borrow_index);
        let scale = pow10(m.decimals as nat);
        if s * price > u128::MAX || scale > u128::MAX || b * price > u128::MAX {
            None
        } else {
            let sv = s * price / scale as int;
            let bv = b * price / scale as int;
            if p.is_collateral != 0 {
                if sv * m.ltv_bps > u128::MAX { None } else { Some(((sv * m.ltv_bps / 10000) as u128, bv as u128)) }
            } else {
                Some((0u128, bv as u128))
            }
        }
    }
}

/// Values one position in its market.
fn calculate_position_value(position: &Position, account: &MarketAccount, global_config: &Config) -> (r: Option<(u128, u128)>)
    ensures
        r == position_value_spec(*position, account.market, account.price),
{
    let market: &Market = &account.market;
    let asset_price: u128 = get_asset_price(account, global_config);
    let ltv: u128 = market.ltv_bps as u128;
    let current_supply: u128 = if position.supply_index > 0 {
        match position.supply_principal.checked_mul(market.supply_index) {
            Some(x) => x / position.supply_index,
            None => return None,
        }
    } else {
        position.supply_principal
    };
    let current_borrow: u128 = if position.borrow_index > 0 {
        match position.borrow_principal.checked_mul(market.borrow_index) {
            Some(x) => x / position.borrow_index,
            None => return None,
        }
    } else {
        position.borrow_principal
    };
    let supply_product: u128 = match current_supply.checked_mul(asset_price) {
        Some(x) => x,
        None => return None,
    };
    let scale: u128 = match checked_pow10(market.decimals as u32) {
        Some(x) => x,
        None => return None,
    };
    let borrow_product: u128 = match current_borrow.checked_mul(asset_price) {
        Some(x) => x,
        None => return None,
    };
    proof { lemma_pow10_monotone(0, market.decimals as nat); }
    let supply_value: u128 = supply_product / scale;
    let borrow_value: u128 = borrow_product / scale;
    let collateral_value: u128 = if position.is_collateral != 0 {
        match supply_value.checked_mul(ltv) {
            Some(x) => x / 10000,
            None => return None,
        }
    } else {
        0
    };
    Some((collateral_value, borrow_value))
}

/// The first market in `markets` with address `key`.
pub open spec fn first_market_from(markets: Seq<MarketAccount>, key: Seq<u8>, i: int) -> Option<int>
    decreases markets.len() - i,
{
    if i < 0 || i >= markets.len() {
        None
    } else if markets[i].key@ == key {
        Some(i)
    } else {
        first_market_from(markets, key, i + 1)
    }
}

/// Running totals over the first `n` position slots.
pub enum HealthScan {
    Totals(u128, u128),
    MarketMissing,
    Overflow,
}

/// Collateral and borrow value summed over the active slots among the first `n`.
pub open spec fn health_scan(ps: Seq<Position>, markets: Seq<MarketAccount>, n: int) -> HealthScan
    decreases n,
{
    if n <= 0 {
        HealthScan::Totals(0, 0)
    } else {
        match health_scan(ps, markets, n - 1) {
            HealthScan::Totals(c, b) => if !ps[n - 1].active() {
                HealthScan::Totals(c, b)
            } else {
                match first_market_from(markets, ps[n - 1].market@, 0) {
                    None => HealthScan::MarketMissing,
                    Some(j) => match position_value_spec(ps[n - 1], markets[j].market, markets[j].price) {
                        None => HealthScan::Overflow,
                        Some((cv, bv)) => if c + cv > u128::MAX || b + bv > u128::MAX {
                            HealthScan::Overflow
                        } else {
                            HealthScan::Totals((c + cv) as u128, (b + bv) as u128)
                        },
                    },
                }
            },
            other => other,
        }
    }
}

/// Health factor in percent: `collateral * 100 / borrows`, `u64::MAX` without borrows.
/// `None` where the arithmetic leaves its integer type.
pub open spec fn health_factor_spec(up: UserPosition, markets: Seq<MarketAccount>) -> Option<Result<u64, AurumError>> {
    match health_scan(up.positions@, markets, 10) {
        HealthScan::MarketMissing => Some(Err(AurumError::MarketNotFound)),
        HealthScan::Overflow => None,
        HealthScan::Totals(c, b) => if b == 0 {
            Some(Ok(u64::MAX))
        } else if c * 100 > u128::MAX || c * 100 / (b as int) > u64::MAX {
            None
        } else {
            Some(Ok((c * 100 / (b as int)) as u64))
        },
    }
}

fn find_market<'a>(markets: &'a [MarketAccount], key: &[u8; 32]) -> (r: Option<&'a MarketAccount>)
    ensures
        match first_market_from(markets@, key@, 0) {
            Some(j) => r == Some(&markets@[j]),
            None => r is None,
        },
{
    let mut i: usize = 0;
    while i < markets.len()
        invariant
            0 <= i <= markets@.len(),
            first_market_from(markets@, key@, 0) == first_market_from(markets@, key@, i as int),
        decreases markets@.len() - i,
    {
        if keys_equal(&markets[i].key, key) {
            return Some(&markets[i]);
        }
        i = i + 1;
    }
    None
}

fn health_factor_core(user_position: &UserPosition, markets: &[MarketAccount], global_config: &Config) -> (r: Option<Result<u64, AurumError>>)
    ensures
        r == health_factor_spec(*user_position, markets@),
{
    let mut total_collateral_value: u128 = 0;
    let mut total_borrow_value: u128 = 0;
    let mut i: usize = 0;
    while i < 10
        invariant
            0 <= i <= 10,
            user_position.positions@.len() == 10,
            health_scan(user_position.positions@, markets@, i as int) == HealthScan::Totals(total_collateral_value, total_borrow_value),
        decreases 10 - i,
    {
        let position: &Position = &user_position.positions[i];
        if position.is_active() {
            let market: &MarketAccount = match find_market(markets, &position.market) {
                Some(m) => m,
                None => {
                    assert(health_scan(user_position.positions@, markets@, (i + 1) as int) == HealthScan::MarketMissing);
                    proof { lemma_scan_sticks(user_position.positions@, markets@, (i + 1) as int, 10); }
                    return Some(Err(AurumError::MarketNotFound));
                },
            };
            let (collateral_value, borrow_value) = match calculate_position_value(position, market, global_config) {
                Some(v) => v,
                None => {
                    proof { lemma_scan_sticks(user_position.positions@, markets@, (i + 1) as int, 10); }
                    return None;
                },
            };
            total_collateral_value = match total_collateral_value.checked_add(collateral_value) {
                Some(x) => x,
                None => {
                    proof { lemma_scan_sticks(user_position.positions@, markets@, (i + 1) as int, 10); }
                    return None;
                },
            };
            total_borrow_value = match total_borrow_value.checked_add(borrow_value) {
                Some(x) => x,
                None => {
                    proof { lemma_scan_sticks(user_position.positions@, markets@, (i + 1) as int, 10); }
                    return None;
                },
            };
        }
        i = i + 1;
    }
    if total_borrow_value == 0 {
        return Some(Ok(u64::MAX));
    }
    let scaled: u128 = match total_collateral_value.checked_mul(100) {
        Some(x) => x,
        None => return None,
    };
    let health_factor: u128 = scaled / total_borrow_value;
    if health_factor > u64::MAX as u128 {
        return None;
    }
    Some(Ok(health_factor as u64))
}

/// Once the scan stops on a missing market or an overflow, longer scans stop there too.
proof fn lemma_scan_sticks(ps: Seq<Position>, markets: Seq<MarketAccount>, n: int, m: int)
    requires
        n <= m,
        !(health_scan(ps, markets, n) is Totals),
    ensures
        health_scan(ps, markets, m) == health_scan(ps, markets, n),
    decreases m - n,
{
    if n < m {
        lemma_scan_sticks(ps, markets, n, m - 1);
    }
}

/// Health factor of a user position in percent: total collateral value (supply weighted by
/// each market's LTV) times 100 over total borrow value; `u64::MAX` without borrows.  A
/// position whose market is missing from `markets` gives `MarketNotFound`.
pub fn calculate_health_factor(user_position: &UserPosition, markets: &[MarketAccount], global_config: &Config) -> (r: Result<u64, AurumError>)
    requires
        health_factor_spec(*user_position, markets@) is Some,
    ensures
        r == health_factor_spec(*user_position, markets@).unwrap(),
{
    match health_factor_core(user_position, markets, global_config) {
        Some(res) => res,
        None => Err(AurumError::MathOverflow),
    }
}

} // verus!
