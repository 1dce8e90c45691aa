use lending_borrowing_market_compound_v2::errors::AurumError;
use lending_borrowing_market_compound_v2::health::{calculate_health_factor, checked_pow10, MarketAccount};
use lending_borrowing_market_compound_v2::state::{Config, Market, Position, UserPosition};

const WAD: u128 = 1_000_000_000_000_000_000;
const PRICE: u128 = 100 * WAD;

fn config() -> Config {
    Config {
        bump: 1, admin: [1u8; 32], treasury: [2u8; 32], paused: false, updated_at: 0,
        liquidation_threshold: 8000, liquidation_bonus: 500, base_rate: 0, slope1: 0,
        jump_slope: 0, kink: 8000, reserve_factor: 1000,
    }
}

fn market() -> Market {
    Market {
        bump: 0, mint: [3u8; 32], vault: [4u8; 32], total_cash: 0, total_borrows: 0,
        total_reserves: 0, c_token_mint: [0u8; 32], c_token_supply: 0, pyth_feed_id: [0u8; 32],
        decimals: 6, borrow_index: WAD, supply_index: WAD, ltv_bps: 7500,
        liquidation_threshold_bps: 8000, liquidation_bonus_bps: 500, reserve_factor_bps: 1000,
        kink_utilization_bps: 8000, base_rate_per_year: 0, slope1_per_year: 0, slope2_per_year: 0,
        last_updated_ts: 0,
    }
}

fn slot(key: u8, supply: u128, borrow: u128, collateral: u8) -> Position {
    Position { market: [key; 32], supply_principal: supply, borrow_principal: borrow, supply_index: WAD, borrow_index: WAD, is_collateral: collateral }
}

fn user(slots: &[Position]) -> UserPosition {
    let empty = Position { market: [0u8; 32], supply_principal: 0, borrow_principal: 0, supply_index: 0, borrow_index: 0, is_collateral: 0 };
    let mut u = UserPosition { bump: 0, owner: [0u8; 32], num_positions: slots.len() as u8, positions: [empty; 10] };
    for (i, s) in slots.iter().enumerate() {
        u.positions[i] = *s;
    }
    u
}

#[test]
fn no_debt_means_maximal_health() {
    let u = user(&[slot(5, 1_000, 0, 1)]);
    let markets = vec![MarketAccount { key: [5u8; 32], market: market(), price: PRICE }];
    assert_eq!(calculate_health_factor(&u, &markets, &config()), Ok(u64::MAX));
    assert_eq!(calculate_health_factor(&user(&[]), &[], &config()), Ok(u64::MAX));
}

#[test]
fn health_is_weighted_collateral_over_debt() {
    let u = user(&[slot(5, 1_000, 0, 1), slot(6, 0, 500, 0)]);
    let markets = vec![
        MarketAccount { key: [6u8; 32], market: market(), price: PRICE },
        MarketAccount { key: [5u8; 32], market: market(), price: PRICE },
    ];
    assert_eq!(calculate_health_factor(&u, &markets, &config()), Ok(150));
}

#[test]
fn supply_not_flagged_as_collateral_does_not_count() {
    let u = user(&[slot(5, 1_000, 500, 0)]);
    let markets = vec![MarketAccount { key: [5u8; 32], market: market(), price: PRICE }];
    assert_eq!(calculate_health_factor(&u, &markets, &config()), Ok(0));
}

#[test]
fn a_missing_market_is_reported() {
    let u = user(&[slot(5, 1_000, 500, 1)]);
    let markets = vec![MarketAccount { key: [6u8; 32], market: market(), price: PRICE }];
    assert_eq!(calculate_health_factor(&u, &markets, &config()), Err(AurumError::MarketNotFound));
}

#[test]
fn powers_of_ten() {
    assert_eq!(checked_pow10(0), Some(1));
    assert_eq!(checked_pow10(6), Some(1_000_000));
    assert_eq!(checked_pow10(38), Some(100_000_000_000_000_000_000_000_000_000_000_000_000));
    assert_eq!(checked_pow10(39), None);
}

#[test]
fn health_uses_each_market_price() {
    let u = user(&[slot(5, 1_000, 0, 1), slot(6, 0, 500, 0)]);
    let markets = vec![
        MarketAccount { key: [5u8; 32], market: market(), price: 100 * WAD },
        MarketAccount { key: [6u8; 32], market: market(), price: 300 * WAD },
    ];
    // collateral 1_000 * 100 * 75% against debt 500 * 300
    assert_eq!(calculate_health_factor(&u, &markets, &config()), Ok(50));
}
