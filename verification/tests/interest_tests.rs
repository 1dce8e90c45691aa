use lending_borrowing_market_compound_v2::errors::AurumError;
use lending_borrowing_market_compound_v2::interest::{
    accrue_market_at, borrow_rate, handler_accrue_interest, supply_rate, utilization_rate,
};
use lending_borrowing_market_compound_v2::state::{Config, Market};

const WAD: u128 = 1_000_000_000_000_000_000;
const YEAR: u64 = 31_557_600;

fn config() -> Config {
    Config {
        bump: 1,
        admin: [1u8; 32],
        treasury: [2u8; 32],
        paused: false,
        updated_at: 0,
        liquidation_threshold: 8000,
        liquidation_bonus: 500,
        base_rate: 20_000_000_000_000_000,
        slope1: 100_000_000_000_000_000,
        jump_slope: 1_000_000_000_000_000_000,
        kink: 8000,
        reserve_factor: 1000,
    }
}

fn market(cash: u128, borrows: u128, last: u64) -> Market {
    Market {
        bump: 0,
        mint: [3u8; 32],
        vault: [4u8; 32],
        total_cash: cash,
        total_borrows: borrows,
        total_reserves: 0,
        c_token_mint: [0u8; 32],
        c_token_supply: 0,
        pyth_feed_id: [0u8; 32],
        decimals: 6,
        borrow_index: WAD,
        supply_index: WAD,
        ltv_bps: 7500,
        liquidation_threshold_bps: 8000,
        liquidation_bonus_bps: 500,
        reserve_factor_bps: 1000,
        kink_utilization_bps: 8000,
        base_rate_per_year: 0,
        slope1_per_year: 0,
        slope2_per_year: 0,
        last_updated_ts: last,
    }
}

#[test]
fn accrue_one_year_below_kink() {
    let mut m = market(6_000_000_000_000, 4_000_000_000_000, 1000);
    assert_eq!(accrue_market_at(&mut m, &config(), 1000 + YEAR), Ok(()));
    assert_eq!(m.total_cash, 6_000_000_000_000);
    assert_eq!(m.total_borrows, 4_239_999_999_893);
    assert_eq!(m.total_reserves, 23_999_999_989);
    assert_eq!(m.borrow_index, 1_059_999_999_973_436_800);
    assert_eq!(m.supply_index, 1_021_599_999_975_289_600);
    assert_eq!(m.last_updated_ts, 1000 + YEAR);
}

#[test]
fn accrue_one_year_above_kink() {
    let mut m = market(1_000_000_000_000, 9_000_000_000_000, 1000);
    assert_eq!(accrue_market_at(&mut m, &config(), 1000 + YEAR), Ok(()));
    assert_eq!(m.total_borrows, 10_799_999_999_771);
    assert_eq!(m.total_reserves, 179_999_999_977);
    assert_eq!(m.borrow_index, 1_199_999_999_974_571_200);
    assert_eq!(m.supply_index, 1_161_999_999_972_460_000);
}

#[test]
fn accrue_without_time_changes_nothing() {
    let mut m = market(6_000_000_000_000, 4_000_000_000_000, 1000);
    let before = m;
    assert_eq!(accrue_market_at(&mut m, &config(), 1000), Ok(()));
    assert_eq!(m.borrow_index, before.borrow_index);
    assert_eq!(m.total_borrows, before.total_borrows);
    assert_eq!(m.last_updated_ts, 1000);
    assert_eq!(accrue_market_at(&mut m, &config(), 10), Ok(()));
    assert_eq!(m.last_updated_ts, 1000);
}

#[test]
fn accrue_twice_at_same_time_is_accrue_once() {
    let mut m = market(6_000_000_000_000, 4_000_000_000_000, 1000);
    accrue_market_at(&mut m, &config(), 5000).unwrap();
    let once = m;
    accrue_market_at(&mut m, &config(), 5000).unwrap();
    assert_eq!(m.borrow_index, once.borrow_index);
    assert_eq!(m.supply_index, once.supply_index);
    assert_eq!(m.total_borrows, once.total_borrows);
    assert_eq!(m.total_reserves, once.total_reserves);
}

#[test]
fn accrue_never_moves_backwards() {
    let mut m = market(6_000_000_000_000, 4_000_000_000_000, 1000);
    let before = m;
    accrue_market_at(&mut m, &config(), 1000 + 3 * YEAR).unwrap();
    assert!(m.borrow_index >= before.borrow_index);
    assert!(m.supply_index >= before.supply_index);
    assert!(m.total_borrows >= before.total_borrows);
    assert!(m.total_reserves - before.total_reserves <= m.total_borrows - before.total_borrows);
    assert_eq!(m.total_cash, before.total_cash);
}

#[test]
fn accrue_overflow_in_utilization_is_an_error() {
    let mut m = market(0, u128::MAX / 1000, 1000);
    let before = m;
    assert_eq!(accrue_market_at(&mut m, &config(), 2000), Err(AurumError::MathOverflow));
    assert_eq!(m.total_borrows, before.total_borrows);
    assert_eq!(m.last_updated_ts, 1000);
}

#[test]
fn accrue_with_overflowing_totals_is_math_overflow() {
    let mut m = market(u128::MAX, 1, 1000);
    assert_eq!(accrue_market_at(&mut m, &config(), 2000), Err(AurumError::MathOverflow));
}

#[test]
fn accrue_interest_needs_the_cluster_clock() {
    let mut m = market(6_000_000_000_000, 4_000_000_000_000, 1000);
    assert_eq!(handler_accrue_interest(&mut m, &config()), Err(AurumError::ClockUnavailable));
    let mut paused = config();
    paused.paused = true;
    assert_eq!(handler_accrue_interest(&mut m, &paused), Err(AurumError::ProtocolPaused));
    assert_eq!(m.last_updated_ts, 1000);
}

#[test]
fn utilization_examples() {
    assert_eq!(utilization_rate(6_000, 4_000, 0), Ok(400_000_000_000_000_000));
    assert_eq!(utilization_rate(6_000, 0, 0), Ok(0));
    assert_eq!(utilization_rate(1, 1, 5), Ok(0));
    assert_eq!(utilization_rate(1_000, 4_000, 1_000), Ok(WAD));
}

#[test]
fn borrow_rate_follows_the_jump_model() {
    let c = config();
    assert_eq!(borrow_rate(0, &c), Ok(20_000_000_000_000_000));
    assert_eq!(borrow_rate(400_000_000_000_000_000, &c), Ok(60_000_000_000_000_000));
    assert_eq!(borrow_rate(800_000_000_000_000_000, &c), Ok(100_000_000_000_000_000));
    assert_eq!(borrow_rate(900_000_000_000_000_000, &c), Ok(200_000_000_000_000_000));
    assert_eq!(borrow_rate(WAD, &c), Ok(300_000_000_000_000_000));
    // A kink above full utilization keeps the lower slope.
    let mut high = config();
    high.kink = 20_000;
    assert_eq!(borrow_rate(WAD, &high), Ok(120_000_000_000_000_000));
    assert_eq!(borrow_rate(3 * WAD, &high), Ok(20_000_000_000_000_000 + 2 * 100_000_000_000_000_000 + 1_000_000_000_000_000_000));
}

#[test]
fn borrow_rate_is_monotone_in_utilization() {
    let c = config();
    let mut last = 0u128;
    let mut u = 0u128;
    while u <= WAD {
        let r = borrow_rate(u, &c).unwrap();
        assert!(r >= last);
        last = r;
        u += 50_000_000_000_000_000;
    }
}

#[test]
fn supply_rate_is_below_borrow_rate() {
    let c = config();
    let u = 400_000_000_000_000_000;
    let b = borrow_rate(u, &c).unwrap();
    let s = supply_rate(b, u, &c).unwrap();
    assert_eq!(s, 21_600_000_000_000_000);
    assert!(s <= b);
}
