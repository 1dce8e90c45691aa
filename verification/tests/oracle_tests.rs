use lending_borrowing_market_compound_v2::errors::AurumError;
use lending_borrowing_market_compound_v2::oracle::{
    asset_value_in_usd_at, get_asset_value_in_usd, get_price_value, price_value_at, scale_price,
    PriceUpdate, PriceVerification,
};

const FEED: [u8; 32] = [0xef; 32];

fn update(price: i64, exponent: i32, publish_time: i64) -> PriceUpdate {
    PriceUpdate { verification_level: PriceVerification::Full, feed_id: FEED, price, conf: 10, exponent, publish_time }
}

#[test]
fn negative_exponents_scale_to_eighteen_decimals() {
    assert_eq!(scale_price(15_000_000_000, -8), Some(150_000_000_000_000_000_000));
    assert_eq!(scale_price(7, -18), Some(7));
    assert_eq!(scale_price(1_234, -20), Some(12));
    assert_eq!(scale_price(1, -20), Some(0));
    assert_eq!(scale_price(10, -21), Some(0));
    assert_eq!(scale_price(i64::MAX, i32::MIN), Some(0));
}

#[test]
fn non_negative_exponents_scale_up_past_eighteen_decimals() {
    assert_eq!(scale_price(150, 0), Some(150_000_000_000_000_000_000));
    assert_eq!(scale_price(150, 2), Some(15_000_000_000_000_000_000_000));
    assert_eq!(scale_price(150, 18), Some(150 * 10u128.pow(36)));
    assert_eq!(scale_price(150, 19), None);
    assert_eq!(scale_price(1, 21), None);
    assert_eq!(scale_price(0, 21), None);
}

#[test]
fn scaling_ignores_how_the_price_is_written() {
    assert_eq!(scale_price(15, 2), scale_price(150, 1));
    assert_eq!(scale_price(1_500, -20), scale_price(15_000, -21));
    assert_eq!(scale_price(3, -18), scale_price(30, -19));
}

#[test]
fn negative_prices_cannot_be_scaled() {
    assert_eq!(scale_price(-1, -8), None);
    assert_eq!(scale_price(-1, 0), None);
}

#[test]
fn fresh_full_updates_give_the_price() {
    let u = update(15_000_000_000, -8, 1_000);
    assert_eq!(price_value_at(&u, &FEED, 60, 1_060), Ok(150_000_000_000_000_000_000));
    assert_eq!(price_value_at(&u, &FEED, 60, 1_061), Err(AurumError::InvalidPriceFeed));
    assert_eq!(price_value_at(&u, &[1u8; 32], 60, 1_000), Err(AurumError::InvalidPriceFeed));
    let mut partial = u;
    partial.verification_level = PriceVerification::Partial { num_signatures: 13 };
    assert_eq!(price_value_at(&partial, &FEED, 60, 1_000), Err(AurumError::InvalidPriceFeed));
    let negative = update(-5, -8, 1_000);
    assert_eq!(price_value_at(&negative, &FEED, 60, 1_000), Err(AurumError::MathOverflow));
}

#[test]
fn usd_value_is_amount_times_price() {
    let u = update(15_000_000_000, -8, 1_000);
    assert_eq!(asset_value_in_usd_at(3, &u, &FEED, 60, 1_000), Ok(450));
    assert_eq!(asset_value_in_usd_at(3, &u, &FEED, 60, 5_000), Err(AurumError::InvalidPriceFeed));
}

#[test]
fn prices_need_the_cluster_clock() {
    let u = update(15_000_000_000, -8, 1_000);
    assert_eq!(get_price_value(&u, &FEED, 60), Err(AurumError::ClockUnavailable));
    assert_eq!(get_asset_value_in_usd(3, &u, &FEED, 60), Err(AurumError::ClockUnavailable));
}
