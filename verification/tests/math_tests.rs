use lending_borrowing_market_compound_v2::errors::AurumError;
use lending_borrowing_market_compound_v2::math::{mul_div_floor, ray_div, ray_mul};

const WAD: u128 = 1_000_000_000_000_000_000;

#[test]
fn ray_mul_scales_down_by_mantissa() {
    assert_eq!(ray_mul(3 * WAD, 2 * WAD), Ok(6 * WAD));
    assert_eq!(ray_mul(WAD / 2, 5), Ok(2));
}

#[test]
fn ray_mul_overflow_is_an_error() {
    assert_eq!(ray_mul(u128::MAX, 2), Err(AurumError::MathOverflow));
}

#[test]
fn ray_div_scales_up_by_mantissa() {
    assert_eq!(ray_div(1, 4), Ok(WAD / 4));
    assert_eq!(ray_div(5, 0), Err(AurumError::MathOverflow));
    assert_eq!(ray_div(u128::MAX, 1), Err(AurumError::MathOverflow));
}

#[test]
fn mul_div_floor_rounds_down() {
    assert_eq!(mul_div_floor(7, 3, 2), Ok(10));
    assert_eq!(mul_div_floor(7, 3, 0), Err(AurumError::MathOverflow));
}
