//! Fixed-point helpers over the 1e18 mantissa.
use vstd::prelude::*;
use crate::constants::INDEX_MANTISSA;
use crate::errors::AurumError;

verus! {

/// `a * b / 1e18`, failing when the product leaves `u128`.
pub open spec fn ray_mul_spec(a: u128, b: u128) -> Result<u128, AurumError> {
    if a * b <= u128::MAX {
        Ok((a * b / (INDEX_MANTISSA as int)) as u128)
    } else {
        Err(AurumError::MathOverflow)
    }
}

/// `a * 1e18 / b`, failing on a zero divisor or when the scaled numerator leaves `u128`.
pub open spec fn ray_div_spec(a: u128, b: u128) -> Result<u128, AurumError> {
    if b == 0 || a * INDEX_MANTISSA > u128::MAX {
        Err(AurumError::MathOverflow)
    } else {
        Ok((a * INDEX_MANTISSA / (b as int)) as u128)
    }
}

/// `a * b / denom` rounded down, failing on a zero divisor or when the product leaves `u128`.
pub open spec fn mul_div_floor_spec(a: u128, b: u128, denom: u128) -> Result<u128, AurumError> {
    if denom == 0 || a * b > u128::MAX {
        Err(AurumError::MathOverflow)
    } else {
        Ok((a * b / (denom as int)) as u128)
    }
}

/// Multiplies two 1e18-scaled values.
pub fn ray_mul(a: u128, b: u128) -> (r: Result<u128, AurumError>)
    ensures
        r == ray_mul_spec(a, b),
{
    match a.checked_mul(b) {
        Some(x) => Ok(x / INDEX_MANTISSA),
        None => Err(AurumError::MathOverflow),
    }
}

/// Divides two 1e18-scaled values.
pub fn ray_div(a: u128, b: u128) -> (r: Result<u128, AurumError>)
    ensures
        r == ray_div_spec(a, b),
{
    if b == 0 {
        return Err(AurumError::MathOverflow);
    }
    match a.checked_mul(INDEX_MANTISSA) {
        Some(x) => Ok(x / b),
        None => Err(AurumError::MathOverflow),
    }
}

/// `a * b / denom` rounded down.
pub fn mul_div_floor(a: u128, b: u128, denom: u128) -> (r: Result<u128, AurumError>)
    ensures
        r == mul_div_floor_spec(a, b, denom),
{
    if denom == 0 {
        return Err(AurumError::MathOverflow);
    }
    match a.checked_mul(b) {
        Some(x) => Ok(x / denom),
        None => Err(AurumError::MathOverflow),
    }
}

} // verus!
