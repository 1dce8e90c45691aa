//! Asset prices from Pyth price updates, normalized to 18 decimals.
use vstd::prelude::*;
use crate::errors::AurumError;
use crate::health::{checked_pow10, lemma_pow10_18, lemma_pow10_monotone, pow10};
use crate::math::{mul_div_floor, mul_div_floor_spec};
use crate::outside::{clock_unix_timestamp, pyth_price_no_older_than};

verus! {

/// How many guardian signatures of a price update were checked.
#[derive(Clone, Copy, Debug)]
pub enum PriceVerification {
    Partial { num_signatures: u8 },
    Full,
}

/// The price-feed content of a Pyth price update account.
#[derive(Clone, Copy, Debug)]
pub struct PriceUpdate {
    pub verification_level: PriceVerification,
    pub feed_id: [u8; 32],
    pub price: i64,
    pub conf: u64,
    pub exponent: i32,
    pub publish_time: i64,
}

/// A Pyth price: `(price ± conf) * 10^exponent`, published at `publish_time`.
#[derive(Clone, Copy, Debug)]
pub struct PythPrice {
    pub price: i64,
    pub conf: u64,
    pub exponent: i32,
    pub publish_time: i64,
}

/// Whether a price update is fully verified, is for `feed_id` and is no older than
/// `maximum_age` seconds at time `now`.
pub open spec fn price_usable(u: PriceUpdate, feed_id: Seq<u8>, maximum_age: u64, now: i64) -> bool {
    &&& u.verification_level is Full
    &&& u.feed_id@ == feed_id
    &&& u.publish_time + maximum_age >= now
}

/// A Pyth price `price * 10^exponent` as a fixed-point number with 18 decimals:
/// `price * 10^(18 + exponent)` for an exponent of at least -18, `price / 10^(-18 - exponent)`
/// rounded down below that.  `None` for a negative price or a result beyond `u128`.
pub open spec fn scaled_price(price: i64, exponent: i32) -> Option<u128> {
    if price < 0 {
        None
    } else if exponent >= -18 {
        let k = (18 + exponent) as nat;
        if pow10(k) > u128::MAX || price * pow10(k) > u128::MAX { None } else { Some((price * pow10(k)) as u128) }
    } else {
        Some((price as int / (pow10((-18 - exponent) as nat) as int)) as u128)
    }
}

/// Scales a Pyth price to 18 decimals (see `scaled_price`).
pub fn scale_price(price: i64, exponent: i32) -> (r: Option<u128>)
    ensures
        r == scaled_price(price, exponent),
{
    if price < 0 {
        return None;
    }
    let p: u128 = price as u128;
    if exponent >= -18 {
        let k: u32 = ((exponent as i64) + 18) as u32;
        let scale: u128 = match checked_pow10(k) {
            Some(x) => x,
            None => return None,
        };
        p.checked_mul(scale)
    } else {
        let k: u32 = (-18 - (exponent as i64)) as u32;
        match checked_pow10(k) {
            Some(scale) => {
                proof { lemma_pow10_monotone(0, k as nat); }
                Some(p / scale)
            },
            None => {
                proof { lemma_pow10_big_divides_to_zero(price as int, k as nat); }
                Some(0)
            },
        }
    }
}

/// A price below `10^k` divides to zero.
proof fn lemma_pow10_big_divides_to_zero(price: int, k: nat)
    requires
        0 <= price < pow10(k),
    ensures
        price / (pow10(k) as int) == 0,
{
    vstd::arithmetic::div_mod::lemma_basic_div(price, pow10(k) as int);
}

/// Price of a fully verified, fresh update for `feed_id` at time `now`, scaled to 18
/// decimals.  An unusable update gives `InvalidPriceFeed`; a price that cannot be scaled
/// gives `MathOverflow`.
pub fn price_value_at(price_update: &PriceUpdate, feed_id: &[u8; 32], maximum_age: u64, now: i64) -> (r: Result<u128, AurumError>)
    requires
        maximum_age <= i64::MAX,
    ensures
        !price_usable(*price_update, feed_id@, maximum_age, now) ==> r == Err::<u128, AurumError>(AurumError::InvalidPriceFeed),
        price_usable(*price_update, feed_id@, maximum_age, now) ==> r == match scaled_price(price_update.price, price_update.exponent) {
            Some(v) => Ok::<u128, AurumError>(v),
            None => Err::<u128, AurumError>(AurumError::MathOverflow),
        },
{
    let price: PythPrice = match pyth_price_no_older_than(price_update, now, maximum_age, feed_id) {
        Ok(p) => p,
        Err(_) => return Err(AurumError::InvalidPriceFeed),
    };
    match scale_price(price.price, price.exponent) {
        Some(v) => Ok(v),
        None => Err(AurumError::MathOverflow),
    }
}

/// What `price_value_at` gives at time `now`.
pub open spec fn price_value_spec(u: PriceUpdate, feed_id: Seq<u8>, maximum_age: u64, now: i64) -> Result<u128, AurumError> {
    if !price_usable(u, feed_id, maximum_age, now) {
        Err(AurumError::InvalidPriceFeed)
    } else {
        match scaled_price(u.price, u.exponent) {
            Some(v) => Ok(v),
            None => Err(AurumError::MathOverflow),
        }
    }
}

/// Price of the update at the cluster clock (see `price_value_at`).
pub fn get_price_value(price_update: &PriceUpdate, feed_id: &[u8; 32], maximum_age: u64) -> (r: Result<u128, AurumError>)
    requires
        maximum_age <= i64::MAX,
    ensures
        r matches Ok(v) ==> price_update.verification_level is Full && price_update.feed_id@ == feed_id@
            && scaled_price(price_update.price, price_update.exponent) == Some(v),
        (price_update.verification_level !is Full || price_update.feed_id@ != feed_id@) ==> r is Err,
        r matches Err(e) ==> e == AurumError::ClockUnavailable || e == AurumError::InvalidPriceFeed
            || (e == AurumError::MathOverflow && scaled_price(price_update.price, price_update.exponent) is None),
        r == Err::<u128, AurumError>(AurumError::ClockUnavailable)
            || exists|now: i64| r == price_value_spec(*price_update, feed_id@, maximum_age, now),
{
    let now: i64 = match clock_unix_timestamp() {
        Ok(t) => t,
        Err(_) => return Err(AurumError::ClockUnavailable),
    };
    let r = price_value_at(price_update, feed_id, maximum_age, now);
    assert(r == price_value_spec(*price_update, feed_id@, maximum_age, now));
    r
}

/// Value of `amount` base units at an 18-decimal price: `amount * price / 10^18`.
pub open spec fn usd_value_spec(amount: u128, price: u128) -> Result<u128, AurumError> {
    mul_div_floor_spec(amount, price, 1_000_000_000_000_000_000u128)
}

/// Value of `amount` base units at time `now`, with 18 decimals.
pub fn asset_value_in_usd_at(amount: u128, price_update: &PriceUpdate, feed_id: &[u8; 32], maximum_age: u64, now: i64) -> (r: Result<u128, AurumError>)
    requires
        maximum_age <= i64::MAX,
    ensures
        !price_usable(*price_update, feed_id@, maximum_age, now) ==> r == Err::<u128, AurumError>(AurumError::InvalidPriceFeed),
        price_usable(*price_update, feed_id@, maximum_age, now) ==> r == match scaled_price(price_update.price, price_update.exponent) {
            Some(p) => usd_value_spec(amount, p),
            None => Err::<u128, AurumError>(AurumError::MathOverflow),
        },
{
    let price: u128 = price_value_at(price_update, feed_id, maximum_age, now)?;
    proof { lemma_pow10_18(); }
    let scale: u128 = checked_pow10(18).unwrap();
    mul_div_floor(amount, price, scale)
}

/// What `asset_value_in_usd_at` gives at time `now`: the value of `amount` at the price of
/// the update, or the error of that price.
pub open spec fn usd_value_at_spec(amount: u128, u: PriceUpdate, feed_id: Seq<u8>, maximum_age: u64, now: i64) -> Result<u128, AurumError> {
    match price_value_spec(u, feed_id, maximum_age, now) {
        Ok(p) => usd_value_spec(amount, p),
        Err(e) => Err(e),
    }
}

/// Value of `amount` base units at the cluster clock, with 18 decimals: `ClockUnavailable`
/// when the clock cannot be read, otherwise exactly `asset_value_in_usd_at` at the time
/// the clock gave (stale or mismatched updates give `InvalidPriceFeed`, overflows
/// `MathOverflow`).
pub fn get_asset_value_in_usd(amount: u128, price_update: &PriceUpdate, feed_id: &[u8; 32], maximum_age: u64) -> (r: Result<u128, AurumError>)
    requires
        maximum_age <= i64::MAX,
    ensures
        r matches Ok(v) ==> price_update.verification_level is Full && price_update.feed_id@ == feed_id@
            && exists|p: u128| scaled_price(price_update.price, price_update.exponent) == Some(p) && usd_value_spec(amount, p) == Ok::<u128, AurumError>(v),
        (price_update.verification_level !is Full || price_update.feed_id@ != feed_id@) ==> r is Err,
        r == Err::<u128, AurumError>(AurumError::ClockUnavailable)
            || exists|now: i64| r == usd_value_at_spec(amount, *price_update, feed_id@, maximum_age, now),
{
    let price: u128 = match get_price_value(price_update, feed_id, maximum_age) {
        Ok(p) => p,
        Err(e) => {
            proof {
                if e != AurumError::ClockUnavailable {
                    let now = choose|now: i64| Err::<u128, AurumError>(e) == price_value_spec(*price_update, feed_id@, maximum_age, now);
                    assert(Err::<u128, AurumError>(e) == usd_value_at_spec(amount, *price_update, feed_id@, maximum_age, now));
                }
            }
            return Err(e);
        },
    };
    proof { lemma_pow10_18(); }
    let scale: u128 = checked_pow10(18).unwrap();
    let r = mul_div_floor(amount, price, scale);
    assert(r is Ok ==> usd_value_spec(amount, price) == r);
    proof {
        let now = choose|now: i64| Ok::<u128, AurumError>(price) == price_value_spec(*price_update, feed_id@, maximum_age, now);
        assert(r == usd_value_at_spec(amount, *price_update, feed_id@, maximum_age, now));
    }
    r
}

} // verus!
