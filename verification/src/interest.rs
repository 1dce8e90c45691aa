//! Interest accrual with the jump-rate model.
use vstd::prelude::*;
use crate::constants::{BPS_DENOMINATOR, INDEX_MANTISSA, SECONDS_PER_YEAR};
use crate::errors::AurumError;
use crate::math::{mul_div_floor, mul_div_floor_spec, ray_div, ray_div_spec, ray_mul, ray_mul_spec};
use crate::outside::clock_unix_timestamp;
use crate::state::{Config, Market};

verus! {

/// `cash + borrows - reserves`, or 0 when the reserves exceed the other two.
pub open spec fn utilization_denominator(cash: u128, borrows: u128, reserves: u128) -> int {
    if cash + borrows < reserves {
        0
    } else {
        cash + borrows - reserves
    }
}

/// Utilization `borrows / (cash + borrows - reserves)`, scaled by 1e18; 0 when there
/// are no borrows or the denominator is 0.
pub open spec fn utilization_spec(cash: u128, borrows: u128, reserves: u128) -> Result<u128, AurumError> {
    let d = utilization_denominator(cash, borrows, reserves);
    if d == 0 || borrows == 0 {
        Ok(0u128)
    } else {
        ray_div_spec(borrows, d as u128)
    }
}

/// The kink as a 1e18-scaled utilization.
pub open spec fn kink_mantissa(c: Config) -> int {
    c.kink * (INDEX_MANTISSA / BPS_DENOMINATOR) as int
}

/// The reserve factor as a 1e18-scaled fraction.
pub open spec fn reserve_factor_mantissa(c: Config) -> int {
    c.reserve_factor * (INDEX_MANTISSA / BPS_DENOMINATOR) as int
}

/// Yearly borrow rate (1e18-scaled) of the jump-rate model at utilization `u`, with
/// `slope1` and `jump_slope` the slopes below and above the kink:
/// `base + slope1 * u` up to the kink, `base + slope1 * kink + jump_slope * (u - kink)`
/// above it (each product a 1e18-scaled multiplication).
pub open spec fn borrow_rate_spec(u: u128, c: Config) -> Result<u128, AurumError> {
    let k = kink_mantissa(c);
    if u <= k {
        match ray_mul_spec(c.slope1 as u128, u) {
            Err(e) => Err(e),
            Ok(v) => Ok((c.base_rate + v) as u128),
        }
    } else {
        match ray_mul_spec(c.slope1 as u128, k as u128) {
            Err(e) => Err(e),
            Ok(v1) => match ray_mul_spec(c.jump_slope as u128, (u - k) as u128) {
                Err(e) => Err(e),
                Ok(v2) => Ok((c.base_rate + v1 + v2) as u128),
            },
        }
    }
}

/// Yearly supply rate: `borrow_rate * u * (1 - reserve_factor)`, all 1e18-scaled.
pub open spec fn supply_rate_spec(borrow_rate: u128, u: u128, c: Config) -> Result<u128, AurumError> {
    match ray_mul_spec(borrow_rate, u) {
        Err(e) => Err(e),
        Ok(x) => ray_mul_spec(x, (INDEX_MANTISSA - reserve_factor_mantissa(c)) as u128),
    }
}

/// Simple-interest growth over `dt` seconds: `1 + (rate / seconds_per_year) * dt`, 1e18-scaled.
pub open spec fn growth_factor(rate_per_year: u128, dt: int) -> int {
    INDEX_MANTISSA + (rate_per_year / SECONDS_PER_YEAR) as int * dt
}

/// The market after interest accrues up to `now`.  `None` marks the inputs on which the
/// arithmetic leaves `u128` without a checked operation to report it.
pub open spec fn accrue_spec(m: Market, c: Config, now: u64) -> Option<Result<Market, AurumError>> {
    if now <= m.last_updated_ts {
        Some(Ok(m))
    } else if m.total_cash + m.total_borrows > u128::MAX {
        None
    } else {
        let dt = now - m.last_updated_ts;
        match utilization_spec(m.total_cash, m.total_borrows, m.total_reserves) {
            Err(e) => Some(Err(e)),
            Ok(u) => match borrow_rate_spec(u, c) {
                Err(e) => Some(Err(e)),
                Ok(rate) => accrue_with_rate(m, c, now, dt, u, rate),
            },
        }
    }
}

/// Second half of `accrue_spec`, once utilization and borrow rate are known.
pub open spec fn accrue_with_rate(m: Market, c: Config, now: u64, dt: int, u: u128, rate: u128) -> Option<Result<Market, AurumError>> {
    let bf = growth_factor(rate, dt) as u128;
    match mul_div_floor_spec(m.borrow_index, bf, INDEX_MANTISSA) {
        Err(e) => Some(Err(e)),
        Ok(nbi) => match mul_div_floor_spec(m.total_borrows, bf, INDEX_MANTISSA) {
            Err(e) => Some(Err(e)),
            Ok(ntb) => {
                let interest = (ntb - m.total_borrows) as u128;
                match mul_div_floor_spec(interest, c.reserve_factor as u128, BPS_DENOMINATOR) {
                    Err(e) => Some(Err(e)),
                    Ok(radd) => if m.total_reserves + radd > u128::MAX || reserve_factor_mantissa(c) > INDEX_MANTISSA {
                        None
                    } else {
                        match supply_rate_spec(rate, u, c) {
                            Err(e) => Some(Err(e)),
                            Ok(srate) => match mul_div_floor_spec(m.supply_index, growth_factor(srate, dt) as u128, INDEX_MANTISSA) {
                                Err(e) => Some(Err(e)),
                                Ok(nsi) => Some(Ok(Market {
                                    borrow_index: nbi,
                                    total_borrows: ntb,
                                    total_reserves: (m.total_reserves + radd) as u128,
                                    supply_index: nsi,
                                    last_updated_ts: now,
                                    ..m
                                })),
                            },
                        }
                    },
                }
            },
        },
    }
}


/// A 1e18-scaled product never exceeds `u128::MAX / 1e18`.
proof fn lemma_ray_mul_result_bound(a: u128, b: u128)
    requires
        a * b <= u128::MAX,
    ensures
        a * b / (INDEX_MANTISSA as int) <= 340282366920938463463,
{
    vstd::arithmetic::div_mod::lemma_div_is_ordered(a * b, u128::MAX as int, INDEX_MANTISSA as int);
}

/// With a yearly rate below 2^70, `(rate / seconds_per_year) * dt` stays far below `u128::MAX`.
proof fn lemma_growth_term_bound(rate: u128, dt: u128)
    requires
        rate <= 0x400000000000000000,
        dt <= u64::MAX,
    ensures
        (rate / SECONDS_PER_YEAR) * dt <= 0x4000000000000000000000000000,
{
    let q = rate / SECONDS_PER_YEAR;
    assert(q <= 0x400000000000) by {
        vstd::arithmetic::div_mod::lemma_div_is_ordered(rate as int, 0x400000000000000000int, SECONDS_PER_YEAR as int);
    }
    assert(q * dt <= 0x400000000000 * 0xffffffffffffffff) by {
        vstd::arithmetic::mul::lemma_mul_upper_bound(q as int, 0x400000000000int, dt as int, 0xffffffffffffffffint);
    }
}

/// A successfully evaluated borrow rate stays below 2^69.
pub proof fn lemma_borrow_rate_bound(u: u128, c: Config)
    requires
        borrow_rate_spec(u, c) is Ok,
    ensures
        borrow_rate_spec(u, c)->Ok_0 <= 0x400000000000000000,
{
    let k = kink_mantissa(c);
    if u <= k {
        lemma_ray_mul_result_bound(c.slope1 as u128, u);
    } else {
        lemma_ray_mul_result_bound(c.slope1 as u128, k as u128);
        lemma_ray_mul_result_bound(c.jump_slope as u128, (u - k) as u128);
    }
}

/// A successfully evaluated supply rate stays below 2^69.
pub proof fn lemma_supply_rate_bound(rate: u128, u: u128, c: Config)
    requires
        supply_rate_spec(rate, u, c) is Ok,
    ensures
        supply_rate_spec(rate, u, c)->Ok_0 <= 0x400000000000000000,
{
    let x = ray_mul_spec(rate, u)->Ok_0;
    lemma_ray_mul_result_bound(x, (INDEX_MANTISSA - reserve_factor_mantissa(c)) as u128);
}

/// The growth factor of a rate below 2^69 over at most `u64::MAX` seconds lies between one
/// and `u128::MAX`.
pub proof fn lemma_growth_factor_range(rate: u128, dt: int)
    requires
        rate <= 0x400000000000000000,
        0 <= dt <= u64::MAX,
    ensures
        INDEX_MANTISSA <= growth_factor(rate, dt) <= u128::MAX,
{
    lemma_growth_term_bound(rate, dt as u128);
    assert((rate / SECONDS_PER_YEAR) as int * dt >= 0) by (nonlinear_arith)
        requires
            dt >= 0,
    {
    }
}

/// Scaling by a factor of at least one never shrinks a value.
proof fn lemma_scale_not_smaller(x: u128, f: u128)
    requires
        f >= INDEX_MANTISSA,
    ensures
        x * f / (INDEX_MANTISSA as int) >= x,
{
    vstd::arithmetic::mul::lemma_mul_inequality(INDEX_MANTISSA as int, f as int, x as int);
    vstd::arithmetic::mul::lemma_mul_is_commutative(x as int, f as int);
    vstd::arithmetic::div_mod::lemma_div_is_ordered(x * INDEX_MANTISSA, x * f, INDEX_MANTISSA as int);
    vstd::arithmetic::div_mod::lemma_div_multiples_vanish(x as int, INDEX_MANTISSA as int);
}

/// Current utilization of a market, scaled by 1e18.
pub fn utilization_rate(total_cash: u128, total_borrows: u128, total_reserves: u128) -> (r: Result<u128, AurumError>)
    requires
        total_cash + total_borrows <= u128::MAX,
    ensures
        r == utilization_spec(total_cash, total_borrows, total_reserves),
{
    let sum: u128 = total_cash + total_borrows;
    let denominator: u128 = if sum < total_reserves { 0 } else { sum - total_reserves };
    if denominator == 0 || total_borrows == 0 {
        Ok(0u128)
    } else {
        ray_div(total_borrows, denominator)
    }
}

/// Scale from basis points to the 1e18 mantissa.
fn bps_scale() -> (r: u128)
    ensures
        r == INDEX_MANTISSA / BPS_DENOMINATOR,
        r == 100_000_000_000_000u128,
{
    INDEX_MANTISSA / BPS_DENOMINATOR
}

/// Yearly borrow rate of the jump-rate model at utilization `utilization`.
pub fn borrow_rate(utilization: u128, config: &Config) -> (r: Result<u128, AurumError>)
    ensures
        r == borrow_rate_spec(utilization, *config),
        r matches Ok(v) ==> v <= 0x400000000000000000,
{
    let scale: u128 = bps_scale();
    let kink_mantissa: u128 = (config.kink as u128) * scale;
    let base_rate: u128 = config.base_rate as u128;
    let slope1: u128 = config.slope1 as u128;
    let jump_slope: u128 = config.jump_slope as u128;
    if utilization <= kink_mantissa {
        let v: u128 = match ray_mul(slope1, utilization) {
            Ok(v) => v,
            Err(e) => return Err(e),
        };
        proof { lemma_ray_mul_result_bound(slope1, utilization); }
        Ok(base_rate + v)
    } else {
        let v1: u128 = match ray_mul(slope1, kink_mantissa) {
            Ok(v) => v,
            Err(e) => return Err(e),
        };
        let v2: u128 = match ray_mul(jump_slope, utilization - kink_mantissa) {
            Ok(v) => v,
            Err(e) => return Err(e),
        };
        proof {
            lemma_ray_mul_result_bound(slope1, kink_mantissa);
            lemma_ray_mul_result_bound(jump_slope, (utilization - kink_mantissa) as u128);
        }
        Ok(base_rate + v1 + v2)
    }
}

/// Yearly supply rate for a borrow rate and utilization.
pub fn supply_rate(borrow_rate_per_year: u128, utilization: u128, config: &Config) -> (r: Result<u128, AurumError>)
    requires
        reserve_factor_mantissa(*config) <= INDEX_MANTISSA,
    ensures
        r == supply_rate_spec(borrow_rate_per_year, utilization, *config),
        r matches Ok(v) ==> v <= 0x400000000000000000,
{
    let scale: u128 = bps_scale();
    let reserve_factor_mantissa: u128 = (config.reserve_factor as u128) * scale;
    let one_minus_rf: u128 = INDEX_MANTISSA - reserve_factor_mantissa;
    let s1: u128 = match ray_mul(borrow_rate_per_year, utilization) {
        Ok(x) => x,
        Err(e) => return Err(e),
    };
    let s: u128 = match ray_mul(s1, one_minus_rf) {
        Ok(x) => x,
        Err(e) => return Err(e),
    };
    proof { lemma_ray_mul_result_bound(s1, one_minus_rf); }
    Ok(s)
}

/// Growth factor `1 + (rate / seconds_per_year) * dt`, scaled by 1e18.
fn growth(rate_per_year: u128, dt_seconds: u128) -> (r: u128)
    requires
        rate_per_year <= 0x400000000000000000,
        dt_seconds <= u64::MAX,
    ensures
        r == growth_factor(rate_per_year, dt_seconds as int),
        r >= INDEX_MANTISSA,
{
    let rate_per_sec: u128 = rate_per_year / SECONDS_PER_YEAR;
    proof { lemma_growth_term_bound(rate_per_year, dt_seconds); }
    INDEX_MANTISSA + rate_per_sec * dt_seconds
}

/// Applies a known utilization and borrow rate over `dt_seconds` (second half of accrual).
fn apply_rates(market: &mut Market, config: &Config, now_ts: u64, dt_seconds: u128, utilization: u128, rate: u128) -> (r: Option<Result<(), AurumError>>)
    requires
        rate <= 0x400000000000000000,
        dt_seconds <= u64::MAX,
    ensures
        match accrue_with_rate(*old(market), *config, now_ts, dt_seconds as int, utilization, rate) {
            None => r is None && *final(market) == *old(market),
            Some(Ok(m2)) => r == Some(Ok::<(), AurumError>(())) && *final(market) == m2,
            Some(Err(e)) => r == Some(Err::<(), AurumError>(e)) && *final(market) == *old(market),
        },
{
    let borrow_factor: u128 = growth(rate, dt_seconds);
    let total_borrows: u128 = market.total_borrows;
    let new_borrow_index: u128 = match mul_div_floor(market.borrow_index, borrow_factor, INDEX_MANTISSA) {
        Ok(x) => x,
        Err(e) => return Some(Err(e)),
    };
    let new_total_borrows: u128 = match mul_div_floor(total_borrows, borrow_factor, INDEX_MANTISSA) {
        Ok(x) => x,
        Err(e) => return Some(Err(e)),
    };
    proof { lemma_scale_not_smaller(total_borrows, borrow_factor); }
    let interest_accumulated: u128 = new_total_borrows - total_borrows;
    let reserves_add: u128 = match mul_div_floor(interest_accumulated, config.reserve_factor as u128, BPS_DENOMINATOR) {
        Ok(x) => x,
        Err(e) => return Some(Err(e)),
    };
    let new_total_reserves: u128 = match market.total_reserves.checked_add(reserves_add) {
        Some(x) => x,
        None => return None,
    };
    let scale: u128 = bps_scale();
    if (config.reserve_factor as u128) * scale > INDEX_MANTISSA {
        return None;
    }
    let supply_rate_per_year: u128 = match supply_rate(rate, utilization, config) {
        Ok(x) => x,
        Err(e) => return Some(Err(e)),
    };
    let supply_factor: u128 = growth(supply_rate_per_year, dt_seconds);
    let new_supply_index: u128 = match mul_div_floor(market.supply_index, supply_factor, INDEX_MANTISSA) {
        Ok(x) => x,
        Err(e) => return Some(Err(e)),
    };
    market.borrow_index = new_borrow_index;
    market.total_borrows = new_total_borrows;
    market.total_reserves = new_total_reserves;
    market.supply_index = new_supply_index;
    market.last_updated_ts = now_ts;
    Some(Ok(()))
}

/// Accrues interest up to `now_ts`; `None` where `accrue_spec` marks an overflow, with the
/// market left as it was.
pub(crate) fn accrue_core(market: &mut Market, config: &Config, now_ts: u64) -> (r: Option<Result<(), AurumError>>)
    ensures
        match accrue_spec(*old(market), *config, now_ts) {
            None => r is None && *final(market) == *old(market),
            Some(Ok(m2)) => r == Some(Ok::<(), AurumError>(())) && *final(market) == m2,
            Some(Err(e)) => r == Some(Err::<(), AurumError>(e)) && *final(market) == *old(market),
        },
{
    if now_ts <= market.last_updated_ts {
        return Some(Ok(()));
    }
    let dt_seconds: u128 = (now_ts - market.last_updated_ts) as u128;
    if market.total_cash.checked_add(market.total_borrows).is_none() {
        return None;
    }
    let utilization: u128 = match utilization_rate(market.total_cash, market.total_borrows, market.total_reserves) {
        Ok(u) => u,
        Err(e) => return Some(Err(e)),
    };
    let rate: u128 = match borrow_rate(utilization, config) {
        Ok(r) => r,
        Err(e) => return Some(Err(e)),
    };
    apply_rates(market, config, now_ts, dt_seconds, utilization, rate)
}

/// Accrues interest on `market` up to the time `now_ts`: nothing changes when `now_ts` is
/// not after the last update; otherwise indices, borrows and reserves grow by the jump-rate
/// model and the market is stamped with `now_ts`.  On an error the market is unchanged.
pub fn accrue_market_at(market: &mut Market, config: &Config, now_ts: u64) -> (r: Result<(), AurumError>)
    requires
        accrue_spec(*old(market), *config, now_ts) is Some,
    ensures
        match accrue_spec(*old(market), *config, now_ts).unwrap() {
            Ok(m2) => r is Ok && *final(market) == m2,
            Err(e) => r == Err::<(), AurumError>(e) && *final(market) == *old(market),
        },
{
    match accrue_core(market, config, now_ts) {
        Some(res) => res,
        None => Err(AurumError::MathOverflow),
    }
}

/// Reads the cluster clock and accrues interest up to it.  A clock that cannot be read
/// gives `ClockUnavailable`; a time at which the arithmetic would leave `u128` unchecked
/// gives `MathOverflow`.  On an error the market is unchanged.
pub fn accrue_market(market: &mut Market, config: &Config) -> (r: Result<(), AurumError>)
    ensures
        r is Ok ==> exists|now: u64| accrue_spec(*old(market), *config, now) == Some(Ok::<Market, AurumError>(*final(market))),
        r matches Err(e) ==> *final(market) == *old(market) && (e == AurumError::ClockUnavailable
            || exists|now: u64| #![auto] accrue_spec(*old(market), *config, now) is None && e == AurumError::MathOverflow
            || exists|now: u64| accrue_spec(*old(market), *config, now) == Some(Err::<Market, AurumError>(e))),
{
    let now_ts: u64 = match clock_unix_timestamp() {
        Ok(t) => #[verifier::truncate] (t as u64),
        Err(_) => return Err(AurumError::ClockUnavailable),
    };
    match accrue_core(market, config, now_ts) {
        Some(res) => res,
        None => Err(AurumError::MathOverflow),
    }
}

/// The accrue-interest instruction: refused with `ProtocolPaused` while the protocol is
/// paused, otherwise `accrue_market`.
pub fn handler_accrue_interest(market: &mut Market, config: &Config) -> (r: Result<(), AurumError>)
    ensures
        config.paused ==> r == Err::<(), AurumError>(AurumError::ProtocolPaused) && *final(market) == *old(market),
        r is Ok ==> !config.paused && exists|now: u64| accrue_spec(*old(market), *config, now) == Some(Ok::<Market, AurumError>(*final(market))),
        r matches Err(e) ==> *final(market) == *old(market) && (e == AurumError::ProtocolPaused
            || e == AurumError::ClockUnavailable
            || exists|now: u64| #![auto] accrue_spec(*old(market), *config, now) is None && e == AurumError::MathOverflow
            || exists|now: u64| accrue_spec(*old(market), *config, now) == Some(Err::<Market, AurumError>(e))),
{
    if config.paused {
        return Err(AurumError::ProtocolPaused);
    }
    accrue_market(market, config)
}

} // verus!
