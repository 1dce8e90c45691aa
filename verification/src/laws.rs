//! Properties of the market that span several functions or all inputs.
use vstd::prelude::*;
use crate::constants::{SECONDS_PER_YEAR, BPS_DENOMINATOR, INDEX_MANTISSA};
use crate::errors::AurumError;
use crate::interest::{utilization_denominator, lemma_borrow_rate_bound, lemma_growth_factor_range, lemma_supply_rate_bound, accrue_spec, accrue_with_rate, borrow_rate_spec, growth_factor, kink_mantissa, reserve_factor_mantissa, supply_rate_spec, utilization_spec};
use crate::math::{mul_div_floor_spec, ray_div_spec, ray_mul_spec};
use crate::admin::{pause_spec, unpause_spec};
use crate::health::{health_factor_spec, health_scan, lemma_pow10_18, pow10, position_value_spec, HealthScan, MarketAccount};
use crate::oracle::scaled_price;
use crate::state::{Config, Market, Position, UserPosition};

verus! {

/// Scaling by a factor of at least one never shrinks a value.
proof fn lemma_floor_scale_up(x: int, f: int, d: int)
    requires
        x >= 0,
        d > 0,
        f >= d,
    ensures
        x * f / d >= x,
{
    vstd::arithmetic::mul::lemma_mul_inequality(d, f, x);
    vstd::arithmetic::mul::lemma_mul_is_commutative(x, f);
    vstd::arithmetic::mul::lemma_mul_is_commutative(x, d);
    vstd::arithmetic::div_mod::lemma_div_is_ordered(x * d, x * f, d);
    vstd::arithmetic::div_mod::lemma_div_multiples_vanish(x, d);
}

/// Scaling by a factor of at most one never grows a value.
proof fn lemma_floor_scale_down(x: int, f: int, d: int)
    requires
        x >= 0,
        d > 0,
        0 <= f <= d,
    ensures
        x * f / d <= x,
{
    vstd::arithmetic::mul::lemma_mul_inequality(f, d, x);
    vstd::arithmetic::mul::lemma_mul_is_commutative(x, f);
    vstd::arithmetic::mul::lemma_mul_is_commutative(x, d);
    vstd::arithmetic::div_mod::lemma_div_is_ordered(x * f, x * d, d);
    vstd::arithmetic::div_mod::lemma_div_multiples_vanish(x, d);
}

/// `a * b / d` grows with `a`.
proof fn lemma_floor_mul_monotone(a1: int, a2: int, b: int, d: int)
    requires
        0 <= a1 <= a2,
        b >= 0,
        d > 0,
    ensures
        a1 * b / d <= a2 * b / d,
{
    vstd::arithmetic::mul::lemma_mul_inequality(a1, a2, b);
    vstd::arithmetic::div_mod::lemma_div_is_ordered(a1 * b, a2 * b, d);
}

/// One (1e18) is the unit of 1e18-scaled multiplication and division: multiplying or
/// dividing by it gives the value back, whenever the scaled product fits in `u128`.
pub proof fn law_mantissa_is_unit(x: u128)
    requires
        x * INDEX_MANTISSA <= u128::MAX,
    ensures
        ray_mul_spec(x, INDEX_MANTISSA) == Ok::<u128, AurumError>(x),
        ray_div_spec(x, INDEX_MANTISSA) == Ok::<u128, AurumError>(x),
{
    vstd::arithmetic::div_mod::lemma_div_multiples_vanish(x as int, INDEX_MANTISSA as int);
    vstd::arithmetic::mul::lemma_mul_is_commutative(x as int, INDEX_MANTISSA as int);
}

/// Accruing twice at the same time is accruing once: after a successful accrual the market
/// is up to date and a second accrual at the same time leaves it as it is.
pub proof fn law_accrue_idempotent(m: Market, c: Config, now: u64, m2: Market)
    requires
        accrue_spec(m, c, now) == Some(Ok::<Market, AurumError>(m2)),
    ensures
        accrue_spec(m2, c, now) == Some(Ok::<Market, AurumError>(m2)),
{
}

/// Accrual never moves value backwards: borrow and supply indices, total borrows and
/// reserves never decrease, cash is untouched, the market is stamped with the later of its
/// old stamp and `now`, and the reserves take at most the interest that accrued.
pub proof fn law_accrue_monotone(m: Market, c: Config, now: u64, m2: Market)
    requires
        accrue_spec(m, c, now) == Some(Ok::<Market, AurumError>(m2)),
    ensures
        m2.borrow_index >= m.borrow_index,
        m2.supply_index >= m.supply_index,
        m2.total_borrows >= m.total_borrows,
        m2.total_reserves >= m.total_reserves,
        m2.total_reserves - m.total_reserves <= m2.total_borrows - m.total_borrows,
        m2.total_cash == m.total_cash,
        m2.last_updated_ts == if now > m.last_updated_ts { now } else { m.last_updated_ts },
{
    if now > m.last_updated_ts {
        let dt = now - m.last_updated_ts;
        let u = utilization_spec(m.total_cash, m.total_borrows, m.total_reserves)->Ok_0;
        let rate = borrow_rate_spec(u, c)->Ok_0;
        assert(accrue_with_rate(m, c, now, dt, u, rate) == Some(Ok::<Market, AurumError>(m2)));
        lemma_borrow_rate_bound(u, c);
        lemma_growth_factor_range(rate, dt);
        let bf = growth_factor(rate, dt);
        lemma_floor_scale_up(m.borrow_index as int, bf as u128 as int, INDEX_MANTISSA as int);
        lemma_floor_scale_up(m.total_borrows as int, bf as u128 as int, INDEX_MANTISSA as int);
        let srate = supply_rate_spec(rate, u, c)->Ok_0;
        lemma_supply_rate_bound(rate, u, c);
        lemma_growth_factor_range(srate, dt);
        let sf = growth_factor(srate, dt);
        lemma_floor_scale_up(m.supply_index as int, sf as u128 as int, INDEX_MANTISSA as int);
        let interest = (m2.total_borrows - m.total_borrows) as u128;
        assert(reserve_factor_mantissa(c) <= INDEX_MANTISSA);
        lemma_floor_scale_down(interest as int, c.reserve_factor as int, BPS_DENOMINATOR as int);
    }
}

/// When the reserves do not exceed the cash, utilization is at most one (1e18).
pub proof fn law_utilization_at_most_one(cash: u128, borrows: u128, reserves: u128)
    requires
        cash + borrows <= u128::MAX,
        reserves <= cash,
        utilization_spec(cash, borrows, reserves) is Ok,
    ensures
        utilization_spec(cash, borrows, reserves)->Ok_0 <= INDEX_MANTISSA,
{
    if borrows > 0 {
        let d: int = cash + borrows - reserves;
        assert(d >= borrows);
        lemma_floor_scale_down(INDEX_MANTISSA as int, borrows as int, d);
        vstd::arithmetic::mul::lemma_mul_is_commutative(INDEX_MANTISSA as int, borrows as int);
    }
}

/// A 1e18-scaled product `s * q / 1e18` grows with `q`.
proof fn lemma_ray_mul_monotone(s: u128, q1: u128, q2: u128)
    requires
        q1 <= q2,
        s * q2 <= u128::MAX,
    ensures
        s * q1 <= u128::MAX,
        s * q1 / (INDEX_MANTISSA as int) <= s * q2 / (INDEX_MANTISSA as int),
{
    vstd::arithmetic::mul::lemma_mul_inequality(q1 as int, q2 as int, s as int);
    vstd::arithmetic::mul::lemma_mul_is_commutative(q1 as int, s as int);
    vstd::arithmetic::mul::lemma_mul_is_commutative(q2 as int, s as int);
    vstd::arithmetic::div_mod::lemma_div_is_ordered(s * q1, s * q2, INDEX_MANTISSA as int);
}

/// The jump-rate model never charges less at a higher utilization: whatever the kink, a
/// utilization at least as high gives a borrow rate at least as high.
pub proof fn law_borrow_rate_monotone(u1: u128, u2: u128, c: Config)
    requires
        u1 <= u2,
        borrow_rate_spec(u1, c) is Ok,
        borrow_rate_spec(u2, c) is Ok,
    ensures
        borrow_rate_spec(u1, c)->Ok_0 <= borrow_rate_spec(u2, c)->Ok_0,
{
    let k = kink_mantissa(c);
    let s1 = c.slope1 as u128;
    let j = c.jump_slope as u128;
    if u2 <= k {
        lemma_ray_mul_monotone(s1, u1, u2);
    } else if u1 <= k {
        lemma_ray_mul_monotone(s1, u1, k as u128);
    } else {
        lemma_ray_mul_monotone(j, (u1 - k) as u128, (u2 - k) as u128);
    }
}

/// Cross-multiplied fractions compare like their floors: `x1 / d1 <= x2 / d2` rounded down
/// when `x1 * d2 <= x2 * d1`.
proof fn lemma_floor_cross(x1: int, d1: int, x2: int, d2: int)
    requires
        0 <= x1,
        0 <= x2,
        0 < d1,
        0 < d2,
        x1 * d2 <= x2 * d1,
    ensures
        x1 / d1 <= x2 / d2,
{
    let q1 = x1 / d1;
    let q2 = x2 / d2;
    vstd::arithmetic::div_mod::lemma_fundamental_div_mod(x1, d1);
    vstd::arithmetic::div_mod::lemma_fundamental_div_mod(x2, d2);
    vstd::arithmetic::div_mod::lemma_mod_bound(x1, d1);
    vstd::arithmetic::div_mod::lemma_mod_bound(x2, d2);
    assert(q1 <= q2) by (nonlinear_arith)
        requires
            x1 == d1 * q1 + x1 % d1,
            x2 == d2 * q2 + x2 % d2,
            0 <= x1 % d1 < d1,
            0 <= x2 % d2 < d2,
            0 < d1,
            0 < d2,
            x1 * d2 <= x2 * d1,
    {
    }
}

/// With the cash covering the reserves, more borrows never give a lower utilization.
proof fn lemma_utilization_grows_with_borrows(cash: u128, b1: u128, b2: u128, reserves: u128)
    requires
        b1 <= b2,
        reserves <= cash,
        cash + b2 <= u128::MAX,
        utilization_spec(cash, b1, reserves) is Ok,
        utilization_spec(cash, b2, reserves) is Ok,
    ensures
        utilization_spec(cash, b1, reserves)->Ok_0 <= utilization_spec(cash, b2, reserves)->Ok_0,
{
    if b1 > 0 {
        let k: int = cash - reserves;
        let d1: int = k + b1;
        let d2: int = k + b2;
        let x1: int = b1 * INDEX_MANTISSA;
        let x2: int = b2 * INDEX_MANTISSA;
        assert(x1 * d2 <= x2 * d1) by (nonlinear_arith)
            requires
                x1 == b1 * INDEX_MANTISSA,
                x2 == b2 * INDEX_MANTISSA,
                d1 == k + b1,
                d2 == k + b2,
                k >= 0,
                0 < b1 <= b2,
        {
        }
        assert(x1 >= 0 && x2 >= 0) by (nonlinear_arith)
            requires
                x1 == b1 * INDEX_MANTISSA,
                x2 == b2 * INDEX_MANTISSA,
                b1 >= 0,
                b2 >= 0,
        {
        }
        lemma_floor_cross(x1, d1, x2, d2);
        assert(utilization_denominator(cash, b1, reserves) == d1);
        assert(utilization_denominator(cash, b2, reserves) == d2);
        assert(utilization_spec(cash, b1, reserves) == ray_div_spec(b1, d1 as u128));
        assert(utilization_spec(cash, b2, reserves) == ray_div_spec(b2, d2 as u128));
        vstd::arithmetic::div_mod::lemma_div_is_ordered_by_denominator(x1, 1, d1);
        vstd::arithmetic::div_mod::lemma_div_is_ordered_by_denominator(x2, 1, d2);
        vstd::arithmetic::div_mod::lemma_div_basics(x1);
        vstd::arithmetic::div_mod::lemma_div_basics(x2);
        vstd::arithmetic::div_mod::lemma_div_pos_is_pos(x1, d1);
        vstd::arithmetic::div_mod::lemma_div_pos_is_pos(x2, d2);
        assert(ray_div_spec(b1, d1 as u128)->Ok_0 == x1 / d1);
        assert(ray_div_spec(b2, d2 as u128)->Ok_0 == x2 / d2);
    }
}

/// More borrows never give a lower borrow index: of two markets that differ only in their
/// total borrows, with the cash covering the reserves, the one with more borrows accrues,
/// at the same time, a borrow index at least as high.
pub proof fn law_borrow_index_grows_with_borrows(m1: Market, m2: Market, c: Config, now: u64, n1: Market, n2: Market)
    requires
        m2 == (Market { total_borrows: m2.total_borrows, ..m1 }),
        m1.total_borrows <= m2.total_borrows,
        m1.total_reserves <= m1.total_cash,
        accrue_spec(m1, c, now) == Some(Ok::<Market, AurumError>(n1)),
        accrue_spec(m2, c, now) == Some(Ok::<Market, AurumError>(n2)),
    ensures
        n1.borrow_index <= n2.borrow_index,
{
    if now > m1.last_updated_ts {
        let dt = now - m1.last_updated_ts;
        let u1 = utilization_spec(m1.total_cash, m1.total_borrows, m1.total_reserves)->Ok_0;
        let u2 = utilization_spec(m2.total_cash, m2.total_borrows, m2.total_reserves)->Ok_0;
        lemma_utilization_grows_with_borrows(m1.total_cash, m1.total_borrows, m2.total_borrows, m1.total_reserves);
        let r1 = borrow_rate_spec(u1, c)->Ok_0;
        let r2 = borrow_rate_spec(u2, c)->Ok_0;
        law_borrow_rate_monotone(u1, u2, c);
        lemma_borrow_rate_bound(u1, c);
        lemma_borrow_rate_bound(u2, c);
        assert(accrue_with_rate(m1, c, now, dt, u1, r1) == Some(Ok::<Market, AurumError>(n1)));
        assert(accrue_with_rate(m2, c, now, dt, u2, r2) == Some(Ok::<Market, AurumError>(n2)));
        lemma_growth_factor_range(r1, dt);
        lemma_growth_factor_range(r2, dt);
        vstd::arithmetic::div_mod::lemma_div_is_ordered(r1 as int, r2 as int, SECONDS_PER_YEAR as int);
        vstd::arithmetic::mul::lemma_mul_inequality((r1 / SECONDS_PER_YEAR) as int, (r2 / SECONDS_PER_YEAR) as int, dt);
        let f1 = growth_factor(r1, dt);
        let f2 = growth_factor(r2, dt);
        assert(f1 <= f2);
        lemma_floor_mul_monotone(f1, f2, m1.borrow_index as int, INDEX_MANTISSA as int);
        vstd::arithmetic::mul::lemma_mul_is_commutative(f1, m1.borrow_index as int);
        vstd::arithmetic::mul::lemma_mul_is_commutative(f2, m1.borrow_index as int);
    }
}

/// Lenders never earn more than borrowers pay: at utilization at most one and a reserve
/// factor at most 100%, the supply rate is at most the borrow rate.
pub proof fn law_supply_rate_below_borrow_rate(rate: u128, u: u128, c: Config)
    requires
        u <= INDEX_MANTISSA,
        c.reserve_factor <= BPS_DENOMINATOR,
        supply_rate_spec(rate, u, c) is Ok,
    ensures
        supply_rate_spec(rate, u, c)->Ok_0 <= rate,
{
    assert(INDEX_MANTISSA / BPS_DENOMINATOR == 100_000_000_000_000u128);
    assert(reserve_factor_mantissa(c) <= INDEX_MANTISSA);
    let x = ray_mul_spec(rate, u)->Ok_0;
    lemma_floor_scale_down(rate as int, u as int, INDEX_MANTISSA as int);
    let f = INDEX_MANTISSA - reserve_factor_mantissa(c);
    lemma_floor_scale_down(x as int, f, INDEX_MANTISSA as int);
}

/// Without time passing, accrual changes nothing.
pub proof fn law_accrue_needs_time(m: Market, c: Config, now: u64)
    requires
        now <= m.last_updated_ts,
    ensures
        accrue_spec(m, c, now) == Some(Ok::<Market, AurumError>(m)),
{
}

/// Pausing and unpausing undo each other: a pause succeeds exactly on an unpaused
/// configuration, a second pause is refused, and the following unpause restores the
/// configuration up to its time stamp.
pub proof fn law_pause_unpause(c: Config, t1: u64, t2: u64)
    requires
        !c.paused,
    ensures
        pause_spec(c, t1) matches Ok(c1)
            && pause_spec(c1, t2) == Err::<Config, AurumError>(AurumError::ConfigAlreadyPaused)
            && unpause_spec(c1, t2) == Ok::<Config, AurumError>(Config { updated_at: t2, ..c }),
        unpause_spec(c, t2) == Err::<Config, AurumError>(AurumError::ConfigAlreadyUnpaused),
{
}

/// Over slots whose active entries owe nothing, the scanned borrow value is zero.
proof fn lemma_scan_no_borrows(ps: Seq<Position>, markets: Seq<MarketAccount>, n: int)
    requires
        0 <= n <= ps.len(),
        forall|i: int| 0 <= i < ps.len() && ps[i].active() ==> ps[i].borrow_principal == 0,
    ensures
        health_scan(ps, markets, n) matches HealthScan::Totals(_, b) ==> b == 0,
    decreases n,
{
    if n > 0 {
        lemma_scan_no_borrows(ps, markets, n - 1);
        let p = ps[n - 1];
        if p.active() {
            if let HealthScan::Totals(_, _) = health_scan(ps, markets, n - 1) {
                if let Some(j) = crate::health::first_market_from(markets, p.market@, 0) {
                    if let Some((_, bv)) = position_value_spec(p, markets[j].market, markets[j].price) {
                        assert(bv == 0) by {
                            let scale = pow10(markets[j].market.decimals as nat);
                            crate::health::lemma_pow10_monotone(0, markets[j].market.decimals as nat);
                            vstd::arithmetic::mul::lemma_mul_basics(markets[j].price as int);
                            vstd::arithmetic::div_mod::lemma_div_multiples_vanish(0, scale as int);
                        }
                    }
                }
            }
        }
    }
}

/// A position that owes nothing in any market has the maximal health factor, whenever its
/// health factor can be evaluated (all its markets are supplied and nothing overflows).
pub proof fn law_no_debt_max_health(up: UserPosition, markets: Seq<MarketAccount>)
    requires
        forall|i: int| 0 <= i < 10 && up.positions@[i].active() ==> up.positions@[i].borrow_principal == 0,
        health_factor_spec(up, markets) matches Some(Ok(_)),
    ensures
        health_factor_spec(up, markets) == Some(Ok::<u64, AurumError>(u64::MAX)),
{
    lemma_scan_no_borrows(up.positions@, markets, 10);
}

/// The normalized price depends on the value, not on how Pyth writes it: ten times the
/// mantissa with an exponent one lower gives the same 18-decimal price (for exponents up
/// to 20, beyond which `10^(18 + exponent)` leaves `u128`).
pub proof fn law_scaling_ignores_representation(price: i64, exponent: i32)
    requires
        price >= 0,
        10 * price <= i64::MAX,
        i32::MIN < exponent <= 20,
    ensures
        scaled_price((10 * price) as i64, (exponent - 1) as i32) == scaled_price(price, exponent),
{
    let p = price as int;
    if exponent >= -17 {
        let k = (18 + exponent) as nat;
        assert(pow10(k) == 10 * pow10((k - 1) as nat));
        vstd::arithmetic::mul::lemma_mul_is_associative(10, p, pow10((k - 1) as nat) as int);
        vstd::arithmetic::mul::lemma_mul_is_associative(p, 10, pow10((k - 1) as nat) as int);
        vstd::arithmetic::mul::lemma_mul_is_commutative(10, p);
        crate::health::lemma_pow10_monotone(k, 38);
        assert(pow10(38) <= u128::MAX) by {
            lemma_pow10_18();
            reveal_with_fuel(pow10, 21);
        }
        crate::health::lemma_pow10_monotone((k - 1) as nat, k);
        assert((10 * p) * pow10((k - 1) as nat) == p * pow10(k));
        assert(scaled_price(price, exponent) == (if p * pow10(k) > u128::MAX { None } else { Some((p * pow10(k)) as u128) }));
        assert(scaled_price((10 * price) as i64, (exponent - 1) as i32) == (if (10 * p) * pow10((k - 1) as nat) > u128::MAX { None } else { Some(((10 * p) * pow10((k - 1) as nat)) as u128) }));
    } else if exponent == -18 {
        assert(pow10(1) == 10) by {
            reveal_with_fuel(pow10, 2);
        }
        assert(pow10(0) == 1);
        assert(p * pow10(0) == p) by (nonlinear_arith)
            requires
                pow10(0) == 1,
        ;
        vstd::arithmetic::div_mod::lemma_div_multiples_vanish(p, 10);
        vstd::arithmetic::mul::lemma_mul_is_commutative(10, p);
        assert(scaled_price(price, exponent) == Some(price as u128));
        assert(scaled_price((10 * price) as i64, (exponent - 1) as i32) == Some(price as u128));
    } else {
        let k = (-18 - exponent) as nat;
        assert(pow10(k + 1) == 10 * pow10(k));
        crate::health::lemma_pow10_monotone(0, k);
        vstd::arithmetic::div_mod::lemma_div_denominator(10 * p, 10, pow10(k) as int);
        vstd::arithmetic::div_mod::lemma_div_multiples_vanish(p, 10);
        vstd::arithmetic::mul::lemma_mul_is_commutative(10, p);
        assert((10 * p) / (pow10(k + 1) as int) == p / (pow10(k) as int));
        assert(((-18 - (exponent - 1)) as nat) == k + 1);
    }
}

/// A position is valued at its balances compounded to the market's indices: the supply
/// principal times `supply_index / position.supply_index` and the borrow principal times
/// `borrow_index / position.borrow_index` (a zero position index leaves a principal as it
/// is), each times the price over `10^decimals`; the supply counts as collateral, weighted
/// by the LTV, only when flagged.
pub proof fn law_position_value_compounds(p: Position, m: Market, price: u128)
    requires
        position_value_spec(p, m, price) is Some,
    ensures
        ({
            let v = position_value_spec(p, m, price).unwrap();
            let supply: int = if p.supply_index > 0 { p.supply_principal * m.supply_index / (p.supply_index as int) } else { p.supply_principal as int };
            let debt: int = if p.borrow_index > 0 { p.borrow_principal * m.borrow_index / (p.borrow_index as int) } else { p.borrow_principal as int };
            let scale: int = pow10(m.decimals as nat) as int;
            &&& v.1 == debt * price / scale
            &&& v.0 == (if p.is_collateral != 0 { (supply * price / scale) * m.ltv_bps / 10_000 } else { 0 })
        }),
{
    let supply: int = if p.supply_index > 0 { p.supply_principal * m.supply_index / (p.supply_index as int) } else { p.supply_principal as int };
    let debt: int = if p.borrow_index > 0 { p.borrow_principal * m.borrow_index / (p.borrow_index as int) } else { p.borrow_principal as int };
    let scale: int = pow10(m.decimals as nat) as int;
    crate::health::lemma_pow10_monotone(0, m.decimals as nat);
    assert(supply >= 0 && debt >= 0) by {
        if p.supply_index > 0 {
            vstd::arithmetic::div_mod::lemma_div_pos_is_pos(p.supply_principal * m.supply_index, p.supply_index as int);
        }
        if p.borrow_index > 0 {
            vstd::arithmetic::div_mod::lemma_div_pos_is_pos(p.borrow_principal * m.borrow_index, p.borrow_index as int);
        }
    }
    assert(supply * price >= 0 && debt * price >= 0) by (nonlinear_arith)
        requires
            supply >= 0,
            debt >= 0,
            price >= 0,
    {
    }
    vstd::arithmetic::div_mod::lemma_div_is_ordered_by_denominator(supply * price, 1, scale);
    vstd::arithmetic::div_mod::lemma_div_is_ordered_by_denominator(debt * price, 1, scale);
    vstd::arithmetic::div_mod::lemma_div_basics(supply * price);
    vstd::arithmetic::div_mod::lemma_div_basics(debt * price);
    vstd::arithmetic::div_mod::lemma_div_pos_is_pos(supply * price, scale);
    vstd::arithmetic::div_mod::lemma_div_pos_is_pos(debt * price, scale);
    let sv = supply * price / scale;
    assert(sv * m.ltv_bps >= 0) by (nonlinear_arith)
        requires
            sv >= 0,
    {
    }
    vstd::arithmetic::div_mod::lemma_div_is_ordered_by_denominator(sv * m.ltv_bps, 1, 10_000);
    vstd::arithmetic::div_mod::lemma_div_basics(sv * m.ltv_bps);
    vstd::arithmetic::div_mod::lemma_div_pos_is_pos(sv * m.ltv_bps, 10_000);
}

} // verus!
