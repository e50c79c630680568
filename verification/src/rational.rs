//! Rational numbers and the rebasing of timestamps between time bases.

use vstd::prelude::*;
use vstd::arithmetic::div_mod::*;

verus! {

/// A rational number `num / den`.
///
/// As a time base it is the length of one tick in seconds; as a frame rate it
/// is a number of frames per second. The value is kept as given, unreduced.
#[derive(Clone, Copy, Debug, PartialEq, Eq, Structural)]
pub struct Rational {
    pub num: i32,
    pub den: i32,
}

impl Rational {
    /// Numerator and denominator are both above zero.
    pub open spec fn is_positive(self) -> bool {
        self.num > 0 && self.den > 0
    }

    /// The reciprocal `den / num`.
    pub open spec fn inverse(self) -> Rational {
        Rational { num: self.den, den: self.num }
    }

    pub fn new(numerator: i32, denominator: i32) -> (r: Rational)
        ensures
            r.num == numerator,
            r.den == denominator,
    {
        Rational { num: numerator, den: denominator }
    }

    pub fn numerator(&self) -> (n: i32)
        ensures
            n == self.num,
    {
        self.num
    }

    pub fn denominator(&self) -> (d: i32)
        ensures
            d == self.den,
    {
        self.den
    }

    /// Whether the value can serve as a time base or as a constant frame rate.
    pub fn is_valid(&self) -> (b: bool)
        ensures
            b == self.is_positive(),
    {
        self.num > 0 && self.den > 0
    }

    pub fn invert(&self) -> (r: Rational)
        ensures
            r == self.inverse(),
    {
        Rational { num: self.den, den: self.num }
    }
}

/// `n / d` rounded to the nearest integer, a tie going away from zero.
pub open spec fn round_half_away(n: int, d: int) -> int
    recommends
        d > 0,
{
    if n >= 0 {
        (2 * n + d) / (2 * d)
    } else {
        -((d - 2 * n) / (2 * d))
    }
}

/// The timestamp `ts`, counted in ticks of `source`, expressed in ticks of
/// `destination`: `ts * source / destination`, rounded to the nearest tick.
///
/// There is no result when a time base is not positive or when the rounded
/// value lies outside `-i64::MAX ..= i64::MAX`. (`i64::MIN` is left out: the
/// multimedia framework reads it as "no timestamp".)
pub open spec fn rescaled(ts: int, source: Rational, destination: Rational) -> Option<i64> {
    if source.is_positive() && destination.is_positive() {
        let r = round_half_away(
            ts * (source.num * destination.den),
            source.den * destination.num,
        );
        if -i64::MAX <= r <= i64::MAX {
            Some(r as i64)
        } else {
            None
        }
    } else {
        None
    }
}

/// Moves a timestamp from one time base to another.
pub fn rescale(ts: i64, source: Rational, destination: Rational) -> (r: Option<i64>)
    ensures
        r == rescaled(ts as int, source, destination),
{
    if !(source.num > 0 && source.den > 0 && destination.num > 0 && destination.den > 0) {
        return None;
    }
    let sn: u128 = source.num as u128;
    let sd: u128 = source.den as u128;
    let dn: u128 = destination.num as u128;
    let dd: u128 = destination.den as u128;
    assert(sn * dd <= 0x8000_0000 * 0x8000_0000) by (nonlinear_arith)
        requires
            sn <= 0x8000_0000,
            dd <= 0x8000_0000,
    ;
    assert(sd * dn <= 0x8000_0000 * 0x8000_0000) by (nonlinear_arith)
        requires
            sd <= 0x8000_0000,
            dn <= 0x8000_0000,
    ;
    assert(sd * dn > 0 && sn * dd > 0) by (nonlinear_arith)
        requires
            sd > 0,
            dn > 0,
            sn > 0,
            dd > 0,
    ;
    let b: u128 = sn * dd;
    let c: u128 = sd * dn;
    let mag: u128 = if ts >= 0 {
        ts as u128
    } else {
        (-(ts as i128)) as u128
    };
    assert(mag * b <= 0x8000_0000_0000_0000 * 0x4000_0000_0000_0000) by (nonlinear_arith)
        requires
            mag <= 0x8000_0000_0000_0000,
            b <= 0x4000_0000_0000_0000,
    ;
    let q: u128 = (2 * (mag * b) + c) / (2 * c);
    proof {
        let n = ts as int * (source.num as int * destination.den as int);
        let d = source.den as int * destination.num as int;
        assert(b as int == source.num as int * destination.den as int);
        assert(c as int == d);
        if ts >= 0 {
            assert(n == mag as int * b as int);
            assert(n >= 0) by (nonlinear_arith)
                requires
                    n == mag as int * b as int,
                    mag >= 0,
                    b >= 0,
            ;
            assert(q as int == round_half_away(n, d));
        } else {
            assert(n == -(mag as int * b as int)) by (nonlinear_arith)
                requires
                    n == ts as int * b as int,
                    mag as int == -(ts as int),
            ;
            assert(mag as int * b as int > 0) by (nonlinear_arith)
                requires
                    mag > 0,
                    b > 0,
            ;
            assert(-(q as int) == round_half_away(n, d));
        }
    }
    if q > i64::MAX as u128 {
        None
    } else if ts >= 0 {
        Some(q as i64)
    } else {
        Some(-(q as i64))
    }
}

/// Floor division brackets its dividend: `d * (x / d) <= x < d * (x / d) + d`.
proof fn lemma_floor_bracket(x: int, d: int)
    requires
        d > 0,
    ensures
        d * (x / d) <= x < d * (x / d) + d,
{
    lemma_fundamental_div_mod(x, d);
    lemma_mod_bound(x, d);
}

/// The rounded quotient lies within half a unit of the exact one, and a value
/// exactly half way between two integers goes to the one farther from zero.
pub proof fn lemma_round_half_away_nearest(n: int, d: int)
    requires
        d > 0,
    ensures
        2 * n - d <= 2 * d * round_half_away(n, d) <= 2 * n + d,
        n >= 0 ==> 2 * n - d < 2 * d * round_half_away(n, d),
        n < 0 ==> 2 * d * round_half_away(n, d) < 2 * n + d,
{
    if n >= 0 {
        lemma_floor_bracket(2 * n + d, 2 * d);
    } else {
        let s = (d - 2 * n) / (2 * d);
        lemma_floor_bracket(d - 2 * n, 2 * d);
        assert(2 * d * (-s) == -(2 * d * s)) by (nonlinear_arith);
    }
}

/// No other integer lies as near: whatever is within half a unit of `n / d`,
/// on the far side from zero in case of a tie, is the rounded quotient.
pub proof fn lemma_round_half_away_unique(n: int, d: int, r: int)
    requires
        d > 0,
        2 * n - d <= 2 * d * r <= 2 * n + d,
        n >= 0 ==> 2 * n - d < 2 * d * r,
        n < 0 ==> 2 * d * r < 2 * n + d,
    ensures
        r == round_half_away(n, d),
{
    let q = round_half_away(n, d);
    lemma_round_half_away_nearest(n, d);
    assert(r == q) by (nonlinear_arith)
        requires
            d > 0,
            2 * n - d <= 2 * d * r <= 2 * n + d,
            n >= 0 ==> 2 * n - d < 2 * d * r,
            n < 0 ==> 2 * d * r < 2 * n + d,
            2 * n - d <= 2 * d * q <= 2 * n + d,
            n >= 0 ==> 2 * n - d < 2 * d * q,
            n < 0 ==> 2 * d * q < 2 * n + d,
    ;
}

/// An exact multiple of the divisor is not moved by rounding.
pub proof fn lemma_round_half_away_exact(k: int, d: int)
    requires
        d > 0,
    ensures
        round_half_away(k * d, d) == k,
{
    let r = round_half_away(k * d, d);
    lemma_round_half_away_nearest(k * d, d);
    assert(r == k) by (nonlinear_arith)
        requires
            d > 0,
            2 * (k * d) - d <= 2 * d * r <= 2 * (k * d) + d,
    ;
}

/// Rounding keeps the order of the dividends.
pub proof fn lemma_round_half_away_monotone(n1: int, n2: int, d: int)
    requires
        d > 0,
        n1 <= n2,
    ensures
        round_half_away(n1, d) <= round_half_away(n2, d),
{
    if n1 >= 0 {
        lemma_div_is_ordered(2 * n1 + d, 2 * n2 + d, 2 * d);
    } else if n2 < 0 {
        lemma_div_is_ordered(d - 2 * n2, d - 2 * n1, 2 * d);
    } else {
        lemma_div_pos_is_pos(d - 2 * n1, 2 * d);
        lemma_div_pos_is_pos(2 * n2 + d, 2 * d);
    }
}

/// Rebasing keeps timestamps in order: a later timestamp never comes out
/// before an earlier one.
pub proof fn lemma_rescale_monotone(ts1: i64, ts2: i64, source: Rational, destination: Rational)
    requires
        ts1 <= ts2,
        rescaled(ts1 as int, source, destination) is Some,
        rescaled(ts2 as int, source, destination) is Some,
    ensures
        rescaled(ts1 as int, source, destination)->0 <= rescaled(ts2 as int, source, destination)->0,
{
    let b = source.num * destination.den;
    let c = source.den * destination.num;
    assert(b > 0 && c > 0) by (nonlinear_arith)
        requires
            b == source.num * destination.den,
            c == source.den * destination.num,
            source.num > 0,
            source.den > 0,
            destination.num > 0,
            destination.den > 0,
    ;
    assert(ts1 * b <= ts2 * b) by (nonlinear_arith)
        requires
            ts1 <= ts2,
            b > 0,
    ;
    lemma_round_half_away_monotone(ts1 * b, ts2 * b, c);
}

/// A timestamp rebased from `t` to `e` and back to `t` returns to where it
/// started, up to the rounding of the two steps: the difference, in ticks of
/// `t`, is at most half a tick of `t` plus half a tick of `e`. Where a tick of
/// `e` is no longer than a tick of `t`, the round trip is exact.
pub proof fn lemma_rescale_round_trip(ts: i64, t: Rational, e: Rational)
    requires
        t.is_positive(),
        e.is_positive(),
        rescaled(ts as int, t, e) is Some,
        rescaled(rescaled(ts as int, t, e)->0 as int, e, t) is Some,
    ensures
        ({
            let back = rescaled(rescaled(ts as int, t, e)->0 as int, e, t)->0;
            let tick_t = t.num * e.den;
            let tick_e = e.num * t.den;
            &&& 2 * tick_t * (back - ts) <= tick_t + tick_e
            &&& 2 * tick_t * (ts - back) <= tick_t + tick_e
            &&& tick_e <= tick_t ==> back == ts
        }),
{
    let p = t.num * e.den;
    let q = t.den * e.num;
    let m = rescaled(ts as int, t, e)->0 as int;
    let back = rescaled(m, e, t)->0 as int;
    assert(p > 0 && q > 0 && q == e.num * t.den && p == e.den * t.num) by (nonlinear_arith)
        requires
            p == t.num * e.den,
            q == t.den * e.num,
            t.num > 0,
            t.den > 0,
            e.num > 0,
            e.den > 0,
    ;
    assert(m == round_half_away(ts * p, q));
    assert(back == round_half_away(m * q, p));
    lemma_round_half_away_nearest(ts * p, q);
    lemma_round_half_away_nearest(m * q, p);
    assert(2 * p * (back - ts) <= p + q && 2 * p * (ts - back) <= p + q) by (nonlinear_arith)
        requires
            2 * (ts * p) - q <= 2 * q * m <= 2 * (ts * p) + q,
            2 * (m * q) - p <= 2 * p * back <= 2 * (m * q) + p,
    ;
    if q < p {
        assert(back == ts) by (nonlinear_arith)
            requires
                p > 0,
                q < p,
                2 * p * (back - ts) <= p + q,
                2 * p * (ts - back) <= p + q,
        ;
    } else if q == p {
        lemma_round_half_away_exact(ts as int, p);
        lemma_round_half_away_exact(m, p);
    }
}

} // verus!
