//! Fixed-point conventions shared by every module.
//!
//! Real-valued quantities are held as integers that count millionths. A time or a
//! duration counts microseconds, so `1_500_000` is a second and a half. A ratio
//! (progress, opacity, scale, a layout position) counts millionths of one, so
//! `250_000` is a quarter. A translation counts millionths of a pixel and a
//! rotation millionths of a degree.
//!
//! Durations and positions on a timeline are unsigned. An instant handed in by a
//! caller is signed, so that a request before the start of the timeline can be
//! told apart and clamped.
use vstd::prelude::*;

verus! {

/// The integer that stands for the ratio 1.0.
pub const ONE: u64 = 1_000_000;

/// Microseconds in one second.
pub const SECOND: u64 = 1_000_000;

/// The longest timeline: its total duration fits a signed 64-bit count of
/// microseconds, so that every instant on it can be handed in as an `i64`.
pub const MAX_TIME: u64 = 0x7fff_ffff_ffff_ffff;

/// The most items a list element may hold. With this bound the per-item
/// arithmetic of a staggered technique fits 128 bits.
pub const MAX_ITEMS: usize = 0xffff_ffff;

/// `a / b` rounded up, for `b > 0`.
pub open spec fn ceil_div(a: int, b: int) -> int {
    if a % b == 0 {
        a / b
    } else {
        a / b + 1
    }
}

/// `x * p / ONE` rounded toward zero: the share `p` of the signed quantity `x`.
pub open spec fn share(x: int, p: int) -> int {
    if x >= 0 {
        x * p / (ONE as int)
    } else {
        -((-x) * p / (ONE as int))
    }
}

/// The point at ratio `p` on the way from `from` to `to`.
pub open spec fn lerp(from: int, to: int, p: int) -> int {
    from + share(to - from, p)
}

/// A ratio clamped to at most one.
pub open spec fn unit_clamp(p: int) -> int {
    if p > ONE as int {
        ONE as int
    } else {
        p
    }
}

/// `ceil_div(a, b)` is the least whole number of `b`s that cover `a`.
pub proof fn lemma_ceil_div(a: int, b: int)
    requires
        0 <= a,
        0 < b,
    ensures
        ceil_div(a, b) * b >= a,
        (ceil_div(a, b) - 1) * b < a || a == 0,
        0 <= ceil_div(a, b),
{
    assert(a == b * (a / b) + a % b && 0 <= a % b < b && 0 <= a / b) by (nonlinear_arith)
        requires
            0 <= a,
            0 < b,
    ;
    let q = ceil_div(a, b);
    assert(q * b >= a && ((q - 1) * b < a || a == 0)) by (nonlinear_arith)
        requires
            a == b * (a / b) + a % b,
            0 <= a % b < b,
            0 <= a / b,
            q == (if a % b == 0 {
                a / b
            } else {
                a / b + 1
            }),
            0 < b,
    ;
}

/// Division is monotone in the dividend.
pub proof fn lemma_div_monotone(a: int, b: int, d: int)
    requires
        0 <= a <= b,
        d > 0,
    ensures
        0 <= a / d <= b / d,
{
    assert(0 <= a / d <= b / d) by (nonlinear_arith)
        requires
            0 <= a <= b,
            d > 0,
    ;
}

/// A product of bounded non-negative factors is bounded by the product of the
/// bounds.
pub proof fn lemma_mul_bound(a: int, b: int, a_max: int, b_max: int)
    requires
        0 <= a <= a_max,
        0 <= b <= b_max,
    ensures
        0 <= a * b <= a_max * b_max,
{
    assert(0 <= a * b <= a_max * b_max) by (nonlinear_arith)
        requires
            0 <= a <= a_max,
            0 <= b <= b_max,
    ;
}

/// The share of a quantity never exceeds the quantity in size, and keeps its
/// sign.
pub proof fn lemma_share_bounds(x: int, p: int)
    requires
        0 <= p <= ONE,
    ensures
        x >= 0 ==> 0 <= share(x, p) <= x,
        x <= 0 ==> x <= share(x, p) <= 0,
        share(x, 0) == 0,
        share(x, ONE as int) == x,
{
    let m = if x >= 0 { x } else { -x };
    assert(0 <= m * p <= m * (ONE as int)) by (nonlinear_arith)
        requires
            0 <= m,
            0 <= p <= ONE,
    ;
    lemma_div_monotone(m * p, m * (ONE as int), ONE as int);
    assert(m * (ONE as int) / (ONE as int) == m) by (nonlinear_arith);
    assert(m * 0 == 0);
}

/// Clamps a ratio to at most one.
pub fn clamp_unit(p: u64) -> (r: u64)
    ensures
        r == unit_clamp(p as int),
        r <= ONE,
{
    if p > ONE {
        ONE
    } else {
        p
    }
}

/// The share `p` of `x`, rounded toward zero.
pub fn scale_by(x: i64, p: u64) -> (r: i64)
    requires
        p <= ONE,
    ensures
        r == share(x as int, p as int),
{
    proof {
        lemma_share_bounds(x as int, p as int);
    }
    if x >= 0 {
        let wide: u128 = (x as u128) * (p as u128);
        (wide / (ONE as u128)) as i64
    } else {
        let m: u128 = (-(x as i128)) as u128;
        let wide: u128 = m * (p as u128);
        let q: u128 = wide / (ONE as u128);
        (-(q as i128)) as i64
    }
}

/// The point at ratio `p` on the way from `from` to `to`, where the result is
/// known to fit.
pub fn interpolate(from: i64, to: i64, p: u64) -> (r: i64)
    requires
        p <= ONE,
    ensures
        r == lerp(from as int, to as int, p as int),
        from <= to ==> from <= r <= to,
        to <= from ==> to <= r <= from,
{
    let diff: i128 = (to as i128) - (from as i128);
    proof {
        lemma_share_bounds(diff as int, p as int);
    }
    let part: i128 = if diff >= 0 {
        let wide: u128 = (diff as u128) * (p as u128);
        (wide / (ONE as u128)) as i128
    } else {
        let m: u128 = (-diff) as u128;
        let wide: u128 = m * (p as u128);
        -((wide / (ONE as u128)) as i128)
    };
    ((from as i128) + part) as i64
}

} // verus!
