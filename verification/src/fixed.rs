//! Fixed-point numbers with 30 fractional bits, held in an `i64`.
//!
//! The number `v` stands for `v / 2^30`. Thirty bits are what the lattice
//! values of the coherent noise source need to be exact.

use vstd::prelude::*;

verus! {

/// The fixed-point number 1.
pub const ONE: i64 = 0x4000_0000;

/// `v` brought into the range of an `i64`.
pub open spec fn saturated(v: int) -> int {
    if v < i64::MIN {
        i64::MIN as int
    } else if v > i64::MAX {
        i64::MAX as int
    } else {
        v
    }
}

/// The quotient of `a` by `d`, rounded towards zero.
pub open spec fn quotient(a: int, d: int) -> int
    recommends
        d != 0,
{
    if a >= 0 {
        if d > 0 {
            a / d
        } else {
            -(a / (-d))
        }
    } else {
        if d > 0 {
            -((-a) / d)
        } else {
            (-a) / (-d)
        }
    }
}

/// The absolute value of `v`.
pub open spec fn magnitude(v: int) -> int {
    if v < 0 {
        -v
    } else {
        v
    }
}

/// `v` brought into the unit range `[-ONE, ONE]`.
pub open spec fn unit_clamped(v: int) -> int {
    if v < -ONE {
        -ONE as int
    } else if v > ONE {
        ONE as int
    } else {
        v
    }
}

/// An integer count of fixed-point steps, saturating.
pub open spec fn stepped(n: int, step: int) -> int {
    saturated(n * step)
}

/// The product of two fixed-point numbers, rounded towards zero, saturating.
pub open spec fn product(a: int, b: int) -> int {
    saturated(quotient(a * b, ONE as int))
}

/// The sum of two fixed-point numbers, saturating.
pub open spec fn total(a: int, b: int) -> int {
    saturated(a + b)
}

/// The fixed-point number nearest to `num / den` towards zero, saturating.
pub open spec fn ratio(num: int, den: int) -> int
    recommends
        den != 0,
{
    saturated(quotient(num * ONE, den))
}

/// A quotient is no larger in magnitude than its dividend, and has no other
/// sign.
pub proof fn lemma_quotient_bounds(a: int, d: int)
    requires
        d != 0,
    ensures
        magnitude(quotient(a, d)) <= magnitude(a),
        a >= 0 && d > 0 ==> quotient(a, d) >= 0,
        a <= 0 && d > 0 ==> quotient(a, d) <= 0,
        quotient(-a, d) == -quotient(a, d),
        quotient(a, -d) == -quotient(a, d),
{
    let m: int = magnitude(a);
    let e: int = magnitude(d);
    assert(0 <= m / e <= m) by (nonlinear_arith)
        requires
            m >= 0,
            e > 0,
    ;
}

/// The magnitude of a product with a factor that is not negative.
pub proof fn lemma_magnitude_product(a: int, b: int)
    requires
        b >= 0,
    ensures
        magnitude(a) * b == magnitude(a * b),
{
    assert(magnitude(a) * b == magnitude(a * b)) by (nonlinear_arith)
        requires
            b >= 0,
            magnitude(a) == if a < 0 {
                -a
            } else {
                a
            },
            magnitude(a * b) == if a * b < 0 {
                -(a * b)
            } else {
                a * b
            },
    ;
}

/// Unless the divisor is 1 or -1, a quotient has at most half the magnitude
/// of its dividend.
pub proof fn lemma_quotient_halves(a: int, d: int)
    requires
        magnitude(d) >= 2,
    ensures
        2 * magnitude(quotient(a, d)) <= magnitude(a),
{
    let m: int = magnitude(a);
    let e: int = magnitude(d);
    assert(2 * (m / e) <= m) by (nonlinear_arith)
        requires
            m >= 0,
            e >= 2,
    ;
}

/// Dividing a bounded value by `d` keeps it within the bound divided by the
/// magnitude of `d`.
pub proof fn lemma_quotient_within(a: int, d: int, bound: int)
    requires
        d != 0,
        magnitude(a) <= bound,
    ensures
        magnitude(quotient(a, d)) <= bound / magnitude(d),
{
    let m: int = magnitude(a);
    let e: int = magnitude(d);
    assert(m / e <= bound / e) by (nonlinear_arith)
        requires
            0 <= m <= bound,
            e > 0,
    ;
}

/// Saturates a wide value into an `i64`.
pub fn saturate(v: i128) -> (r: i64)
    ensures
        r == saturated(v as int),
{
    if v < i64::MIN as i128 {
        i64::MIN
    } else if v > i64::MAX as i128 {
        i64::MAX
    } else {
        v as i64
    }
}

/// Divides with rounding towards zero.
pub fn divide(a: i64, d: i64) -> (q: i64)
    requires
        d != 0,
        !(a == i64::MIN && d == -1),
    ensures
        q == quotient(a as int, d as int),
{
    proof {
        lemma_quotient_bounds(a as int, d as int);
        if d != 1 && d != -1 {
            lemma_quotient_halves(a as int, d as int);
        }
    }
    a.checked_div(d).unwrap()
}

/// Divides a wide value with rounding towards zero.
pub fn divide_wide(a: i128, d: i128) -> (q: i128)
    requires
        d != 0,
        !(a == i128::MIN && d == -1),
    ensures
        q == quotient(a as int, d as int),
{
    proof {
        lemma_quotient_bounds(a as int, d as int);
        if d != 1 && d != -1 {
            lemma_quotient_halves(a as int, d as int);
        }
    }
    a.checked_div(d).unwrap()
}

/// The exact product of two `i64` values.
pub fn widen_product(a: i64, b: i64) -> (p: i128)
    ensures
        p == a * b,
        -0x4000_0000_0000_0000_0000_0000_0000_0000 <= p,
        p <= 0x4000_0000_0000_0000_0000_0000_0000_0000,
{
    assert(-0x4000_0000_0000_0000_0000_0000_0000_0000 <= a * b
        <= 0x4000_0000_0000_0000_0000_0000_0000_0000) by (nonlinear_arith)
        requires
            -0x8000_0000_0000_0000 <= a <= 0x7fff_ffff_ffff_ffff,
            -0x8000_0000_0000_0000 <= b <= 0x7fff_ffff_ffff_ffff,
    ;
    (a as i128) * (b as i128)
}

/// `n` steps of `step`, saturating.
pub fn step_by(n: i64, step: i64) -> (r: i64)
    ensures
        r == stepped(n as int, step as int),
{
    saturate(widen_product(n, step))
}

/// Multiplies two fixed-point numbers.
pub fn multiply(a: i64, b: i64) -> (r: i64)
    ensures
        r == product(a as int, b as int),
{
    let wide: i128 = widen_product(a, b);
    saturate(divide_wide(wide, ONE as i128))
}

/// Adds two fixed-point numbers.
pub fn accumulate(a: i64, b: i64) -> (r: i64)
    ensures
        r == total(a as int, b as int),
{
    saturate(a as i128 + b as i128)
}

/// Brings a fixed-point number into the unit range.
pub fn clamp_unit(v: i64) -> (r: i64)
    ensures
        r == unit_clamped(v as int),
        -ONE <= r <= ONE,
{
    if v < -ONE {
        -ONE
    } else if v > ONE {
        ONE
    } else {
        v
    }
}

/// The fixed-point number for the fraction `num / den`.
pub fn from_ratio(num: i64, den: i64) -> (r: i64)
    requires
        den != 0,
    ensures
        r == ratio(num as int, den as int),
{
    let wide: i128 = widen_product(num, ONE);
    saturate(divide_wide(wide, den as i128))
}

} // verus!
