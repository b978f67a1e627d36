//! A provider of coherent noise.
//!
//! Every corner of the integer lattice has a pseudo-random value. The noise
//! at a point blends the values at the four corners of the unit square that
//! the point lies in.

use vstd::prelude::*;
use crate::fixed::{divide, divide_wide, quotient, widen_product, ONE};
use super::NoiseProvider;

verus! {

/// The pseudo-random value of the lattice corner `(x, y)`: a fixed-point
/// number in `(-ONE, ONE]`.
pub open spec fn lattice_value(x: i32, y: i32, seed: i32) -> int {
    let n: i32 = x.wrapping_mul(157).wrapping_add(y.wrapping_mul(31337)).wrapping_add(
        seed.wrapping_mul(2633),
    ) & 0x7fffffff;
    let m: i32 = (n << 13) ^ n;
    let r: i32 = m.wrapping_mul(
        m.wrapping_mul(m).wrapping_mul(15731).wrapping_add(789221),
    ).wrapping_add(1376312579) & 0x7fffffff;
    ONE - r
}

/// The lattice column (or row) that the coordinate `x` starts from: the whole
/// part of `x` for a positive `x`, the whole part of `x - 1` otherwise, kept
/// within the lattice.
pub open spec fn cell_of(x: int) -> int {
    let whole: int = if x > 0 {
        quotient(x, ONE as int)
    } else {
        quotient(x - ONE, ONE as int)
    };
    if whole < i32::MIN {
        i32::MIN as int
    } else if whole > i32::MAX {
        i32::MAX as int
    } else {
        whole
    }
}

/// How far `x` lies beyond its cell, between 0 and `ONE`.
pub open spec fn offset_in(x: int) -> int {
    let offset: int = x - cell_of(x) * ONE;
    if offset < 0 {
        0
    } else if offset > ONE {
        ONE as int
    } else {
        offset
    }
}

/// The smooth step `a * a * (3 - 2 * a)`.
pub open spec fn s_curve(a: int) -> int {
    quotient(a * a * (3 * ONE - 2 * a), ONE * ONE)
}

/// The blend `(1 - a) * v1 + a * v2`.
pub open spec fn interpolate(v1: int, v2: int, a: int) -> int {
    quotient((ONE - a) * v1 + a * v2, ONE as int)
}

/// The coherent noise at `(x, y)`.
pub open spec fn coherent_at(x: int, y: int, seed: u64) -> int {
    let x0: i32 = cell_of(x) as i32;
    let x1: i32 = x0.wrapping_add(1);
    let y0: i32 = cell_of(y) as i32;
    let y1: i32 = y0.wrapping_add(1);
    let xd: int = s_curve(offset_in(x));
    let yd: int = s_curve(offset_in(y));
    let v1: int = interpolate(
        lattice_value(x0, y0, seed as i32),
        lattice_value(x1, y0, seed as i32),
        xd,
    );
    let v2: int = interpolate(
        lattice_value(x0, y1, seed as i32),
        lattice_value(x1, y1, seed as i32),
        xd,
    );
    interpolate(v1, v2, yd)
}

/// The smooth step of a weight is a weight.
pub proof fn lemma_s_curve_unit(a: int)
    requires
        0 <= a <= ONE,
    ensures
        0 <= s_curve(a) <= ONE,
{
    let n: int = ONE as int;
    let p: int = a * a * (3 * n - 2 * a);
    assert(0 <= p) by (nonlinear_arith)
        requires
            0 <= a <= n,
            p == a * a * (3 * n - 2 * a),
    ;
    assert(n * n * n - p == (n - a) * (n - a) * (n + 2 * a)) by (nonlinear_arith)
        requires
            p == a * a * (3 * n - 2 * a),
    ;
    assert(0 <= (n - a) * (n - a) * (n + 2 * a)) by (nonlinear_arith)
        requires
            0 <= a <= n,
    ;
    assert(p / (n * n) <= n) by (nonlinear_arith)
        requires
            0 <= p <= n * n * n,
            n > 0,
    ;
    assert(0 <= p / (n * n)) by (nonlinear_arith)
        requires
            0 <= p,
            n > 0,
    ;
}

/// A blend of two unit values is a unit value.
pub proof fn lemma_interpolate_unit(v1: int, v2: int, a: int)
    requires
        -ONE <= v1 <= ONE,
        -ONE <= v2 <= ONE,
        0 <= a <= ONE,
    ensures
        -ONE <= interpolate(v1, v2, a) <= ONE,
        -(ONE * ONE) <= (ONE - a) * v1 + a * v2 <= ONE * ONE,
{
    let n: int = ONE as int;
    let s: int = (n - a) * v1 + a * v2;
    assert(-(n * n) <= s <= n * n) by (nonlinear_arith)
        requires
            -n <= v1 <= n,
            -n <= v2 <= n,
            0 <= a <= n,
            s == (n - a) * v1 + a * v2,
    ;
    if s >= 0 {
        assert(s / n <= n) by (nonlinear_arith)
            requires
                0 <= s <= n * n,
                n > 0,
        ;
        assert(0 <= s / n) by (nonlinear_arith)
            requires
                0 <= s,
                n > 0,
        ;
    } else {
        assert((-s) / n <= n) by (nonlinear_arith)
            requires
                0 <= -s <= n * n,
                n > 0,
        ;
        assert(0 <= (-s) / n) by (nonlinear_arith)
            requires
                0 <= -s,
                n > 0,
        ;
    }
}

/// A lattice value is a unit value other than -1.
pub proof fn lemma_lattice_value_unit(x: i32, y: i32, seed: i32)
    ensures
        -ONE < lattice_value(x, y, seed) <= ONE,
{
    let n: i32 = x.wrapping_mul(157).wrapping_add(y.wrapping_mul(31337)).wrapping_add(
        seed.wrapping_mul(2633),
    ) & 0x7fffffff;
    let m: i32 = (n << 13) ^ n;
    let t: i32 = m.wrapping_mul(
        m.wrapping_mul(m).wrapping_mul(15731).wrapping_add(789221),
    ).wrapping_add(1376312579);
    assert(0 <= t & 0x7fffffff <= 0x7fffffff) by (bit_vector);
}

/// The coherent noise is a unit value everywhere.
pub proof fn lemma_coherent_unit(x: int, y: int, seed: u64)
    ensures
        -ONE <= coherent_at(x, y, seed) <= ONE,
{
    let x0: i32 = cell_of(x) as i32;
    let x1: i32 = x0.wrapping_add(1);
    let y0: i32 = cell_of(y) as i32;
    let y1: i32 = y0.wrapping_add(1);
    let s: i32 = seed as i32;
    let xd: int = s_curve(offset_in(x));
    let yd: int = s_curve(offset_in(y));
    lemma_s_curve_unit(offset_in(x));
    lemma_s_curve_unit(offset_in(y));
    lemma_lattice_value_unit(x0, y0, s);
    lemma_lattice_value_unit(x1, y0, s);
    lemma_lattice_value_unit(x0, y1, s);
    lemma_lattice_value_unit(x1, y1, s);
    let v1: int = interpolate(lattice_value(x0, y0, s), lattice_value(x1, y0, s), xd);
    let v2: int = interpolate(lattice_value(x0, y1, s), lattice_value(x1, y1, s), xd);
    lemma_interpolate_unit(lattice_value(x0, y0, s), lattice_value(x1, y0, s), xd);
    lemma_interpolate_unit(lattice_value(x0, y1, s), lattice_value(x1, y1, s), xd);
    lemma_interpolate_unit(v1, v2, yd);
}

/// Computes the value of the lattice corner `(x, y)`.
fn generate_random_value(x: i32, y: i32, seed: i32) -> (value: i64)
    ensures
        value == lattice_value(x, y, seed),
        -ONE < value <= ONE,
{
    let n: i32 = x.wrapping_mul(157).wrapping_add(y.wrapping_mul(31337)).wrapping_add(
        seed.wrapping_mul(2633),
    ) & 0x7fffffff;
    let m: i32 = (n << 13) ^ n;
    let r: i32 = m.wrapping_mul(
        m.wrapping_mul(m).wrapping_mul(15731).wrapping_add(789221),
    ).wrapping_add(1376312579) & 0x7fffffff;
    proof {
        lemma_lattice_value_unit(x, y, seed);
    }
    ONE - r as i64
}

/// Finds the lattice column (or row) that `x` starts from.
fn lattice_cell(x: i64) -> (cell: i32)
    ensures
        cell == cell_of(x as int),
{
    let whole: i128 = if x > 0 {
        divide_wide(x as i128, ONE as i128)
    } else {
        divide_wide(x as i128 - ONE as i128, ONE as i128)
    };
    if whole < i32::MIN as i128 {
        i32::MIN
    } else if whole > i32::MAX as i128 {
        i32::MAX
    } else {
        whole as i32
    }
}

/// Measures how far `x` lies beyond its cell.
fn lattice_offset(x: i64, cell: i32) -> (offset: i64)
    requires
        cell == cell_of(x as int),
    ensures
        offset == offset_in(x as int),
        0 <= offset <= ONE,
{
    assert(-0x8000_0000 * ONE <= cell * ONE <= 0x8000_0000 * ONE) by (nonlinear_arith)
        requires
            -0x8000_0000 <= cell <= 0x8000_0000,
    ;
    let wide: i128 = x as i128 - (cell as i128) * (ONE as i128);
    if wide < 0 {
        0
    } else if wide > ONE as i128 {
        ONE
    } else {
        wide as i64
    }
}

/// Computes the smooth step of a weight.
fn smooth(a: i64) -> (r: i64)
    requires
        0 <= a <= ONE,
    ensures
        r == s_curve(a as int),
        0 <= r <= ONE,
{
    let square: i64 = {
        assert(0 <= a * a <= ONE * ONE) by (nonlinear_arith)
            requires
                0 <= a <= ONE,
        ;
        a * a
    };
    let wide: i128 = widen_product(square, 3 * ONE - 2 * a);
    proof {
        lemma_s_curve_unit(a as int);
    }
    let r: i128 = divide_wide(wide, (ONE as i128) * (ONE as i128));
    r as i64
}

/// Blends two unit values by a weight.
fn blend(v1: i64, v2: i64, a: i64) -> (r: i64)
    requires
        -ONE <= v1 <= ONE,
        -ONE <= v2 <= ONE,
        0 <= a <= ONE,
    ensures
        r == interpolate(v1 as int, v2 as int, a as int),
        -ONE <= r <= ONE,
{
    proof {
        lemma_interpolate_unit(v1 as int, v2 as int, a as int);
        assert(-(ONE * ONE) <= (ONE - a) * v1 <= ONE * ONE) by (nonlinear_arith)
            requires
                -ONE <= v1 <= ONE,
                0 <= a <= ONE,
        ;
        assert(-(ONE * ONE) <= a * v2 <= ONE * ONE) by (nonlinear_arith)
            requires
                -ONE <= v2 <= ONE,
                0 <= a <= ONE,
        ;
    }
    divide((ONE - a) * v1 + a * v2, ONE)
}

/// The coherent noise source. It has nothing to configure.
#[derive(Default, Copy, Clone)]
pub struct CoherentNoise;

impl NoiseProvider for CoherentNoise {
    open spec fn noise_at(&self, x: int, y: int, seed: u64) -> int {
        coherent_at(x, y, seed)
    }

    fn generate(&self, x: i64, y: i64, seed: u64) -> (value: i64) {
        let x0: i32 = lattice_cell(x);
        let x1: i32 = x0.wrapping_add(1);

        let y0: i32 = lattice_cell(y);
        let y1: i32 = y0.wrapping_add(1);

        let xd: i64 = smooth(lattice_offset(x, x0));
        let yd: i64 = smooth(lattice_offset(y, y0));

        let low: i32 = #[verifier::truncate]
        (seed as i32);
        let x0y0: i64 = generate_random_value(x0, y0, low);
        let x1y0: i64 = generate_random_value(x1, y0, low);
        let x0y1: i64 = generate_random_value(x0, y1, low);
        let x1y1: i64 = generate_random_value(x1, y1, low);

        let v1: i64 = blend(x0y0, x1y0, xd);
        let v2: i64 = blend(x0y1, x1y1, xd);

        blend(v1, v2, yd)
    }
}

} // verus!
