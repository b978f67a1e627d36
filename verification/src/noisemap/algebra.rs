//! What holds of the values of noise maps that are configured, scaled and
//! added.

use vstd::prelude::*;
use crate::fixed::ONE;
use crate::noise::NoiseProvider;
use super::{
    chunk_of, is_sum, normalised_cells, scaled_cells, summed_cells, NoiseMap, NoiseMapGenerator,
    NoiseMapGeneratorBase, ScaledNoiseMap, Size,
};

verus! {

/// A chunk has the rows and the columns of the size it is cut at.
pub proof fn lemma_chunk_shape(plane: spec_fn(int, int) -> int, size: Size, x: int, y: int)
    ensures
        chunk_of(plane, size, x, y).len() == size.rows(),
        forall|r: int|
            0 <= r < size.rows() ==> (#[trigger] chunk_of(plane, size, x, y)[r]).len()
                == size.columns(),
        forall|r: int, c: int|
            0 <= r < size.rows() && 0 <= c < size.columns() ==> #[trigger] chunk_of(
                plane,
                size,
                x,
                y,
            )[r][c] == plane(x * size.w + c, y * size.h + r),
{
}

/// The larger of two sizes is one of the two, and has no less area than
/// either.
pub proof fn lemma_larger_of(first: Size, second: Size)
    ensures
        Size::larger_of(first, second) == first || Size::larger_of(first, second) == second,
        Size::larger_of(first, second).area() >= first.area(),
        Size::larger_of(first, second).area() >= second.area(),
{
}

/// The chunks of a noise map are decided by its source, its seed, its step
/// and its size, and by nothing else: two maps that agree in these have the
/// same chunks, whatever their identities.
pub proof fn lemma_same_options_same_chunks<T: NoiseProvider>(
    first: NoiseMap<T>,
    second: NoiseMap<T>,
    x: int,
    y: int,
)
    requires
        first@.noise == second@.noise,
        first@.options == second@.options,
    ensures
        first.extent() == second.extent(),
        chunk_of(|gx: int, gy: int| first.value_at(gx, gy), first.extent(), x, y) == chunk_of(
            |gx: int, gy: int| second.value_at(gx, gy),
            second.extent(),
            x,
            y,
        ),
{
    assert(chunk_of(|gx: int, gy: int| first.value_at(gx, gy), first.extent(), x, y) =~~= chunk_of(
        |gx: int, gy: int| second.value_at(gx, gy),
        second.extent(),
        x,
        y,
    ));
}

/// Scaling is linear: each cell of a chunk of a scaled map is the cell of
/// the map that was scaled, multiplied by the factor.
pub proof fn lemma_scaled_chunk<T: NoiseMapGenerator>(
    scaled: ScaledNoiseMap<T>,
    size: Size,
    x: int,
    y: int,
)
    ensures
        chunk_of(|gx: int, gy: int| scaled.value_at(gx, gy), size, x, y) == scaled_cells(
            chunk_of(|gx: int, gy: int| scaled@.nm.value_at(gx, gy), size, x, y),
            scaled@.scale as int,
        ),
{
    assert(chunk_of(|gx: int, gy: int| scaled.value_at(gx, gy), size, x, y) =~~= scaled_cells(
        chunk_of(|gx: int, gy: int| scaled@.nm.value_at(gx, gy), size, x, y),
        scaled@.scale as int,
    ));
}

/// Each cell of a chunk of a sum is the sum of what the two maps
/// contribute to the cell, divided by the weight of the sum.
pub proof fn lemma_sum_chunk<A: NoiseMapGenerator, B: NoiseMapGenerator, S: NoiseMapGenerator>(
    first: A,
    second: B,
    sum: S,
    size: Size,
    x: int,
    y: int,
)
    requires
        is_sum(sum, first, second),
    ensures
        chunk_of(|gx: int, gy: int| sum.value_at(gx, gy), size, x, y) == normalised_cells(
            summed_cells(
                chunk_of(|gx: int, gy: int| first.raw_at(gx, gy), size, x, y),
                chunk_of(|gx: int, gy: int| second.raw_at(gx, gy), size, x, y),
            ),
            sum.weight(),
        ),
{
    let left = chunk_of(|gx: int, gy: int| first.raw_at(gx, gy), size, x, y);
    let right = chunk_of(|gx: int, gy: int| second.raw_at(gx, gy), size, x, y);
    let sums = summed_cells(left, right);
    assert(chunk_of(|gx: int, gy: int| sum.value_at(gx, gy), size, x, y) =~~= normalised_cells(
        sums,
        sum.weight(),
    ));
}

/// Each cell of a chunk of the sum of two plain noise maps is half the sum
/// of their cells, rounded towards zero.
pub proof fn lemma_plain_sum_chunk<T1: NoiseProvider, T2: NoiseProvider, S: NoiseMapGenerator>(
    first: NoiseMap<T1>,
    second: NoiseMap<T2>,
    sum: S,
    size: Size,
    x: int,
    y: int,
)
    requires
        is_sum(sum, first, second),
    ensures
        sum.weight() == 2,
        chunk_of(|gx: int, gy: int| sum.value_at(gx, gy), size, x, y) == normalised_cells(
            summed_cells(
                chunk_of(|gx: int, gy: int| first.value_at(gx, gy), size, x, y),
                chunk_of(|gx: int, gy: int| second.value_at(gx, gy), size, x, y),
            ),
            2,
        ),
{
    lemma_sum_chunk(first, second, sum, size, x, y);
    assert(chunk_of(|gx: int, gy: int| first.raw_at(gx, gy), size, x, y) =~~= chunk_of(
        |gx: int, gy: int| first.value_at(gx, gy),
        size,
        x,
        y,
    ));
    assert(chunk_of(|gx: int, gy: int| second.raw_at(gx, gy), size, x, y) =~~= chunk_of(
        |gx: int, gy: int| second.value_at(gx, gy),
        size,
        x,
        y,
    ));
}

/// Adding is commutative: the two sums of two maps have the same weight
/// and the same values.
pub proof fn lemma_sum_commutative<
    A: NoiseMapGenerator,
    B: NoiseMapGenerator,
    S1: NoiseMapGenerator,
    S2: NoiseMapGenerator,
>(first: A, second: B, one: S1, other: S2)
    requires
        is_sum(one, first, second),
        is_sum(other, second, first),
    ensures
        one.weight() == other.weight(),
        forall|gx: int, gy: int| #[trigger] one.value_at(gx, gy) == other.value_at(gx, gy),
{
}

/// Adding is associative: however three maps are added up, the sum has the
/// total of their weights as its weight, and the same values. A sum that is
/// added is not normalised twice.
pub proof fn lemma_sum_associative<
    A: NoiseMapGenerator,
    B: NoiseMapGenerator,
    C: NoiseMapGenerator,
    AB: NoiseMapGenerator,
    BC: NoiseMapGenerator,
    L: NoiseMapGenerator,
    R: NoiseMapGenerator,
>(first: A, second: B, third: C, front: AB, back: BC, left: L, right: R)
    requires
        is_sum(front, first, second),
        is_sum(left, front, third),
        is_sum(back, second, third),
        is_sum(right, first, back),
    ensures
        left.weight() == first.weight() + second.weight() + third.weight(),
        right.weight() == left.weight(),
        forall|gx: int, gy: int| #[trigger] left.value_at(gx, gy) == right.value_at(gx, gy),
{
}

/// Whether a map contributes to a sum no more than its weight: its weight
/// is not negative, and its contributions stay within its weight.
pub open spec fn balanced<G: NoiseMapGenerator>(nm: G) -> bool {
    &&& nm.weight() >= 0
    &&& nm.raw_peak() == nm.weight() * ONE
}

/// A map with values in the unit range that is scaled by a factor that is
/// not negative contributes no more than its weight.
pub proof fn lemma_scaled_balanced<T: NoiseMapGenerator>(scaled: ScaledNoiseMap<T>)
    requires
        scaled@.scale >= 0,
        scaled@.nm.peak() == ONE,
    ensures
        balanced(scaled),
{
}

/// The sum of two maps that contribute no more than their weights
/// contributes no more than its weight, and its values lie in the unit
/// range.
pub proof fn lemma_balanced_sum_unit<
    A: NoiseMapGenerator,
    B: NoiseMapGenerator,
    S: NoiseMapGenerator,
>(first: A, second: B, sum: S)
    requires
        is_sum(sum, first, second),
        balanced(first),
        balanced(second),
        sum.weight() != 0,
    ensures
        balanced(sum),
        sum.peak() == ONE,
{
    let weight = sum.weight();
    assert(sum.raw_peak() == weight * ONE) by (nonlinear_arith)
        requires
            sum.raw_peak() == first.weight() * ONE + second.weight() * ONE,
            weight == first.weight() + second.weight(),
    ;
    assert((weight * ONE) / weight == ONE) by (nonlinear_arith)
        requires
            weight > 0,
    ;
}

} // verus!
