//! Generators for finite noise maps.
//!
//! A `NoiseMap` takes a `NoiseProvider` and uses it to generate a map of
//! noise: an infinite plane of values, handed out in chunks of one size. It
//! has properties that set the seed used for noise generation, the size of
//! a chunk, and the step between neighbouring grid points.
//!
//! A noise map generates values between -1 and 1. Multiplying it by an
//! integer gives a `ScaledNoiseMap`, which multiplies each value by the
//! factor. Adding two maps gives a `NoiseMapCombination`, whose values are
//! the sum of both, normalised back between -1 and 1 by the total of the
//! weights that went into the sum.
//!
//! Every map is given an identity when it is made, from an `IdSource` that
//! the caller holds.

use vstd::prelude::*;
use crate::fixed::{lemma_magnitude_product, magnitude, quotient, widen_product};

pub use self::algebra::{
    balanced, lemma_balanced_sum_unit, lemma_chunk_shape, lemma_larger_of,
    lemma_plain_sum_chunk, lemma_same_options_same_chunks, lemma_scaled_balanced,
    lemma_scaled_chunk, lemma_sum_associative, lemma_sum_chunk, lemma_sum_commutative,
};
pub use self::combination::{CombinationView, NoiseMapCombination};
pub use self::grid::{
    bounded, chunk_of, grid_view, lemma_grid_cells, lemma_scaled_within, normalised_cells,
    scaled_cells, summed_cells,
};
pub use self::plain::{NoiseMap, NoiseMapView};
pub use self::property::{change_of, Options, Property, Seed, Size, Step};
pub use self::scaled::{ScaledNoiseMap, ScaledView};

mod algebra;
mod combination;
mod grid;
mod order;
mod plain;
mod property;
mod scaled;

verus! {

/// The largest magnitude that a value of a noise map may reach.
pub const MAX_PEAK: i64 = 0x4000_0000_0000_0000;

/// Hands out the identities of noise maps, one after the other.
pub struct IdSource {
    next: u64,
}

/// The identity that is handed out after `id`.
pub open spec fn following(id: u64) -> u64 {
    if id == u64::MAX {
        0
    } else {
        (id + 1) as u64
    }
}

impl IdSource {
    /// The identity that will be handed out next.
    pub closed spec fn upcoming(&self) -> u64 {
        self.next
    }

    /// A source that starts at 0.
    pub fn new() -> (ids: IdSource)
        ensures
            ids.upcoming() == 0,
    {
        IdSource { next: 0 }
    }
}

/// The identity that a source hands out `count` identities after `start`.
pub open spec fn handed_out(start: u64, count: nat) -> u64 {
    ((start + count) % 0x1_0000_0000_0000_0000) as u64
}

/// A source hands out its identities one after the other.
pub proof fn lemma_handed_out_next(start: u64, count: nat)
    ensures
        handed_out(start, 0) == start,
        handed_out(start, count + 1) == following(handed_out(start, count)),
{
}

/// A source hands out each identity once before it has handed out all of
/// them: of fewer than `2^64` identities in a row, no two are the same.
pub proof fn lemma_handed_out_distinct(start: u64, first: nat, second: nat)
    requires
        first < second,
        second - first < 0x1_0000_0000_0000_0000,
    ensures
        handed_out(start, first) != handed_out(start, second),
{
}

/// Takes the next identity from `ids`.
pub fn next_id(ids: &mut IdSource) -> (id: u64)
    ensures
        id == old(ids).upcoming(),
        final(ids).upcoming() == following(id),
{
    let id: u64 = ids.next;
    ids.next = if id == u64::MAX {
        0
    } else {
        id + 1
    };
    id
}

/// Whether a map whose values stay within `peak` can be scaled by
/// `scale`.
pub open spec fn scalable(peak: int, scale: int) -> bool {
    magnitude(scale) * peak <= MAX_PEAK
}

/// Whether two maps can be added: their contributions together stay within
/// `MAX_PEAK`, and their weights have a sum that is not 0.
pub open spec fn addable(
    first_peak: int,
    first_weight: int,
    second_peak: int,
    second_weight: int,
) -> bool {
    &&& first_peak + second_peak <= MAX_PEAK
    &&& first_weight + second_weight != 0
    &&& i64::MIN <= first_weight + second_weight <= i64::MAX
}

/// Base trait for noise maps.
///
/// `NoiseMap`, `ScaledNoiseMap`, and `NoiseMapCombination` all implement
/// this trait.
pub trait NoiseMapGeneratorBase {
    /// The value of the map at the grid point `(gx, gy)`.
    spec fn value_at(&self, gx: int, gy: int) -> int;

    /// A magnitude that no value of the map exceeds.
    spec fn peak(&self) -> int;

    /// The identity of the map.
    spec fn ident(&self) -> u64;

    /// The size of the chunks of the map.
    spec fn extent(&self) -> Size;

    /// Generates a specific chunk of the noise map.
    ///
    /// This can be used to generate a larger map in smaller parts.
    fn generate_chunk(&self, x: i64, y: i64) -> (grid: Vec<Vec<i64>>)
        requires
            self.extent().reaches(x as int, y as int),
        ensures
            grid_view(&grid) == chunk_of(
                |gx: int, gy: int| self.value_at(gx, gy),
                self.extent(),
                x as int,
                y as int,
            ),
            bounded(grid_view(&grid), self.peak()),
    ;

    /// Generates a specific chunk of the noise map, cut at `size` in place
    /// of the map's own size.
    fn generate_sized_chunk(&self, size: Size, x: i64, y: i64) -> (grid: Vec<Vec<i64>>)
        requires
            size.reaches(x as int, y as int),
        ensures
            grid_view(&grid) == chunk_of(
                |gx: int, gy: int| self.value_at(gx, gy),
                size,
                x as int,
                y as int,
            ),
            bounded(grid_view(&grid), self.peak()),
    ;

    /// Generates the chunk `(0, 0)` of the noise map.
    fn generate(&self) -> (grid: Vec<Vec<i64>>)
        ensures
            grid_view(&grid) == chunk_of(
                |gx: int, gy: int| self.value_at(gx, gy),
                self.extent(),
                0,
                0,
            ),
            bounded(grid_view(&grid), self.peak()),
    ;

    /// The identity of the map.
    fn id(&self) -> (id: u64)
        ensures
            id == self.ident(),
    ;
}

/// A noise map that can be configured, scaled and added to others.
pub trait NoiseMapGenerator: NoiseMapGeneratorBase + Copy {
    /// The weight with which the map enters a sum: 1 for a plain map, the
    /// factor of a scaled map, the total of the weights of a combination.
    spec fn weight(&self) -> int;

    /// What the map contributes to a sum at `(gx, gy)`: its value, but for
    /// a combination the sum of its parts before it is normalised.
    spec fn raw_at(&self, gx: int, gy: int) -> int;

    /// A magnitude that no contribution of the map to a sum exceeds.
    spec fn raw_peak(&self) -> int;

    /// The map with the options of each plain map in it changed by
    /// `change`.
    spec fn with(self, change: spec_fn(Options) -> Options) -> Self;

    /// Whether each plain map in the map has chunks of `size`.
    spec fn sized(&self, size: Size) -> bool;

    /// Set a property on the noise map.
    fn set<P: Property>(self, property: P) -> (updated: Self)
        ensures
            updated == self.with(change_of(property)),
            updated.ident() == self.ident(),
            updated.weight() == self.weight(),
            updated.peak() == self.peak(),
            updated.raw_peak() == self.raw_peak(),
    ;

    /// Sets the size of the chunks. The values of the map stay as they
    /// are.
    fn set_size(self, size: Size) -> (updated: Self)
        ensures
            updated == self.with(change_of(size)),
            updated.ident() == self.ident(),
            updated.weight() == self.weight(),
            updated.peak() == self.peak(),
            updated.raw_peak() == self.raw_peak(),
            forall|gx: int, gy: int| #[trigger] updated.value_at(gx, gy) == self.value_at(gx, gy),
            forall|gx: int, gy: int| #[trigger] updated.raw_at(gx, gy) == self.raw_at(gx, gy),
            updated.sized(size),
            updated.extent() == size,
    ;

    /// Sets the seed.
    fn set_seed(self, seed: Seed) -> (updated: Self)
        ensures
            updated == self.with(change_of(seed)),
            updated.ident() == self.ident(),
            updated.weight() == self.weight(),
            updated.peak() == self.peak(),
            updated.raw_peak() == self.raw_peak(),
            updated.extent() == self.extent(),
    ;

    /// Sets the step between neighbouring grid points.
    fn set_step(self, step: Step) -> (updated: Self)
        ensures
            updated == self.with(change_of(step)),
            updated.ident() == self.ident(),
            updated.weight() == self.weight(),
            updated.peak() == self.peak(),
            updated.raw_peak() == self.raw_peak(),
            updated.extent() == self.extent(),
    ;

    /// Returns the size of the noise map.
    fn get_size(&self) -> (size: Size)
        ensures
            size == self.extent(),
    ;

    /// Returns the magnitude that no value of the map exceeds.
    fn get_peak(&self) -> (peak: i64)
        ensures
            peak == self.peak(),
            0 <= peak <= MAX_PEAK,
    ;

    /// Returns the magnitude that no contribution of the map to a sum
    /// exceeds.
    fn get_raw_peak(&self) -> (peak: i64)
        ensures
            peak == self.raw_peak(),
            0 <= peak <= MAX_PEAK,
    ;

    /// Returns the weight with which the map enters a sum.
    fn get_weight(&self) -> (weight: i64)
        ensures
            weight == self.weight(),
    ;
}

/// Tells whether `nm` can be scaled by `scale`.
pub fn can_scale<G: NoiseMapGenerator>(nm: &G, scale: i64) -> (ok: bool)
    ensures
        ok == scalable(nm.peak(), scale as int),
{
    let peak: i64 = nm.get_peak();
    let wide: i128 = widen_product(scale, peak);
    proof {
        lemma_magnitude_product(scale as int, peak as int);
    }
    -(MAX_PEAK as i128) <= wide && wide <= MAX_PEAK as i128
}

/// Whether `sum` is what adding `first` and `second` gives: it carries the
/// weights and the contributions of both, and its values are its
/// contributions normalised by its weight.
pub open spec fn is_sum<A: NoiseMapGenerator, B: NoiseMapGenerator, S: NoiseMapGenerator>(
    sum: S,
    first: A,
    second: B,
) -> bool {
    &&& sum.weight() == first.weight() + second.weight()
    &&& sum.raw_peak() == first.raw_peak() + second.raw_peak()
    &&& sum.peak() == sum.raw_peak() / magnitude(sum.weight())
    &&& forall|gx: int, gy: int| #[trigger]
        sum.raw_at(gx, gy) == first.raw_at(gx, gy) + second.raw_at(gx, gy)
    &&& forall|gx: int, gy: int| #[trigger]
        sum.value_at(gx, gy) == quotient(sum.raw_at(gx, gy), sum.weight())
}

/// Addition of noise maps.
///
/// Every kind of noise map can be added to every other. The sum takes each
/// map with its weight, and is normalised by the total of the weights; a
/// combination that is added counts with the sum of its parts, not with
/// its normalised values. The sum has the larger of the two sizes.
pub trait Combine<Rhs: NoiseMapGenerator>: NoiseMapGenerator {
    /// The combination that adding gives.
    type Output: NoiseMapGenerator;

    /// Adds `rhs` to the map.
    fn add(self, rhs: Rhs, ids: &mut IdSource) -> (sum: Self::Output)
        requires
            addable(self.raw_peak(), self.weight(), rhs.raw_peak(), rhs.weight()),
        ensures
            is_sum(sum, self, rhs),
            sum.extent() == Size::larger_of(self.extent(), rhs.extent()) || sum.extent()
                == Size::larger_of(rhs.extent(), self.extent()),
            sum.sized(sum.extent()),
            sum.ident() == old(ids).upcoming(),
            final(ids).upcoming() == following(old(ids).upcoming()),
    ;
}

/// Tells whether `first` and `second` can be added.
pub fn can_add<A: NoiseMapGenerator, B: NoiseMapGenerator>(first: &A, second: &B) -> (ok: bool)
    ensures
        ok == addable(first.raw_peak(), first.weight(), second.raw_peak(), second.weight()),
{
    let peaks: i128 = first.get_raw_peak() as i128 + second.get_raw_peak() as i128;
    let weights: i128 = first.get_weight() as i128 + second.get_weight() as i128;
    peaks <= MAX_PEAK as i128 && weights != 0 && i64::MIN as i128 <= weights && weights
        <= i64::MAX as i128
}

} // verus!
