//! Noise maps scaled by an integer factor.

use vstd::prelude::*;
use crate::fixed::{lemma_magnitude_product, magnitude, widen_product};
use super::{
    change_of, chunk_of, following, grid_view, lemma_scaled_within, next_id, scalable, IdSource,
    NoiseMapGenerator, NoiseMapGeneratorBase, Options, Property, Seed, Size, Step,
};
use super::grid::scale_cells;

verus! {

/// What a `ScaledNoiseMap` is made of.
pub struct ScaledView<T> {
    pub nm: T,
    pub scale: i64,
    pub id: u64,
}

/// A scaled noise map.
///
/// Created when a noise map is multiplied by a factor. It has an identity
/// of its own.
#[derive(Debug)]
pub struct ScaledNoiseMap<T: NoiseMapGenerator> {
    nm: T,
    scale: i64,
    id: u64,
}

impl<T: NoiseMapGenerator> View for ScaledNoiseMap<T> {
    type V = ScaledView<T>;

    closed spec fn view(&self) -> ScaledView<T> {
        ScaledView { nm: self.nm, scale: self.scale, id: self.id }
    }
}

impl<T: NoiseMapGenerator> Clone for ScaledNoiseMap<T> {
    fn clone(&self) -> (copy: Self)
        ensures
            copy == *self,
    {
        *self
    }
}

impl<T: NoiseMapGenerator> Copy for ScaledNoiseMap<T> {

}

impl<T: NoiseMapGenerator> ScaledNoiseMap<T> {
    /// The scaled values fit: the factor times the peak of the map is
    /// within `MAX_PEAK`.
    #[verifier::type_invariant]
    pub closed spec fn fits(self) -> bool {
        scalable(self.nm.peak(), self.scale as int)
    }

    /// The scaled noise map that is made of `parts`.
    pub closed spec fn assemble(parts: ScaledView<T>) -> Self {
        ScaledNoiseMap { nm: parts.nm, scale: parts.scale, id: parts.id }
    }

    /// A scaled noise map that is put together has the parts it was made
    /// of.
    pub proof fn lemma_assemble(parts: ScaledView<T>)
        ensures
            Self::assemble(parts)@ == parts,
    {
    }

    /// Scales `nm` by `scale`.
    pub fn new(nm: T, scale: i64, ids: &mut IdSource) -> (scaled: ScaledNoiseMap<T>)
        requires
            scalable(nm.peak(), scale as int),
        ensures
            scaled@ == (ScaledView { nm: nm, scale: scale, id: old(ids).upcoming() }),
            final(ids).upcoming() == following(old(ids).upcoming()),
    {
        ScaledNoiseMap { nm: nm, scale: scale, id: next_id(ids) }
    }

    /// The factor.
    pub fn scale(&self) -> (scale: i64)
        ensures
            scale == self@.scale,
    {
        self.scale
    }
}

impl<T: NoiseMapGenerator> NoiseMapGeneratorBase for ScaledNoiseMap<T> {
    open spec fn value_at(&self, gx: int, gy: int) -> int {
        self@.nm.value_at(gx, gy) * self@.scale
    }

    open spec fn peak(&self) -> int {
        magnitude(self@.scale as int) * self@.nm.peak()
    }

    open spec fn ident(&self) -> u64 {
        self@.id
    }

    open spec fn extent(&self) -> Size {
        self@.nm.extent()
    }

    fn generate_chunk(&self, x: i64, y: i64) -> (grid: Vec<Vec<i64>>) {
        let size = self.nm.get_size();
        self.generate_sized_chunk(size, x, y)
    }

    fn generate(&self) -> (grid: Vec<Vec<i64>>) {
        self.generate_chunk(0, 0)
    }

    fn generate_sized_chunk(&self, size: Size, x: i64, y: i64) -> (grid: Vec<Vec<i64>>) {
        let inner: Vec<Vec<i64>> = self.nm.generate_sized_chunk(size, x, y);
        proof {
            use_type_invariant(self);
            let cells = grid_view(&inner);
            assert forall|r: int, c: int|
                0 <= r < inner@.len() && 0 <= c < inner@[r]@.len() implies i64::MIN <= (
            #[trigger] inner@[r]@[c]) * self.scale <= i64::MAX by {
                lemma_scaled_within(cells[r][c], self.scale as int, self.nm.peak());
            }
        }
        let grid: Vec<Vec<i64>> = scale_cells(&inner, self.scale);
        proof {
            let cells = grid_view(&inner);
            assert(grid_view(&grid) =~~= chunk_of(
                |gx: int, gy: int| self.value_at(gx, gy),
                size,
                x as int,
                y as int,
            ));
            assert forall|r: int, c: int|
                0 <= r < grid_view(&grid).len() && 0 <= c < grid_view(&grid)[r].len()
                implies -self.peak() <= #[trigger] grid_view(&grid)[r][c] <= self.peak() by {
                lemma_scaled_within(cells[r][c], self.scale as int, self.nm.peak());
            }
        }
        grid
    }

    fn id(&self) -> (id: u64) {
        self.id
    }
}

impl<T: NoiseMapGenerator> NoiseMapGenerator for ScaledNoiseMap<T> {
    open spec fn weight(&self) -> int {
        self@.scale as int
    }

    open spec fn raw_at(&self, gx: int, gy: int) -> int {
        self.value_at(gx, gy)
    }

    open spec fn raw_peak(&self) -> int {
        self.peak()
    }

    open spec fn with(self, change: spec_fn(Options) -> Options) -> Self {
        ScaledNoiseMap::assemble(ScaledView { nm: self@.nm.with(change), ..self@ })
    }

    open spec fn sized(&self, size: Size) -> bool {
        self@.nm.sized(size)
    }

    fn set<P: Property>(self, property: P) -> (updated: Self)
        ensures
            updated@ == (ScaledView { nm: self@.nm.with(change_of(property)), ..self@ }),
    {
        proof {
            use_type_invariant(self);
        }
        ScaledNoiseMap { nm: self.nm.set(property), ..self }
    }

    fn get_size(&self) -> (size: Size) {
        self.nm.get_size()
    }

    fn set_seed(self, seed: Seed) -> (updated: Self)
        ensures
            updated@ == (ScaledView { nm: self@.nm.with(change_of(seed)), ..self@ }),
    {
        proof {
            use_type_invariant(self);
        }
        ScaledNoiseMap { nm: self.nm.set_seed(seed), ..self }
    }

    fn set_step(self, step: Step) -> (updated: Self)
        ensures
            updated@ == (ScaledView { nm: self@.nm.with(change_of(step)), ..self@ }),
    {
        proof {
            use_type_invariant(self);
        }
        ScaledNoiseMap { nm: self.nm.set_step(step), ..self }
    }

    fn set_size(self, size: Size) -> (updated: Self)
        ensures
            updated@ == (ScaledView { nm: self@.nm.with(change_of(size)), ..self@ }),
    {
        proof {
            use_type_invariant(self);
        }
        ScaledNoiseMap { nm: self.nm.set_size(size), ..self }
    }

    fn get_peak(&self) -> (peak: i64) {
        proof {
            use_type_invariant(self);
        }
        let peak: i64 = self.nm.get_peak();
        let wide: i128 = widen_product(self.scale, peak);
        proof {
            lemma_magnitude_product(self.scale as int, peak as int);
        }
        if wide < 0 {
            (-wide) as i64
        } else {
            wide as i64
        }
    }

    fn get_raw_peak(&self) -> (peak: i64) {
        self.get_peak()
    }

    fn get_weight(&self) -> (weight: i64) {
        self.scale
    }
}

impl<T: NoiseMapGenerator> ScaledNoiseMap<T> {
    /// The map with each value multiplied by `scale`.
    pub fn mul(self, scale: i64, ids: &mut IdSource) -> (scaled: ScaledNoiseMap<ScaledNoiseMap<T>>)
        requires
            scalable(self.peak(), scale as int),
        ensures
            scaled@ == (ScaledView { nm: self, scale: scale, id: old(ids).upcoming() }),
            final(ids).upcoming() == following(old(ids).upcoming()),
    {
        ScaledNoiseMap::new(self, scale, ids)
    }
}

} // verus!
