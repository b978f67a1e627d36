//! The standard noise map.

use vstd::prelude::*;
use crate::fixed::{step_by, stepped, ONE};
use crate::noise::NoiseProvider;
use super::{
    chunk_of, following, grid_view, next_id, scalable, IdSource, NoiseMapGenerator,
    NoiseMapGeneratorBase, Options, Property, ScaledNoiseMap, ScaledView, Seed, Size, Step,
};

verus! {

/// What a `NoiseMap` is made of.
pub struct NoiseMapView<T> {
    pub options: Options,
    pub noise: T,
    pub id: u64,
}

/// The standard noise map.
///
/// This is the base noise map, and is created by wrapping a noise source.
/// It has properties that allow the setting of the generation seed, the
/// size of the generated chunks, and the coordinate scale.
#[derive(Debug)]
pub struct NoiseMap<T> {
    seed: Seed,
    step: Step,
    size: Size,
    noise: T,
    id: u64,
}

impl<T> View for NoiseMap<T> {
    type V = NoiseMapView<T>;

    closed spec fn view(&self) -> NoiseMapView<T> {
        NoiseMapView {
            options: Options { seed: self.seed, step: self.step, size: self.size },
            noise: self.noise,
            id: self.id,
        }
    }
}

impl<T: Copy> Clone for NoiseMap<T> {
    fn clone(&self) -> (copy: Self)
        ensures
            copy == *self,
    {
        *self
    }
}

impl<T: Copy> Copy for NoiseMap<T> {

}

impl<T: Default> Default for NoiseMap<T> {
    /// A noise map with the default properties, the default of its source
    /// and the identity 0.
    fn default() -> (nm: NoiseMap<T>)
        ensures
            nm@.options == (Options {
                seed: Seed { value: 0 },
                step: Step { x: 0, y: 0 },
                size: Size { w: 0, h: 0 },
            }),
            call_ensures(T::default, (), nm@.noise),
            nm@.id == 0,
    {
        NoiseMap {
            seed: Seed::default(),
            step: Step::default(),
            size: Size::default(),
            noise: T::default(),
            id: 0,
        }
    }
}

impl<T> NoiseMap<T> {
    /// The noise map that is made of `parts`.
    pub closed spec fn assemble(parts: NoiseMapView<T>) -> Self {
        NoiseMap {
            seed: parts.options.seed,
            step: parts.options.step,
            size: parts.options.size,
            noise: parts.noise,
            id: parts.id,
        }
    }

    /// A noise map that is put together has the parts it was made of.
    pub proof fn lemma_assemble(parts: NoiseMapView<T>)
        ensures
            Self::assemble(parts)@ == parts,
    {
    }

    /// A noise map is what its parts put together give.
    pub proof fn lemma_assemble_view(self)
        ensures
            Self::assemble(self@) == self,
    {
    }

    /// The map with another seed.
    pub(super) fn put_seed(self, seed: Seed) -> (updated: Self)
        ensures
            updated@ == (NoiseMapView {
                options: Options { seed: seed, ..self@.options },
                ..self@
            }),
    {
        NoiseMap { seed: seed, ..self }
    }

    /// The map with another step.
    pub(super) fn put_step(self, step: Step) -> (updated: Self)
        ensures
            updated@ == (NoiseMapView {
                options: Options { step: step, ..self@.options },
                ..self@
            }),
    {
        NoiseMap { step: step, ..self }
    }

    /// The map with chunks of another size.
    pub(super) fn put_size(self, size: Size) -> (updated: Self)
        ensures
            updated@ == (NoiseMapView {
                options: Options { size: size, ..self@.options },
                ..self@
            }),
    {
        NoiseMap { size: size, ..self }
    }
}

impl<T: NoiseProvider> NoiseMap<T> {
    /// Construct a new noise map with the default properties: seed 0, and
    /// steps and sizes of 0.
    pub fn new(noise: T, ids: &mut IdSource) -> (nm: NoiseMap<T>)
        ensures
            nm@ == (NoiseMapView {
                options: Options {
                    seed: Seed { value: 0 },
                    step: Step { x: 0, y: 0 },
                    size: Size { w: 0, h: 0 },
                },
                noise: noise,
                id: old(ids).upcoming(),
            }),
            final(ids).upcoming() == following(old(ids).upcoming()),
    {
        NoiseMap { noise: noise, id: next_id(ids), ..Default::default() }
    }
}

impl<T: NoiseProvider> NoiseMapGeneratorBase for NoiseMap<T> {
    open spec fn value_at(&self, gx: int, gy: int) -> int {
        self@.noise.noise_at(
            stepped(gx, self@.options.step.x as int),
            stepped(gy, self@.options.step.y as int),
            self@.options.seed.value,
        )
    }

    open spec fn peak(&self) -> int {
        ONE as int
    }

    open spec fn ident(&self) -> u64 {
        self@.id
    }

    open spec fn extent(&self) -> Size {
        self@.options.size
    }

    fn generate_chunk(&self, x: i64, y: i64) -> (grid: Vec<Vec<i64>>) {
        let size = self.size;
        self.generate_sized_chunk(size, x, y)
    }

    fn generate(&self) -> (grid: Vec<Vec<i64>>) {
        self.generate_chunk(0, 0)
    }

    fn generate_sized_chunk(&self, size: Size, x: i64, y: i64) -> (grid: Vec<Vec<i64>>) {
        let mut grid: Vec<Vec<i64>> = Vec::new();
        let top: i64 = y * size.h;
        let left: i64 = x * size.w;
        let mut r: i64 = 0;
        while r < size.h
            invariant
                size.reaches(x as int, y as int),
                top == y * size.h,
                left == x * size.w,
                0 <= r,
                r <= size.rows(),
                grid@.len() == r,
                forall|i: int| 0 <= i < r ==> (#[trigger] grid@[i])@.len() == size.columns(),
                forall|i: int, j: int|
                    0 <= i < r && 0 <= j < size.columns() ==> #[trigger] grid@[i]@[j]
                        == self.value_at(left + j, top + i),
                forall|i: int, j: int|
                    0 <= i < r && 0 <= j < size.columns() ==> -ONE <= #[trigger] grid@[i]@[j]
                        <= ONE,
            decreases size.h - r,
        {
            assert((y + 1) * size.h == y * size.h + size.h) by (nonlinear_arith);
            let fy: i64 = step_by(top + r, self.step.y);
            let mut row: Vec<i64> = Vec::new();
            let mut c: i64 = 0;
            while c < size.w
                invariant
                    size.reaches(x as int, y as int),
                    left == x * size.w,
                    fy == stepped(top + r, self@.options.step.y as int),
                    0 <= c,
                    c <= size.columns(),
                    row@.len() == c,
                    forall|j: int|
                        0 <= j < c ==> #[trigger] row@[j] == self.value_at(left + j, top + r),
                    forall|j: int| 0 <= j < c ==> -ONE <= #[trigger] row@[j] <= ONE,
                decreases size.w - c,
            {
                assert((x + 1) * size.w == x * size.w + size.w) by (nonlinear_arith);
                let fx: i64 = step_by(left + c, self.step.x);
                row.push(self.noise.generate(fx, fy, self.seed.value));
                c = c + 1;
            }
            grid.push(row);
            r = r + 1;
        }
        assert(grid_view(&grid) =~~= chunk_of(
            |gx: int, gy: int| self.value_at(gx, gy),
            size,
            x as int,
            y as int,
        ));
        grid
    }

    fn id(&self) -> (id: u64) {
        self.id
    }
}

impl<T: NoiseProvider> NoiseMapGenerator for NoiseMap<T> {
    open spec fn weight(&self) -> int {
        1
    }

    open spec fn raw_at(&self, gx: int, gy: int) -> int {
        self.value_at(gx, gy)
    }

    open spec fn raw_peak(&self) -> int {
        ONE as int
    }

    open spec fn with(self, change: spec_fn(Options) -> Options) -> Self {
        NoiseMap::assemble(NoiseMapView { options: change(self@.options), ..self@ })
    }

    open spec fn sized(&self, size: Size) -> bool {
        self@.options.size == size
    }

    fn set<P: Property>(self, property: P) -> (updated: Self)
        ensures
            updated@ == (NoiseMapView { options: property.applied(self@.options), ..self@ }),
    {
        let updated = property.set_to(self);
        proof {
            updated.lemma_assemble_view();
        }
        updated
    }

    fn get_size(&self) -> (size: Size) {
        self.size
    }

    fn set_seed(self, seed: Seed) -> (updated: Self)
        ensures
            updated@ == (NoiseMapView {
                options: Options { seed: seed, ..self@.options },
                ..self@
            }),
    {
        self.put_seed(seed)
    }

    fn set_step(self, step: Step) -> (updated: Self)
        ensures
            updated@ == (NoiseMapView {
                options: Options { step: step, ..self@.options },
                ..self@
            }),
    {
        self.put_step(step)
    }

    fn set_size(self, size: Size) -> (updated: Self)
        ensures
            updated@ == (NoiseMapView {
                options: Options { size: size, ..self@.options },
                ..self@
            }),
    {
        self.put_size(size)
    }

    fn get_peak(&self) -> (peak: i64) {
        ONE
    }

    fn get_raw_peak(&self) -> (peak: i64) {
        ONE
    }

    fn get_weight(&self) -> (weight: i64) {
        1
    }
}

impl<T: NoiseProvider> NoiseMap<T> {
    /// The map with each value multiplied by `scale`.
    pub fn mul(self, scale: i64, ids: &mut IdSource) -> (scaled: ScaledNoiseMap<NoiseMap<T>>)
        requires
            scalable(self.peak(), scale as int),
        ensures
            scaled@ == (ScaledView { nm: self, scale: scale, id: old(ids).upcoming() }),
            final(ids).upcoming() == following(old(ids).upcoming()),
    {
        ScaledNoiseMap::new(self, scale, ids)
    }
}

} // verus!
