//! Sums of noise maps.

use vstd::prelude::*;
use crate::fixed::{lemma_quotient_within, magnitude, quotient};
use crate::noise::NoiseProvider;
use super::{
    change_of, chunk_of, following, grid_view, next_id, scalable, Combine, IdSource, NoiseMap,
    NoiseMapGenerator, NoiseMapGeneratorBase, Options, Property, ScaledNoiseMap, ScaledView, Seed,
    Size, Step, MAX_PEAK,
};
use super::grid::{add_cells, normalise_cells};

verus! {

/// What a `NoiseMapCombination` is made of.
pub struct CombinationView<T1, T2> {
    pub nm1: T1,
    pub nm2: T2,
    pub outer: bool,
    pub total_scale: i64,
    pub id: u64,
}

/// A combination of noise maps.
///
/// Created when two noise maps are added together. The resulting noise map
/// values will be normalised to between -1 and 1. This will take on the size
/// of the largest noise map in the combination, meaning you only have to set
/// the size once.
///
/// A combination that becomes part of a larger one is marked as inner: it
/// hands on its sum as it is, and the larger one normalises.
#[derive(Debug)]
pub struct NoiseMapCombination<T1: NoiseMapGenerator, T2: NoiseMapGenerator> {
    nm1: T1,
    nm2: T2,
    outer: bool,
    total_scale: i64,
    id: u64,
}

impl<T1: NoiseMapGenerator, T2: NoiseMapGenerator> View for NoiseMapCombination<T1, T2> {
    type V = CombinationView<T1, T2>;

    closed spec fn view(&self) -> CombinationView<T1, T2> {
        CombinationView {
            nm1: self.nm1,
            nm2: self.nm2,
            outer: self.outer,
            total_scale: self.total_scale,
            id: self.id,
        }
    }
}

impl<T1: NoiseMapGenerator, T2: NoiseMapGenerator> Clone for NoiseMapCombination<T1, T2> {
    fn clone(&self) -> (copy: Self)
        ensures
            copy == *self,
    {
        *self
    }
}

impl<T1: NoiseMapGenerator, T2: NoiseMapGenerator> Copy for NoiseMapCombination<T1, T2> {

}

impl<T1: NoiseMapGenerator, T2: NoiseMapGenerator> NoiseMapCombination<T1, T2> {
    /// The sum fits, and can be normalised: the peaks of the two parts
    /// together are within `MAX_PEAK`, and the total of the weights is not 0.
    #[verifier::type_invariant]
    pub closed spec fn fits(self) -> bool {
        &&& self.nm1.peak() + self.nm2.peak() <= MAX_PEAK
        &&& self.total_scale != 0
    }

    /// The combination that is made of `parts`.
    pub closed spec fn assemble(parts: CombinationView<T1, T2>) -> Self {
        NoiseMapCombination {
            nm1: parts.nm1,
            nm2: parts.nm2,
            outer: parts.outer,
            total_scale: parts.total_scale,
            id: parts.id,
        }
    }

    /// A combination that is put together has the parts it was made of.
    pub proof fn lemma_assemble(parts: CombinationView<T1, T2>)
        ensures
            Self::assemble(parts)@ == parts,
    {
    }

    /// The combination marked as part of a larger one.
    pub open spec fn marked_inner(self) -> Self {
        Self::assemble(CombinationView { outer: false, ..self@ })
    }

    /// Marks the combination as part of a larger one.
    fn inner(self) -> (marked: NoiseMapCombination<T1, T2>)
        ensures
            marked == self.marked_inner(),
            marked@ == (CombinationView { outer: false, ..self@ }),
    {
        proof {
            use_type_invariant(self);
        }
        NoiseMapCombination { outer: false, ..self }
    }
}

impl<T1: NoiseMapGenerator, T2: NoiseMapGenerator> NoiseMapGeneratorBase for NoiseMapCombination<
    T1,
    T2,
> {
    open spec fn value_at(&self, gx: int, gy: int) -> int {
        if self@.outer {
            quotient(
                self@.nm1.value_at(gx, gy) + self@.nm2.value_at(gx, gy),
                self@.total_scale as int,
            )
        } else {
            self@.nm1.value_at(gx, gy) + self@.nm2.value_at(gx, gy)
        }
    }

    open spec fn peak(&self) -> int {
        if self@.outer {
            (self@.nm1.peak() + self@.nm2.peak()) / magnitude(self@.total_scale as int)
        } else {
            self@.nm1.peak() + self@.nm2.peak()
        }
    }

    open spec fn ident(&self) -> u64 {
        self@.id
    }

    open spec fn extent(&self) -> Size {
        self@.nm1.extent()
    }

    fn generate_chunk(&self, x: i64, y: i64) -> (grid: Vec<Vec<i64>>) {
        let size = self.get_size();
        self.generate_sized_chunk(size, x, y)
    }

    fn generate(&self) -> (grid: Vec<Vec<i64>>) {
        self.generate_chunk(0, 0)
    }

    fn generate_sized_chunk(&self, size: Size, x: i64, y: i64) -> (grid: Vec<Vec<i64>>) {
        let nm1_map: Vec<Vec<i64>> = self.nm1.generate_sized_chunk(size, x, y);
        let nm2_map: Vec<Vec<i64>> = self.nm2.generate_sized_chunk(size, x, y);
        let ghost first = grid_view(&nm1_map);
        let ghost second = grid_view(&nm2_map);
        proof {
            use_type_invariant(self);
            assert(nm1_map@.len() == first.len());
            assert(nm2_map@.len() == second.len());
            assert forall|r: int| 0 <= r < nm1_map@.len() implies (#[trigger] nm1_map@[r])@.len()
                == nm2_map@[r]@.len() by {
                assert(first[r].len() == nm1_map@[r]@.len());
                assert(second[r].len() == nm2_map@[r]@.len());
            }
            assert forall|r: int, c: int|
                0 <= r < nm1_map@.len() && 0 <= c < nm1_map@[r]@.len() implies i64::MIN <= (
            #[trigger] nm1_map@[r]@[c]) + nm2_map@[r]@[c] <= i64::MAX by {
                assert(first[r][c] == nm1_map@[r]@[c]);
                assert(second[r][c] == nm2_map@[r]@[c]);
            }
        }
        let sum_map: Vec<Vec<i64>> = add_cells(&nm1_map, &nm2_map);
        let ghost sums = grid_view(&sum_map);
        proof {
            assert forall|r: int, c: int|
                0 <= r < sums.len() && 0 <= c < sums[r].len() implies -(self@.nm1.peak()
                + self@.nm2.peak()) <= #[trigger] sums[r][c] <= self@.nm1.peak()
                + self@.nm2.peak() by {
                assert(sums[r][c] == first[r][c] + second[r][c]);
            }
        }
        if self.outer {
            proof {
                assert forall|r: int, c: int|
                    0 <= r < sum_map@.len() && 0 <= c < sum_map@[r]@.len() implies i64::MIN
                    < #[trigger] sum_map@[r]@[c] by {
                    assert(sums[r][c] == sum_map@[r]@[c]);
                }
            }
            let grid: Vec<Vec<i64>> = normalise_cells(&sum_map, self.total_scale);
            proof {
                assert(grid_view(&grid) =~~= chunk_of(
                    |gx: int, gy: int| self.value_at(gx, gy),
                    size,
                    x as int,
                    y as int,
                ));
                assert forall|r: int, c: int|
                    0 <= r < grid_view(&grid).len() && 0 <= c < grid_view(
                        &grid,
                    )[r].len() implies -self.peak() <= #[trigger] grid_view(&grid)[r][c]
                    <= self.peak() by {
                    assert(grid_view(&grid)[r][c] == quotient(
                        sums[r][c],
                        self.total_scale as int,
                    ));
                    lemma_quotient_within(
                        sums[r][c],
                        self.total_scale as int,
                        self@.nm1.peak() + self@.nm2.peak(),
                    );
                }
            }
            grid
        } else {
            proof {
                assert(sums =~~= chunk_of(
                    |gx: int, gy: int| self.value_at(gx, gy),
                    size,
                    x as int,
                    y as int,
                ));
            }
            sum_map
        }
    }

    fn id(&self) -> (id: u64) {
        self.id
    }
}

impl<T1: NoiseMapGenerator, T2: NoiseMapGenerator> NoiseMapGenerator for NoiseMapCombination<
    T1,
    T2,
> {
    open spec fn weight(&self) -> int {
        self@.total_scale as int
    }

    open spec fn raw_at(&self, gx: int, gy: int) -> int {
        self@.nm1.value_at(gx, gy) + self@.nm2.value_at(gx, gy)
    }

    open spec fn raw_peak(&self) -> int {
        self@.nm1.peak() + self@.nm2.peak()
    }

    open spec fn with(self, change: spec_fn(Options) -> Options) -> Self {
        NoiseMapCombination::assemble(
            CombinationView {
                nm1: self@.nm1.with(change),
                nm2: self@.nm2.with(change),
                ..self@
            },
        )
    }

    open spec fn sized(&self, size: Size) -> bool {
        self@.nm1.sized(size) && self@.nm2.sized(size)
    }

    fn set<P: Property>(self, property: P) -> (updated: Self)
        ensures
            updated@ == (CombinationView {
                nm1: self@.nm1.with(change_of(property)),
                nm2: self@.nm2.with(change_of(property)),
                ..self@
            }),
    {
        proof {
            use_type_invariant(self);
        }
        NoiseMapCombination {
            nm1: self.nm1.set(property),
            nm2: self.nm2.set(property),
            ..self
        }
    }

    fn get_size(&self) -> (size: Size) {
        self.nm1.get_size()
    }

    fn set_seed(self, seed: Seed) -> (updated: Self)
        ensures
            updated@ == (CombinationView {
                nm1: self@.nm1.with(change_of(seed)),
                nm2: self@.nm2.with(change_of(seed)),
                ..self@
            }),
    {
        proof {
            use_type_invariant(self);
        }
        NoiseMapCombination {
            nm1: self.nm1.set_seed(seed),
            nm2: self.nm2.set_seed(seed),
            ..self
        }
    }

    fn set_step(self, step: Step) -> (updated: Self)
        ensures
            updated@ == (CombinationView {
                nm1: self@.nm1.with(change_of(step)),
                nm2: self@.nm2.with(change_of(step)),
                ..self@
            }),
    {
        proof {
            use_type_invariant(self);
        }
        NoiseMapCombination {
            nm1: self.nm1.set_step(step),
            nm2: self.nm2.set_step(step),
            ..self
        }
    }

    fn set_size(self, size: Size) -> (updated: Self)
        ensures
            updated@ == (CombinationView {
                nm1: self@.nm1.with(change_of(size)),
                nm2: self@.nm2.with(change_of(size)),
                ..self@
            }),
    {
        proof {
            use_type_invariant(self);
        }
        NoiseMapCombination {
            nm1: self.nm1.set_size(size),
            nm2: self.nm2.set_size(size),
            ..self
        }
    }

    fn get_peak(&self) -> (peak: i64) {
        let raw: i64 = self.get_raw_peak();
        if self.outer {
            proof {
                use_type_invariant(self);
            }
            let wide: i128 = if self.total_scale < 0 {
                -(self.total_scale as i128)
            } else {
                self.total_scale as i128
            };
            let share: i128 = raw as i128 / wide;
            assert(0 <= share <= raw) by (nonlinear_arith)
                requires
                    share == raw as int / wide as int,
                    0 <= raw,
                    0 < wide,
            ;
            share as i64
        } else {
            raw
        }
    }

    fn get_raw_peak(&self) -> (peak: i64) {
        proof {
            use_type_invariant(self);
        }
        self.nm1.get_peak() + self.nm2.get_peak()
    }

    fn get_weight(&self) -> (weight: i64) {
        self.total_scale
    }
}

impl<T1: NoiseMapGenerator, T2: NoiseMapGenerator> NoiseMapCombination<T1, T2> {
    /// The map with each value multiplied by `scale`.
    pub fn mul(self, scale: i64, ids: &mut IdSource) -> (scaled: ScaledNoiseMap<
        NoiseMapCombination<T1, T2>,
    >)
        requires
            scalable(self.peak(), scale as int),
        ensures
            scaled@ == (ScaledView { nm: self, scale: scale, id: old(ids).upcoming() }),
            final(ids).upcoming() == following(old(ids).upcoming()),
    {
        ScaledNoiseMap::new(self, scale, ids)
    }
}

impl<T1: NoiseProvider, T2: NoiseProvider> Combine<NoiseMap<T2>> for NoiseMap<T1> {
    type Output = NoiseMapCombination<NoiseMap<T1>, NoiseMap<T2>>;

    fn add(self, rhs: NoiseMap<T2>, ids: &mut IdSource) -> (sum: Self::Output)
        ensures
            sum@ == (CombinationView {
                nm1: self.with(change_of(Size::larger_of(self.extent(), rhs.extent()))),
                nm2: rhs.with(change_of(Size::larger_of(self.extent(), rhs.extent()))),
                outer: true,
                total_scale: 2,
                id: old(ids).upcoming(),
            }),
    {
        let s1 = self.get_size();
        let s2 = rhs.get_size();

        let sum = NoiseMapCombination {
            nm1: self,
            nm2: rhs,
            outer: true,
            total_scale: 2,
            id: next_id(ids),
        }.set_size(Size::larger(s1, s2));
        proof {
            NoiseMapCombination::lemma_assemble(
                CombinationView {
                    nm1: self.with(change_of(Size::larger_of(s1, s2))),
                    nm2: rhs.with(change_of(Size::larger_of(s1, s2))),
                    outer: true,
                    total_scale: 2,
                    id: old(ids).upcoming(),
                },
            );
        }
        sum
    }
}

impl<T1: NoiseProvider, T2: NoiseMapGenerator> Combine<ScaledNoiseMap<T2>> for NoiseMap<T1> {
    type Output = NoiseMapCombination<NoiseMap<T1>, ScaledNoiseMap<T2>>;

    fn add(self, rhs: ScaledNoiseMap<T2>, ids: &mut IdSource) -> (sum: Self::Output)
        ensures
            sum@ == (CombinationView {
                nm1: self.with(change_of(Size::larger_of(rhs.extent(), self.extent()))),
                nm2: rhs.with(change_of(Size::larger_of(rhs.extent(), self.extent()))),
                outer: true,
                total_scale: (rhs@.scale + 1) as i64,
                id: old(ids).upcoming(),
            }),
    {
        rhs.add(self, ids)
    }
}

impl<T: NoiseProvider, T1: NoiseMapGenerator, T2: NoiseMapGenerator> Combine<
    NoiseMapCombination<T1, T2>,
> for NoiseMap<T> {
    type Output = NoiseMapCombination<NoiseMap<T>, NoiseMapCombination<T1, T2>>;

    fn add(self, rhs: NoiseMapCombination<T1, T2>, ids: &mut IdSource) -> (sum: Self::Output)
        ensures
            sum@ == (CombinationView {
                nm1: self.with(change_of(Size::larger_of(rhs.extent(), self.extent()))),
                nm2: rhs.marked_inner().with(
                    change_of(Size::larger_of(rhs.extent(), self.extent())),
                ),
                outer: true,
                total_scale: (1 + rhs@.total_scale) as i64,
                id: old(ids).upcoming(),
            }),
    {
        rhs.add(self, ids)
    }
}

impl<T1: NoiseMapGenerator, T2: NoiseProvider> Combine<NoiseMap<T2>> for ScaledNoiseMap<T1> {
    type Output = NoiseMapCombination<NoiseMap<T2>, ScaledNoiseMap<T1>>;

    fn add(self, rhs: NoiseMap<T2>, ids: &mut IdSource) -> (sum: Self::Output)
        ensures
            sum@ == (CombinationView {
                nm1: rhs.with(change_of(Size::larger_of(self.extent(), rhs.extent()))),
                nm2: self.with(change_of(Size::larger_of(self.extent(), rhs.extent()))),
                outer: true,
                total_scale: (self@.scale + 1) as i64,
                id: old(ids).upcoming(),
            }),
    {
        let scale = self.scale();

        let s1 = self.get_size();
        let s2 = rhs.get_size();

        let sum = NoiseMapCombination {
            nm1: rhs,
            nm2: self,
            outer: true,
            total_scale: scale + 1,
            id: next_id(ids),
        }.set_size(Size::larger(s1, s2));
        proof {
            NoiseMapCombination::lemma_assemble(
                CombinationView {
                    nm1: rhs.with(change_of(Size::larger_of(s1, s2))),
                    nm2: self.with(change_of(Size::larger_of(s1, s2))),
                    outer: true,
                    total_scale: (scale + 1) as i64,
                    id: old(ids).upcoming(),
                },
            );
        }
        sum
    }
}

impl<T1: NoiseMapGenerator, T2: NoiseMapGenerator> Combine<ScaledNoiseMap<T2>> for ScaledNoiseMap<
    T1,
> {
    type Output = NoiseMapCombination<ScaledNoiseMap<T1>, ScaledNoiseMap<T2>>;

    fn add(self, rhs: ScaledNoiseMap<T2>, ids: &mut IdSource) -> (sum: Self::Output)
        ensures
            sum@ == (CombinationView {
                nm1: self.with(change_of(Size::larger_of(self.extent(), rhs.extent()))),
                nm2: rhs.with(change_of(Size::larger_of(self.extent(), rhs.extent()))),
                outer: true,
                total_scale: (self@.scale + rhs@.scale) as i64,
                id: old(ids).upcoming(),
            }),
    {
        let scale1 = self.scale();
        let scale2 = rhs.scale();

        let s1 = self.get_size();
        let s2 = rhs.get_size();

        let sum = NoiseMapCombination {
            nm1: self,
            nm2: rhs,
            outer: true,
            total_scale: scale1 + scale2,
            id: next_id(ids),
        }.set_size(Size::larger(s1, s2));
        proof {
            NoiseMapCombination::lemma_assemble(
                CombinationView {
                    nm1: self.with(change_of(Size::larger_of(s1, s2))),
                    nm2: rhs.with(change_of(Size::larger_of(s1, s2))),
                    outer: true,
                    total_scale: (scale1 + scale2) as i64,
                    id: old(ids).upcoming(),
                },
            );
        }
        sum
    }
}

impl<T: NoiseMapGenerator, T1: NoiseMapGenerator, T2: NoiseMapGenerator> Combine<
    NoiseMapCombination<T1, T2>,
> for ScaledNoiseMap<T> {
    type Output = NoiseMapCombination<ScaledNoiseMap<T>, NoiseMapCombination<T1, T2>>;

    fn add(self, rhs: NoiseMapCombination<T1, T2>, ids: &mut IdSource) -> (sum: Self::Output)
        ensures
            sum@ == (CombinationView {
                nm1: self.with(change_of(Size::larger_of(rhs.extent(), self.extent()))),
                nm2: rhs.marked_inner().with(
                    change_of(Size::larger_of(rhs.extent(), self.extent())),
                ),
                outer: true,
                total_scale: (self@.scale + rhs@.total_scale) as i64,
                id: old(ids).upcoming(),
            }),
    {
        rhs.add(self, ids)
    }
}

impl<T: NoiseProvider, T1: NoiseMapGenerator, T2: NoiseMapGenerator> Combine<
    NoiseMap<T>,
> for NoiseMapCombination<T1, T2> {
    type Output = NoiseMapCombination<NoiseMap<T>, NoiseMapCombination<T1, T2>>;

    fn add(self, rhs: NoiseMap<T>, ids: &mut IdSource) -> (sum: Self::Output)
        ensures
            sum@ == (CombinationView {
                nm1: rhs.with(change_of(Size::larger_of(self.extent(), rhs.extent()))),
                nm2: self.marked_inner().with(
                    change_of(Size::larger_of(self.extent(), rhs.extent())),
                ),
                outer: true,
                total_scale: (1 + self@.total_scale) as i64,
                id: old(ids).upcoming(),
            }),
    {
        let scale = self.total_scale;

        let s1 = self.get_size();
        let s2 = rhs.get_size();

        let sum = NoiseMapCombination {
            nm1: rhs,
            nm2: self.inner(),
            outer: true,
            total_scale: 1 + scale,
            id: next_id(ids),
        }.set_size(Size::larger(s1, s2));
        proof {
            NoiseMapCombination::lemma_assemble(
                CombinationView {
                    nm1: rhs.with(change_of(Size::larger_of(s1, s2))),
                    nm2: self.marked_inner().with(change_of(Size::larger_of(s1, s2))),
                    outer: true,
                    total_scale: (1 + scale) as i64,
                    id: old(ids).upcoming(),
                },
            );
        }
        sum
    }
}

impl<T: NoiseMapGenerator, T1: NoiseMapGenerator, T2: NoiseMapGenerator> Combine<
    ScaledNoiseMap<T>,
> for NoiseMapCombination<T1, T2> {
    type Output = NoiseMapCombination<ScaledNoiseMap<T>, NoiseMapCombination<T1, T2>>;

    fn add(self, rhs: ScaledNoiseMap<T>, ids: &mut IdSource) -> (sum: Self::Output)
        ensures
            sum@ == (CombinationView {
                nm1: rhs.with(change_of(Size::larger_of(self.extent(), rhs.extent()))),
                nm2: self.marked_inner().with(
                    change_of(Size::larger_of(self.extent(), rhs.extent())),
                ),
                outer: true,
                total_scale: (rhs@.scale + self@.total_scale) as i64,
                id: old(ids).upcoming(),
            }),
    {
        let scale1 = rhs.scale();
        let scale2 = self.total_scale;

        let s1 = self.get_size();
        let s2 = rhs.get_size();

        let inner = self.inner();

        let sum = NoiseMapCombination {
            nm1: rhs,
            nm2: inner,
            outer: true,
            total_scale: scale1 + scale2,
            id: next_id(ids),
        }.set_size(Size::larger(s1, s2));
        proof {
            NoiseMapCombination::lemma_assemble(
                CombinationView {
                    nm1: rhs.with(change_of(Size::larger_of(s1, s2))),
                    nm2: self.marked_inner().with(change_of(Size::larger_of(s1, s2))),
                    outer: true,
                    total_scale: (scale1 + scale2) as i64,
                    id: old(ids).upcoming(),
                },
            );
        }
        sum
    }
}

impl<
    L1: NoiseMapGenerator,
    L2: NoiseMapGenerator,
    R1: NoiseMapGenerator,
    R2: NoiseMapGenerator,
> Combine<NoiseMapCombination<R1, R2>> for NoiseMapCombination<L1, L2> {
    type Output = NoiseMapCombination<NoiseMapCombination<L1, L2>, NoiseMapCombination<R1, R2>>;

    fn add(self, rhs: NoiseMapCombination<R1, R2>, ids: &mut IdSource) -> (sum: Self::Output)
        ensures
            sum@ == (CombinationView {
                nm1: self.marked_inner().with(
                    change_of(Size::larger_of(self.extent(), rhs.extent())),
                ),
                nm2: rhs.marked_inner().with(
                    change_of(Size::larger_of(self.extent(), rhs.extent())),
                ),
                outer: true,
                total_scale: (rhs@.total_scale + self@.total_scale) as i64,
                id: old(ids).upcoming(),
            }),
    {
        let scale1 = rhs.total_scale;
        let scale2 = self.total_scale;

        let s1 = self.get_size();
        let s2 = rhs.get_size();

        let inner1 = self.inner();
        let inner2 = rhs.inner();

        let sum = NoiseMapCombination {
            nm1: inner1,
            nm2: inner2,
            outer: true,
            total_scale: scale1 + scale2,
            id: next_id(ids),
        }.set_size(Size::larger(s1, s2));
        proof {
            NoiseMapCombination::lemma_assemble(
                CombinationView {
                    nm1: self.marked_inner().with(change_of(Size::larger_of(s1, s2))),
                    nm2: rhs.marked_inner().with(change_of(Size::larger_of(s1, s2))),
                    outer: true,
                    total_scale: (scale1 + scale2) as i64,
                    id: old(ids).upcoming(),
                },
            );
        }
        sum
    }
}

} // verus!
