//! Threshold constraints on the values of a noise map.

use vstd::prelude::*;
use std::collections::HashMap;
use crate::noisemap::{chunk_of, grid_view, NoiseMapGeneratorBase};
use crate::world::Size;

verus! {

/// The threshold of a constraint, a fixed-point number, and the side of it
/// on which the noise value has to lie.
#[derive(Copy, Clone)]
pub enum ConstraintType {
    /// This constraint is satisfied when the noise value is lower than the
    /// given threshold.
    LT(i64),
    /// This constraint is satisfied when the noise value is greater than
    /// the given threshold.
    GT(i64),
}

impl ConstraintType {
    /// Whether `value` lies on the right side of the threshold. A value
    /// equal to the threshold never does.
    pub open spec fn admits(self, value: int) -> bool {
        match self {
            ConstraintType::LT(threshold) => value < threshold,
            ConstraintType::GT(threshold) => value > threshold,
        }
    }
}

/// A value equal to the threshold satisfies neither kind of constraint.
pub proof fn lemma_threshold_excluded(threshold: i64)
    ensures
        !ConstraintType::LT(threshold).admits(threshold as int),
        !ConstraintType::GT(threshold).admits(threshold as int),
{
}

/// The chunks that were generated so far, by the identity of their noise
/// map, as grids of cells.
pub open spec fn memo_view(nms: Map<u64, Vec<Vec<i64>>>) -> Map<u64, Seq<Seq<int>>> {
    Map::new(|id: u64| nms.contains_key(id), |id: u64| grid_view(&nms[id]))
}

/// Whether every chunk in `memo` has the shape of `size`.
pub open spec fn memo_fits(memo: Map<u64, Seq<Seq<int>>>, size: Size) -> bool {
    forall|id: u64| #[trigger]
        memo.contains_key(id) ==> {
            &&& memo[id].len() == size.rows()
            &&& forall|r: int|
                0 <= r < size.rows() ==> (#[trigger] memo[id][r]).len() == size.columns()
        }
}

/// What a `Constraint` is made of.
pub struct ConstraintView {
    pub nm: Box<dyn NoiseMapGeneratorBase>,
    pub constraint: ConstraintType,
}

/// A constraint that limits when a tile should be chosen for the generated
/// world.
pub struct Constraint {
    parts: ConstraintView,
}

impl View for Constraint {
    type V = ConstraintView;

    closed spec fn view(&self) -> ConstraintView {
        self.parts
    }
}

impl Constraint {
    /// The identity of the noise map of the constraint.
    pub open spec fn ident(&self) -> u64 {
        self@.nm.ident()
    }

    /// The chunk `(chunk_x, chunk_y)` of the noise map of the constraint.
    pub open spec fn chunk(&self, size: Size, chunk_x: int, chunk_y: int) -> Seq<Seq<int>> {
        chunk_of(|gx: int, gy: int| self@.nm.value_at(gx, gy), size, chunk_x, chunk_y)
    }

    /// The chunks that are at hand once the constraint was tested: those
    /// of `memo`, and the chunk of the constraint's noise map where `memo`
    /// holds none under its identity.
    pub open spec fn filled(
        &self,
        memo: Map<u64, Seq<Seq<int>>>,
        size: Size,
        chunk_x: int,
        chunk_y: int,
    ) -> Map<u64, Seq<Seq<int>>> {
        if memo.contains_key(self.ident()) {
            memo
        } else {
            memo.insert(self.ident(), self.chunk(size, chunk_x, chunk_y))
        }
    }

    /// Whether the chunk that `memo` holds under the identity of the
    /// constraint's noise map satisfies the constraint at the grid point
    /// `(x, y)`, taken modulo the size of the chunk.
    pub open spec fn passes(
        &self,
        memo: Map<u64, Seq<Seq<int>>>,
        size: Size,
        x: int,
        y: int,
    ) -> bool {
        self@.constraint.admits(memo[self.ident()][y % (size.h as int)][x % (size.w as int)])
    }

    /// Whether the noise map of the constraint satisfies it at the cell in
    /// row `row` and column `column` of the chunk `(chunk_x, chunk_y)`.
    pub open spec fn holds_at(
        &self,
        size: Size,
        chunk_x: int,
        chunk_y: int,
        column: int,
        row: int,
    ) -> bool {
        self@.constraint.admits(
            self@.nm.value_at(chunk_x * size.w + column, chunk_y * size.h + row),
        )
    }

    /// A chunk is generated once: testing a constraint leaves the chunks
    /// at hand as they are where one is at hand under the identity of its
    /// noise map, and afterwards one is.
    pub proof fn lemma_filled_once(
        &self,
        memo: Map<u64, Seq<Seq<int>>>,
        size: Size,
        chunk_x: int,
        chunk_y: int,
    )
        ensures
            memo.contains_key(self.ident()) ==> self.filled(memo, size, chunk_x, chunk_y) == memo,
            self.filled(memo, size, chunk_x, chunk_y).contains_key(self.ident()),
            self.filled(self.filled(memo, size, chunk_x, chunk_y), size, chunk_x, chunk_y)
                == self.filled(memo, size, chunk_x, chunk_y),
            forall|id: u64| #[trigger]
                memo.contains_key(id) ==> self.filled(memo, size, chunk_x, chunk_y).contains_key(
                    id,
                ) && self.filled(memo, size, chunk_x, chunk_y)[id] == memo[id],
    {
    }

    /// A constraint on the values of `nm`.
    pub fn new<G: NoiseMapGeneratorBase + 'static>(nm: Box<G>, constraint: ConstraintType) -> (made:
        Constraint)
        ensures
            made@ == (ConstraintView { nm: nm, constraint: constraint }),
    {
        Constraint { parts: ConstraintView { nm: nm, constraint: constraint } }
    }

    /// Returns true if the value at `(x, y)` would satisfy this constraint.
    ///
    /// The chunk of the noise map is taken from `nms` where it is there, and
    /// generated and put there where it is not.
    pub fn satisfied_by(
        &self,
        x: i64,
        y: i64,
        size: Size,
        chunk_x: i64,
        chunk_y: i64,
        nms: &mut HashMap<u64, Vec<Vec<i64>>>,
    ) -> (satisfied: bool)
        requires
            size.w > 0,
            size.h > 0,
            size.reaches(chunk_x as int, chunk_y as int),
            memo_fits(memo_view(old(nms)@), size),
        ensures
            memo_view(final(nms)@) == self.filled(
                memo_view(old(nms)@),
                size,
                chunk_x as int,
                chunk_y as int,
            ),
            memo_fits(memo_view(final(nms)@), size),
            satisfied == self.passes(memo_view(final(nms)@), size, x as int, y as int),
    {
        let id = self.parts.nm.id();

        if !nms.contains_key(&id) {
            let grid: Vec<Vec<i64>> = self.parts.nm.generate_sized_chunk(size, chunk_x, chunk_y);
            nms.insert(id, grid);
            proof {
                assert(memo_view(nms@) =~= memo_view(old(nms)@).insert(
                    id,
                    self.chunk(size, chunk_x as int, chunk_y as int),
                ));
            }
        }
        proof {
            assert(memo_view(nms@) == self.filled(
                memo_view(old(nms)@),
                size,
                chunk_x as int,
                chunk_y as int,
            ));
        }
        let nm: &Vec<Vec<i64>> = nms.get(&id).unwrap();

        let column: i64 = x.checked_rem_euclid(size.w).unwrap();
        let row: i64 = y.checked_rem_euclid(size.h).unwrap();
        proof {
            assert(0 <= column < size.w) by (nonlinear_arith)
                requires
                    column == x % size.w,
                    size.w > 0,
            ;
            assert(0 <= row < size.h) by (nonlinear_arith)
                requires
                    row == y % size.h,
                    size.h > 0,
            ;
            assert(nm.len() == nm@.len());
            assert(nm@[row as int].len() == nm@[row as int]@.len());
            assert(grid_view(nm).len() == nm@.len());
            assert(grid_view(nm)[row as int][column as int] == nm@[row as int]@[column as int]);
        }

        match self.parts.constraint {
            ConstraintType::LT(threshold) => nm[row as usize][column as usize] < threshold,
            ConstraintType::GT(threshold) => nm[row as usize][column as usize] > threshold,
        }
    }
}

} // verus!
