//! Tiles, and the constraints under which each is chosen.

use vstd::prelude::*;
use std::collections::HashMap;
use crate::world::Size;

pub use self::constraint::{
    lemma_threshold_excluded, memo_fits, memo_view, Constraint, ConstraintType, ConstraintView,
};

mod constraint;

verus! {

/// What a `Tile` is made of.
pub struct TileView<T> {
    pub value: T,
    pub constraints: Seq<Constraint>,
}

/// Objects to generate in the world based on given constraints
pub struct Tile<T> {
    value: T,
    constraints: Vec<Constraint>,
}

impl<T> View for Tile<T> {
    type V = TileView<T>;

    closed spec fn view(&self) -> TileView<T> {
        TileView { value: self.value, constraints: self.constraints@ }
    }
}

/// Tests the constraints from `from` on, in their order, up to the first
/// that fails: whether all of them passed, and the chunks that are at hand
/// afterwards.
pub open spec fn all_pass(
    constraints: Seq<Constraint>,
    from: int,
    memo: Map<u64, Seq<Seq<int>>>,
    size: Size,
    chunk_x: int,
    chunk_y: int,
    x: int,
    y: int,
) -> (bool, Map<u64, Seq<Seq<int>>>)
    decreases constraints.len() - from,
{
    if from < 0 || from >= constraints.len() {
        (true, memo)
    } else {
        let filled = constraints[from].filled(memo, size, chunk_x, chunk_y);
        if constraints[from].passes(filled, size, x, y) {
            all_pass(constraints, from + 1, filled, size, chunk_x, chunk_y, x, y)
        } else {
            (false, filled)
        }
    }
}

impl<T> Tile<T> {
    /// Whether every constraint of the tile holds at the cell in row `row`
    /// and column `column` of the chunk `(chunk_x, chunk_y)`.
    pub open spec fn holds_at(
        &self,
        size: Size,
        chunk_x: int,
        chunk_y: int,
        column: int,
        row: int,
    ) -> bool {
        forall|i: int|
            0 <= i < self@.constraints.len() ==> (#[trigger] self@.constraints[i]).holds_at(
                size,
                chunk_x,
                chunk_y,
                column,
                row,
            )
    }
}

impl<T: Clone> Tile<T> {
    /// Construct a new tile represented by the given object.
    pub fn new(value: T) -> (tile: Tile<T>)
        ensures
            tile@ == (TileView { value: value, constraints: Seq::<Constraint>::empty() }),
    {
        Tile { value, constraints: Vec::new() }
    }

    /// Adds a constraint to the tile.
    pub fn when(self, constraint: Constraint) -> (tile: Tile<T>)
        ensures
            tile@ == (TileView { constraints: self@.constraints.push(constraint), ..self@ }),
    {
        Tile {
            constraints: {
                let mut cs = self.constraints;
                cs.push(constraint);
                cs
            },
            ..self
        }
    }

    /// Returns the value this tile is represented by.
    pub fn value(&self) -> (value: T)
        ensures
            cloned(self@.value, value),
    {
        self.value.clone()
    }

    /// Returns true if the value at `(x, y)` would satisfy all of this
    /// tile's constraints. The constraints are tested in their order, and
    /// none is tested after one that failed.
    pub fn satisfied_by(
        &self,
        x: i64,
        y: i64,
        size: Size,
        chunk_x: i64,
        chunk_y: i64,
        nms: &mut HashMap<u64, Vec<Vec<i64>>>,
    ) -> (satisfied: bool)
        requires
            size.w > 0,
            size.h > 0,
            size.reaches(chunk_x as int, chunk_y as int),
            memo_fits(memo_view(old(nms)@), size),
        ensures
            (satisfied, memo_view(final(nms)@)) == all_pass(
                self@.constraints,
                0,
                memo_view(old(nms)@),
                size,
                chunk_x as int,
                chunk_y as int,
                x as int,
                y as int,
            ),
            memo_fits(memo_view(final(nms)@), size),
    {
        let mut i: usize = 0;
        while i < self.constraints.len()
            invariant
                size.w > 0,
                size.h > 0,
                size.reaches(chunk_x as int, chunk_y as int),
                memo_fits(memo_view(nms@), size),
                i <= self.constraints@.len(),
                all_pass(
                    self.constraints@,
                    i as int,
                    memo_view(nms@),
                    size,
                    chunk_x as int,
                    chunk_y as int,
                    x as int,
                    y as int,
                ) == all_pass(
                    self.constraints@,
                    0,
                    memo_view(old(nms)@),
                    size,
                    chunk_x as int,
                    chunk_y as int,
                    x as int,
                    y as int,
                ),
            decreases self.constraints@.len() - i,
        {
            if !self.constraints[i].satisfied_by(x, y, size, chunk_x, chunk_y, nms) {
                return false;
            }
            i = i + 1;
        }
        true
    }
}

} // verus!
