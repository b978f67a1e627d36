//! The chunks that are at hand while a chunk of a world is generated.
//!
//! The chunk of a noise map is generated when a constraint on the map is
//! first tested, and kept under the identity of the map. What is found with
//! the chunks at hand is what the noise maps themselves give, as long as an
//! identity stands for one noise map.

use vstd::prelude::*;
use super::tile::{all_pass, Constraint};
use super::{Size, Tile, Unclassified, World};

verus! {

/// Whether two constraints test noise maps with the same values everywhere.
pub open spec fn same_plane(first: Constraint, second: Constraint) -> bool {
    forall|gx: int, gy: int| #[trigger]
        first@.nm.value_at(gx, gy) == second@.nm.value_at(gx, gy)
}

/// Whether `memo` holds, under the identity of the constraint's noise map,
/// nothing but the chunk of that map.
pub open spec fn memo_agrees(
    memo: Map<u64, Seq<Seq<int>>>,
    constraint: Constraint,
    size: Size,
    chunk_x: int,
    chunk_y: int,
) -> bool {
    memo.contains_key(constraint.ident()) ==> memo[constraint.ident()] == constraint.chunk(
        size,
        chunk_x,
        chunk_y,
    )
}

/// Tries the tiles from `from` on, in their order, up to the first whose
/// constraints all pass: the tile that was found, and the chunks that are
/// at hand afterwards.
pub open spec fn first_pass<T>(
    tiles: Seq<Tile<T>>,
    from: int,
    memo: Map<u64, Seq<Seq<int>>>,
    size: Size,
    chunk_x: int,
    chunk_y: int,
    x: int,
    y: int,
) -> (Option<int>, Map<u64, Seq<Seq<int>>>)
    decreases tiles.len() - from,
{
    if from < 0 || from >= tiles.len() {
        (None, memo)
    } else {
        let tried = all_pass(tiles[from]@.constraints, 0, memo, size, chunk_x, chunk_y, x, y);
        if tried.0 {
            (Some(from), tried.1)
        } else {
            first_pass(tiles, from + 1, tried.1, size, chunk_x, chunk_y, x, y)
        }
    }
}

impl<T> World<T> {
    /// Whether the tile `tile` has a constraint `index`.
    pub open spec fn has_rule(&self, tile: int, index: int) -> bool {
        0 <= tile < self@.tiles.len() && 0 <= index < self@.tiles[tile]@.constraints.len()
    }

    /// The constraint `index` of the tile `tile`.
    pub open spec fn rule(&self, tile: int, index: int) -> Constraint {
        self@.tiles[tile]@.constraints[index]
    }

    /// Whether an identity stands for one noise map: constraints whose
    /// noise maps have the same identity test the same values.
    pub open spec fn coherent(&self) -> bool {
        forall|t1: int, i1: int, t2: int, i2: int|
            self.has_rule(t1, i1) && self.has_rule(t2, i2) && (#[trigger] self.rule(
                t1,
                i1,
            )).ident() == (#[trigger] self.rule(t2, i2)).ident() ==> same_plane(
                self.rule(t1, i1),
                self.rule(t2, i2),
            )
    }

    /// Whether `memo` holds, under the identity of each noise map of the
    /// world, nothing but the chunk of that map.
    pub open spec fn memo_sound(
        &self,
        memo: Map<u64, Seq<Seq<int>>>,
        size: Size,
        chunk_x: int,
        chunk_y: int,
    ) -> bool {
        forall|t: int, i: int|
            self.has_rule(t, i) ==> memo_agrees(
                memo,
                #[trigger] self.rule(t, i),
                size,
                chunk_x,
                chunk_y,
            )
    }

    /// The first tile from `from` on whose constraints all hold at the cell
    /// in row `row` and column `column` of the chunk.
    pub open spec fn first_match_from(
        &self,
        chunk_x: int,
        chunk_y: int,
        column: int,
        row: int,
        from: int,
    ) -> Option<int>
        decreases self@.tiles.len() - from,
    {
        if from < 0 || from >= self@.tiles.len() {
            None
        } else if self@.tiles[from].holds_at(self@.size, chunk_x, chunk_y, column, row) {
            Some(from)
        } else {
            self.first_match_from(chunk_x, chunk_y, column, row, from + 1)
        }
    }

    /// The tile that is chosen for the cell in row `row` and column
    /// `column` of the chunk: the first whose constraints all hold there.
    pub open spec fn first_match(
        &self,
        chunk_x: int,
        chunk_y: int,
        column: int,
        row: int,
    ) -> Option<int> {
        self.first_match_from(chunk_x, chunk_y, column, row, 0)
    }

    /// The chunks that are at hand when the cell in row `row` and column
    /// `column` of the chunk comes up: none at the first cell, and at every
    /// other cell those that were at hand once the cell before it, row by
    /// row, had its tile.
    pub open spec fn memo_at(&self, chunk_x: int, chunk_y: int, row: int, column: int) -> Map<
        u64,
        Seq<Seq<int>>,
    >
        decreases row, column,
    {
        if column > 0 {
            first_pass(
                self@.tiles,
                0,
                self.memo_at(chunk_x, chunk_y, row, column - 1),
                self@.size,
                chunk_x,
                chunk_y,
                chunk_x * self@.size.w + (column - 1),
                chunk_y * self@.size.h + row,
            ).1
        } else if row > 0 {
            self.memo_at(chunk_x, chunk_y, row - 1, self@.size.columns() as int)
        } else {
            Map::empty()
        }
    }

    /// The tile that is found for the cell in row `row` and column
    /// `column` of the chunk, with the chunks that are at hand there.
    pub open spec fn tile_for(
        &self,
        chunk_x: int,
        chunk_y: int,
        column: int,
        row: int,
    ) -> Option<int> {
        first_pass(
            self@.tiles,
            0,
            self.memo_at(chunk_x, chunk_y, row, column),
            self@.size,
            chunk_x,
            chunk_y,
            chunk_x * self@.size.w + column,
            chunk_y * self@.size.h + row,
        ).0
    }
}

/// Constraints that test the same values have the same chunks.
pub proof fn lemma_same_plane_chunk(
    first: Constraint,
    second: Constraint,
    size: Size,
    chunk_x: int,
    chunk_y: int,
)
    requires
        same_plane(first, second),
    ensures
        first.chunk(size, chunk_x, chunk_y) == second.chunk(size, chunk_x, chunk_y),
{
    assert(first.chunk(size, chunk_x, chunk_y) =~~= second.chunk(size, chunk_x, chunk_y));
}

/// A grid point of a chunk, taken modulo the size of the chunk, is the
/// cell's place in the chunk.
pub proof fn lemma_place_in_chunk(extent: int, chunk: int, place: int)
    requires
        0 <= place < extent,
    ensures
        (chunk * extent + place) % extent == place,
{
    vstd::arithmetic::div_mod::lemma_mod_multiples_vanish(chunk, place, extent);
    vstd::arithmetic::div_mod::lemma_small_mod(place as nat, extent as nat);
    assert(chunk * extent + place == extent * chunk + place) by (nonlinear_arith);
}

impl<T> World<T> {
    /// Where identities stand for one noise map each, and the chunks at
    /// hand are those of the world's noise maps, testing the constraints of
    /// a tile against the chunks at hand tells whether the tile's
    /// constraints hold, and the chunks at hand stay those of the world's
    /// noise maps.
    pub proof fn lemma_all_pass_sound(
        &self,
        tile: int,
        from: int,
        memo: Map<u64, Seq<Seq<int>>>,
        chunk_x: int,
        chunk_y: int,
        column: int,
        row: int,
    )
        requires
            self.coherent(),
            self.memo_sound(memo, self@.size, chunk_x, chunk_y),
            0 <= tile < self@.tiles.len(),
            0 <= from <= self@.tiles[tile]@.constraints.len(),
            0 <= column < self@.size.w,
            0 <= row < self@.size.h,
        ensures
            ({
                let outcome = all_pass(
                    self@.tiles[tile]@.constraints,
                    from,
                    memo,
                    self@.size,
                    chunk_x,
                    chunk_y,
                    chunk_x * self@.size.w + column,
                    chunk_y * self@.size.h + row,
                );
                &&& self.memo_sound(outcome.1, self@.size, chunk_x, chunk_y)
                &&& outcome.0 <==> forall|i: int|
                    from <= i < self@.tiles[tile]@.constraints.len() ==> (
                    #[trigger] self@.tiles[tile]@.constraints[i]).holds_at(
                        self@.size,
                        chunk_x,
                        chunk_y,
                        column,
                        row,
                    )
            }),
        decreases self@.tiles[tile]@.constraints.len() - from,
    {
        let constraints = self@.tiles[tile]@.constraints;
        let size = self@.size;
        let x = chunk_x * size.w + column;
        let y = chunk_y * size.h + row;
        if from < constraints.len() {
            let tested = constraints[from];
            assert(tested == self.rule(tile, from));
            let filled = tested.filled(memo, size, chunk_x, chunk_y);
            assert forall|t: int, i: int| self.has_rule(t, i) implies memo_agrees(
                filled,
                #[trigger] self.rule(t, i),
                size,
                chunk_x,
                chunk_y,
            ) by {
                let other = self.rule(t, i);
                if other.ident() == tested.ident() {
                    lemma_same_plane_chunk(other, tested, size, chunk_x, chunk_y);
                }
            }
            lemma_place_in_chunk(size.w as int, chunk_x, column);
            lemma_place_in_chunk(size.h as int, chunk_y, row);
            assert(tested.passes(filled, size, x, y) == tested.holds_at(
                size,
                chunk_x,
                chunk_y,
                column,
                row,
            ));
            if tested.passes(filled, size, x, y) {
                self.lemma_all_pass_sound(tile, from + 1, filled, chunk_x, chunk_y, column, row);
            }
        }
    }
}

impl<T> World<T> {
    /// Where identities stand for one noise map each, and the chunks at
    /// hand are those of the world's noise maps, the tile found with the
    /// chunks at hand is the first tile whose constraints hold, and the
    /// chunks at hand stay those of the world's noise maps.
    pub proof fn lemma_first_pass_sound(
        &self,
        from: int,
        memo: Map<u64, Seq<Seq<int>>>,
        chunk_x: int,
        chunk_y: int,
        column: int,
        row: int,
    )
        requires
            self.coherent(),
            self.memo_sound(memo, self@.size, chunk_x, chunk_y),
            0 <= from <= self@.tiles.len(),
            0 <= column < self@.size.w,
            0 <= row < self@.size.h,
        ensures
            ({
                let outcome = first_pass(
                    self@.tiles,
                    from,
                    memo,
                    self@.size,
                    chunk_x,
                    chunk_y,
                    chunk_x * self@.size.w + column,
                    chunk_y * self@.size.h + row,
                );
                &&& self.memo_sound(outcome.1, self@.size, chunk_x, chunk_y)
                &&& outcome.0 == self.first_match_from(chunk_x, chunk_y, column, row, from)
            }),
        decreases self@.tiles.len() - from,
    {
        if from < self@.tiles.len() {
            self.lemma_all_pass_sound(from, 0, memo, chunk_x, chunk_y, column, row);
            let tried = all_pass(
                self@.tiles[from]@.constraints,
                0,
                memo,
                self@.size,
                chunk_x,
                chunk_y,
                chunk_x * self@.size.w + column,
                chunk_y * self@.size.h + row,
            );
            assert(tried.0 == self@.tiles[from].holds_at(
                self@.size,
                chunk_x,
                chunk_y,
                column,
                row,
            ));
            if !tried.0 {
                self.lemma_first_pass_sound(from + 1, tried.1, chunk_x, chunk_y, column, row);
            }
        }
    }

    /// Where identities stand for one noise map each, the chunks at hand
    /// at any cell are those of the world's noise maps.
    pub proof fn lemma_memo_at_sound(&self, chunk_x: int, chunk_y: int, row: int, column: int)
        requires
            self.coherent(),
            0 <= row < self@.size.h,
            0 <= column <= self@.size.columns(),
        ensures
            self.memo_sound(
                self.memo_at(chunk_x, chunk_y, row, column),
                self@.size,
                chunk_x,
                chunk_y,
            ),
        decreases row, column,
    {
        if column > 0 {
            self.lemma_memo_at_sound(chunk_x, chunk_y, row, column - 1);
            self.lemma_first_pass_sound(
                0,
                self.memo_at(chunk_x, chunk_y, row, column - 1),
                chunk_x,
                chunk_y,
                column - 1,
                row,
            );
        } else if row > 0 {
            self.lemma_memo_at_sound(chunk_x, chunk_y, row - 1, self@.size.columns() as int);
        }
    }

    /// Keeping chunks at hand changes nothing: where identities stand for
    /// one noise map each, the tile found for a cell is the first tile
    /// whose constraints all hold at the cell.
    pub proof fn lemma_tile_for_first_match(
        &self,
        chunk_x: int,
        chunk_y: int,
        column: int,
        row: int,
    )
        requires
            self.coherent(),
            0 <= column < self@.size.w,
            0 <= row < self@.size.h,
        ensures
            self.tile_for(chunk_x, chunk_y, column, row) == self.first_match(
                chunk_x,
                chunk_y,
                column,
                row,
            ),
    {
        self.lemma_memo_at_sound(chunk_x, chunk_y, row, column);
        self.lemma_first_pass_sound(
            0,
            self.memo_at(chunk_x, chunk_y, row, column),
            chunk_x,
            chunk_y,
            column,
            row,
        );
    }

    /// The tiles are tried in their order: the tile found from `from` on
    /// holds at the cell, and no tile between `from` and it does; where
    /// none is found, no tile from `from` on holds at the cell.
    pub proof fn lemma_first_match_least(
        &self,
        chunk_x: int,
        chunk_y: int,
        column: int,
        row: int,
        from: int,
    )
        requires
            0 <= from,
        ensures
            match self.first_match_from(chunk_x, chunk_y, column, row, from) {
                Some(tile) => {
                    &&& from <= tile < self@.tiles.len()
                    &&& self@.tiles[tile].holds_at(self@.size, chunk_x, chunk_y, column, row)
                    &&& forall|earlier: int|
                        from <= earlier < tile ==> !(#[trigger] self@.tiles[earlier]).holds_at(
                            self@.size,
                            chunk_x,
                            chunk_y,
                            column,
                            row,
                        )
                },
                None => forall|tile: int|
                    from <= tile < self@.tiles.len() ==> !(#[trigger] self@.tiles[tile]).holds_at(
                        self@.size,
                        chunk_x,
                        chunk_y,
                        column,
                        row,
                    ),
            },
        decreases self@.tiles.len() - from,
    {
        if from < self@.tiles.len() && !self@.tiles[from].holds_at(
            self@.size,
            chunk_x,
            chunk_y,
            column,
            row,
        ) {
            self.lemma_first_match_least(chunk_x, chunk_y, column, row, from + 1);
        }
    }
}

impl<T: Clone> World<T> {
    /// Where identities stand for one noise map each, a result that has
    /// the tiles found with the chunks at hand has the first tiles whose
    /// constraints hold.
    pub proof fn lemma_tiled_alike(
        &self,
        chunk_x: int,
        chunk_y: int,
        result: Result<Vec<Vec<T>>, Unclassified>,
    )
        requires
            self.coherent(),
            self.tiled(
                |column: int, row: int| self.tile_for(chunk_x, chunk_y, column, row),
                chunk_x,
                chunk_y,
                result,
            ),
        ensures
            self.tiled(
                |column: int, row: int| self.first_match(chunk_x, chunk_y, column, row),
                chunk_x,
                chunk_y,
                result,
            ),
    {
        let found = |column: int, row: int| self.tile_for(chunk_x, chunk_y, column, row);
        let first = |column: int, row: int| self.first_match(chunk_x, chunk_y, column, row);
        assert forall|column: int, row: int|
            0 <= column < self@.size.w && 0 <= row < self@.size.h implies #[trigger] first(
            column,
            row,
        ) == found(column, row) by {
            self.lemma_tile_for_first_match(chunk_x, chunk_y, column, row);
        }
    }
}

} // verus!
