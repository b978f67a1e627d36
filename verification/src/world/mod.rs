//! For generating maps of specific objects based on thresholds.
//!
//! Once we have a noise map we can use a `World` and generate a map of
//! specific tiles using threshold constraints. The tiles of a world are
//! tried in the order in which they were added, and the first tile whose
//! constraints all hold at a cell is chosen for it.
//!
//! While a chunk is generated, the chunk of each noise map is kept under
//! the identity of the map, and generated once. Noise maps are expected to
//! carry one identity only where they are the same map.

use vstd::prelude::*;
use std::collections::HashMap;

use self::property::Property;
pub use self::memo::{
    first_pass, lemma_place_in_chunk, lemma_same_plane_chunk, memo_agrees, same_plane,
};
pub use self::property::Size;
pub use self::tile::Tile;
use self::tile::{memo_fits, memo_view};

pub mod tile;

mod memo;
mod property;

verus! {

/// A cell that no tile of a world applies to.
#[derive(Copy, Clone, Debug, PartialEq, Eq)]
pub struct Unclassified {
    /// The chunk that was being generated.
    pub chunk_x: i64,
    pub chunk_y: i64,
    /// The column of the cell in the chunk.
    pub x: i64,
    /// The row of the cell in the chunk.
    pub y: i64,
}

/// What a `World` is made of.
pub struct WorldView<T> {
    pub tiles: Seq<Tile<T>>,
    pub size: Size,
}

/// The World class.
///
/// `T` is the type for each tile. See the module documentation for more
/// information.
pub struct World<T> {
    tiles: Vec<Tile<T>>,
    size: Size,
}

impl<T> View for World<T> {
    type V = WorldView<T>;

    closed spec fn view(&self) -> WorldView<T> {
        WorldView { tiles: self.tiles@, size: self.size }
    }
}

impl<T> Default for World<T> {
    fn default() -> (world: World<T>)
        ensures
            world@ == (WorldView { tiles: Seq::<Tile<T>>::empty(), size: Size { w: 0, h: 0 } }),
    {
        World { tiles: Vec::new(), size: Default::default() }
    }
}

impl<T: Clone> World<T> {
    /// Whether `result` is what generating a chunk gives where `choice`
    /// tells the tile of each cell by its column and row: a grid in which
    /// each cell holds a clone of the value of its tile; or, where some
    /// cell has no tile, the first such cell, row by row.
    pub open spec fn tiled(
        &self,
        choice: spec_fn(int, int) -> Option<int>,
        chunk_x: int,
        chunk_y: int,
        result: Result<Vec<Vec<T>>, Unclassified>,
    ) -> bool {
        match result {
            Ok(grid) => {
                &&& grid@.len() == self@.size.rows()
                &&& forall|r: int|
                    0 <= r < self@.size.rows() ==> (#[trigger] grid@[r])@.len()
                        == self@.size.columns()
                &&& forall|r: int, c: int|
                    0 <= r < self@.size.rows() && 0 <= c < self@.size.columns() ==> self.chosen(
                        choice(c, r),
                        #[trigger] grid@[r]@[c],
                    )
            },
            Err(cell) => {
                &&& cell.chunk_x == chunk_x
                &&& cell.chunk_y == chunk_y
                &&& 0 <= cell.x < self@.size.w
                &&& 0 <= cell.y < self@.size.h
                &&& choice(cell.x as int, cell.y as int) is None
                &&& forall|r: int, c: int|
                    0 <= c < self@.size.w && (0 <= r < cell.y || (r == cell.y && c < cell.x))
                        ==> (#[trigger] choice(c, r)) is Some
            },
        }
    }

    /// Whether `value` is a clone of the value of the tile `tile`.
    pub open spec fn chosen(&self, tile: Option<int>, value: T) -> bool {
        match tile {
            Some(tile) => 0 <= tile < self@.tiles.len() && cloned(self@.tiles[tile]@.value, value),
            None => false,
        }
    }

    /// Constructs a new world, without tiles and with chunks of no size.
    pub fn new() -> (world: World<T>)
        ensures
            world@ == (WorldView { tiles: Seq::<Tile<T>>::empty(), size: Size { w: 0, h: 0 } }),
    {
        World { tiles: Vec::new(), ..World::default() }
    }

    /// Add a tile definition to the world, behind those it has.
    pub fn add(self, tile: Tile<T>) -> (world: World<T>)
        ensures
            world@ == (WorldView { tiles: self@.tiles.push(tile), ..self@ }),
    {
        let mut new = self;
        new.tiles.push(tile);
        new
    }

    /// Set a property on the world
    pub fn set<P: Property>(self, property: P) -> (world: World<T>)
        ensures
            world@ == (WorldView { size: property.applied(self@.size), ..self@ }),
    {
        property.set_to(self)
    }

    /// Sets the size of the chunks of the world.
    pub fn set_size(self, size: Size) -> (world: World<T>)
        ensures
            world@ == (WorldView { size: size, ..self@ }),
    {
        let mut new = self;
        new.size = size;
        new
    }

    /// Tells whether the chunk `(chunk_x, chunk_y)` of the world can be
    /// generated: whether its grid coordinates fit in an `i64`.
    pub fn can_reach(&self, chunk_x: i64, chunk_y: i64) -> (ok: bool)
        ensures
            ok == self@.size.reaches(chunk_x as int, chunk_y as int),
    {
        self.size.can_reach(chunk_x, chunk_y)
    }

    /// Finds the first tile whose constraints are all satisfied at the
    /// cell in row `row` and column `column` of the chunk.
    fn find_tile(
        &self,
        column: i64,
        row: i64,
        chunk_x: i64,
        chunk_y: i64,
        nms: &mut HashMap<u64, Vec<Vec<i64>>>,
    ) -> (found: Option<usize>)
        requires
            0 <= column < self@.size.w,
            0 <= row < self@.size.h,
            self@.size.reaches(chunk_x as int, chunk_y as int),
            memo_fits(memo_view(old(nms)@), self@.size),
        ensures
            memo_fits(memo_view(final(nms)@), self@.size),
            found matches Some(tile) ==> tile < self@.tiles.len(),
            (
                match found {
                    Some(tile) => Some(tile as int),
                    None => None,
                },
                memo_view(final(nms)@),
            ) == first_pass(
                self@.tiles,
                0,
                memo_view(old(nms)@),
                self@.size,
                chunk_x as int,
                chunk_y as int,
                chunk_x * self@.size.w + column,
                chunk_y * self@.size.h + row,
            ),
    {
        assert((chunk_x + 1) * self.size.w == chunk_x * self.size.w + self.size.w)
            by (nonlinear_arith);
        assert((chunk_y + 1) * self.size.h == chunk_y * self.size.h + self.size.h)
            by (nonlinear_arith);
        let x: i64 = chunk_x * self.size.w + column;
        let y: i64 = chunk_y * self.size.h + row;
        let mut t: usize = 0;
        while t < self.tiles.len()
            invariant
                x == chunk_x * self@.size.w + column,
                y == chunk_y * self@.size.h + row,
                self@.size == self.size,
                self@.tiles == self.tiles@,
                self@.size.w > 0,
                self@.size.h > 0,
                self@.size.reaches(chunk_x as int, chunk_y as int),
                memo_fits(memo_view(nms@), self@.size),
                t <= self.tiles@.len(),
                first_pass(
                    self@.tiles,
                    t as int,
                    memo_view(nms@),
                    self@.size,
                    chunk_x as int,
                    chunk_y as int,
                    x as int,
                    y as int,
                ) == first_pass(
                    self@.tiles,
                    0,
                    memo_view(old(nms)@),
                    self@.size,
                    chunk_x as int,
                    chunk_y as int,
                    x as int,
                    y as int,
                ),
            decreases self.tiles@.len() - t,
        {
            if self.tiles[t].satisfied_by(x, y, self.size, chunk_x, chunk_y, nms) {
                return Some(t);
            }
            t = t + 1;
        }
        None
    }

    /// Generates the chunk `(chunk_x, chunk_y)` of the world: for each
    /// cell the value of the first tile whose constraints all hold there.
    /// Where a cell has no such tile, the first such cell is returned, and
    /// no grid.
    ///
    /// The cells are gone through row by row, and the tiles in their order
    /// for each. The chunk of a noise map is generated when a constraint on
    /// it is first tested, and kept at hand under the identity of the map
    /// for the rest of the call.
    pub fn classify(&self, chunk_x: i64, chunk_y: i64) -> (result: Result<
        Vec<Vec<T>>,
        Unclassified,
    >)
        requires
            self@.size.reaches(chunk_x as int, chunk_y as int),
        ensures
            self.tiled(
                |column: int, row: int| self.tile_for(chunk_x as int, chunk_y as int, column, row),
                chunk_x as int,
                chunk_y as int,
                result,
            ),
            self.coherent() ==> self.tiled(
                |column: int, row: int|
                    self.first_match(chunk_x as int, chunk_y as int, column, row),
                chunk_x as int,
                chunk_y as int,
                result,
            ),
    {
        let mut nms: HashMap<u64, Vec<Vec<i64>>> = HashMap::new();
        let mut grid: Vec<Vec<T>> = Vec::new();
        let mut r: i64 = 0;
        proof {
        }
        while r < self.size.h
            invariant
                self@.size == self.size,
                self@.tiles == self.tiles@,
                self@.size.reaches(chunk_x as int, chunk_y as int),
                memo_fits(memo_view(nms@), self@.size),
                memo_view(nms@) == self.memo_at(chunk_x as int, chunk_y as int, r as int, 0),
                0 <= r <= self@.size.rows(),
                grid@.len() == r,
                forall|i: int| 0 <= i < r ==> (#[trigger] grid@[i])@.len() == self@.size.columns(),
                forall|i: int, j: int|
                    0 <= i < r && 0 <= j < self@.size.columns() ==> self.chosen(
                        self.tile_for(chunk_x as int, chunk_y as int, j, i),
                        #[trigger] grid@[i]@[j],
                    ),
                forall|i: int, j: int|
                    0 <= i < r && 0 <= j < self@.size.columns() ==> (#[trigger] self.tile_for(
                        chunk_x as int,
                        chunk_y as int,
                        j,
                        i,
                    )) is Some,
            decreases self.size.h - r,
        {
            let mut row: Vec<T> = Vec::new();
            let mut c: i64 = 0;
            while c < self.size.w
                invariant
                    self@.size == self.size,
                    self@.tiles == self.tiles@,
                    self@.size.reaches(chunk_x as int, chunk_y as int),
                    memo_fits(memo_view(nms@), self@.size),
                    memo_view(nms@) == self.memo_at(
                        chunk_x as int,
                        chunk_y as int,
                        r as int,
                        c as int,
                    ),
                    0 <= r < self@.size.h,
                    0 <= c <= self@.size.columns(),
                    row@.len() == c,
                    forall|j: int|
                        0 <= j < c ==> self.chosen(
                            self.tile_for(chunk_x as int, chunk_y as int, j, r as int),
                            #[trigger] row@[j],
                        ),
                    forall|j: int|
                        0 <= j < c ==> (#[trigger] self.tile_for(
                            chunk_x as int,
                            chunk_y as int,
                            j,
                            r as int,
                        )) is Some,
                    forall|i: int, j: int|
                        0 <= i < r && 0 <= j < self@.size.columns() ==> (
                        #[trigger] self.tile_for(chunk_x as int, chunk_y as int, j, i)) is Some,
                decreases self.size.w - c,
            {
                match self.find_tile(c, r, chunk_x, chunk_y, &mut nms) {
                    Some(tile) => row.push(self.tiles[tile].value()),
                    None => {
                        let result = Err(
                            Unclassified { chunk_x: chunk_x, chunk_y: chunk_y, x: c, y: r },
                        );
                        proof {
                            assert(self.tiled(
                                |column: int, row: int|
                                    self.tile_for(chunk_x as int, chunk_y as int, column, row),
                                chunk_x as int,
                                chunk_y as int,
                                result,
                            ));
                            if self.coherent() {
                                self.lemma_tiled_alike(chunk_x as int, chunk_y as int, result);
                            }
                        }
                        return result;
                    },
                }
                c = c + 1;
            }
            grid.push(row);
            r = r + 1;
        }
        proof {
            assert(self.tiled(
                |column: int, row: int| self.tile_for(chunk_x as int, chunk_y as int, column, row),
                chunk_x as int,
                chunk_y as int,
                Ok(grid),
            ));
            if self.coherent() {
                self.lemma_tiled_alike(chunk_x as int, chunk_y as int, Ok(grid));
            }
        }
        Ok(grid)
    }

    /// Generates the chunk `(chunk_x, chunk_y)` of the world, or nothing
    /// where some cell has no tile.
    pub fn generate(&self, chunk_x: i64, chunk_y: i64) -> (result: Option<Vec<Vec<T>>>)
        requires
            self@.size.reaches(chunk_x as int, chunk_y as int),
        ensures
            match result {
                Some(grid) => self.tiled(
                    |column: int, row: int|
                        self.tile_for(chunk_x as int, chunk_y as int, column, row),
                    chunk_x as int,
                    chunk_y as int,
                    Ok(grid),
                ),
                None => exists|cell: Unclassified|
                    self.tiled(
                        |column: int, row: int|
                            self.tile_for(chunk_x as int, chunk_y as int, column, row),
                        chunk_x as int,
                        chunk_y as int,
                        Err(cell),
                    ),
            },
            self.coherent() ==> match result {
                Some(grid) => self.tiled(
                    |column: int, row: int|
                        self.first_match(chunk_x as int, chunk_y as int, column, row),
                    chunk_x as int,
                    chunk_y as int,
                    Ok(grid),
                ),
                None => exists|cell: Unclassified|
                    self.tiled(
                        |column: int, row: int|
                            self.first_match(chunk_x as int, chunk_y as int, column, row),
                        chunk_x as int,
                        chunk_y as int,
                        Err(cell),
                    ),
            },
    {
        match self.classify(chunk_x, chunk_y) {
            Ok(grid) => Some(grid),
            Err(_) => None,
        }
    }
}

} // verus!
