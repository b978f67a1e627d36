//! Grids of cells, and what scaling, adding and normalising does to them.

use vstd::prelude::*;
use crate::fixed::{divide, magnitude, quotient};
use super::Size;

verus! {

/// The cells of a grid, row by row.
pub open spec fn grid_view(grid: &Vec<Vec<i64>>) -> Seq<Seq<int>> {
    Seq::new(grid@.len(), |r: int| Seq::new(grid@[r]@.len(), |c: int| grid@[r]@[c] as int))
}

/// The cells of a grid are those of its rows.
pub proof fn lemma_grid_cells(grid: &Vec<Vec<i64>>)
    ensures
        grid_view(grid).len() == grid@.len(),
        forall|r: int|
            0 <= r < grid@.len() ==> (#[trigger] grid_view(grid)[r]).len() == grid@[r]@.len(),
        forall|r: int, c: int|
            0 <= r < grid@.len() && 0 <= c < grid@[r]@.len() ==> #[trigger] grid_view(grid)[r][c]
                == grid@[r]@[c],
{
}

/// Whether no cell exceeds `peak` in magnitude.
pub open spec fn bounded(cells: Seq<Seq<int>>, peak: int) -> bool {
    forall|r: int, c: int|
        0 <= r < cells.len() && 0 <= c < cells[r].len() ==> -peak <= #[trigger] cells[r][c] <= peak
}

/// The chunk `(x, y)` of a plane of values, cut at `size`: row `r` and
/// column `c` hold the value at the grid point
/// `(x * size.w + c, y * size.h + r)`.
pub open spec fn chunk_of(plane: spec_fn(int, int) -> int, size: Size, x: int, y: int) -> Seq<
    Seq<int>,
> {
    Seq::new(
        size.rows(),
        |r: int| Seq::new(size.columns(), |c: int| plane(x * size.w + c, y * size.h + r)),
    )
}

/// The cells of a grid, each multiplied by `factor`.
pub open spec fn scaled_cells(cells: Seq<Seq<int>>, factor: int) -> Seq<Seq<int>> {
    Seq::new(cells.len(), |r: int| Seq::new(cells[r].len(), |c: int| cells[r][c] * factor))
}

/// A value within `peak`, scaled, stays within the scaled peak.
pub proof fn lemma_scaled_within(value: int, scale: int, peak: int)
    requires
        -peak <= value <= peak,
    ensures
        -(magnitude(scale) * peak) <= value * scale <= magnitude(scale) * peak,
{
    let m: int = magnitude(scale);
    assert(-(m * peak) <= value * scale <= m * peak) by (nonlinear_arith)
        requires
            -peak <= value <= peak,
            m == scale || m == -scale,
            m >= 0,
    ;
}

/// Multiplies each cell of a grid by `scale`.
pub(super) fn scale_cells(grid: &Vec<Vec<i64>>, scale: i64) -> (out: Vec<Vec<i64>>)
    requires
        forall|r: int, c: int|
            0 <= r < grid@.len() && 0 <= c < grid@[r]@.len() ==> i64::MIN <= (
            #[trigger] grid@[r]@[c]) * scale <= i64::MAX,
    ensures
        grid_view(&out) == scaled_cells(grid_view(grid), scale as int),
{
    let mut out: Vec<Vec<i64>> = Vec::new();
    let mut r: usize = 0;
    while r < grid.len()
        invariant
            r <= grid@.len(),
            out@.len() == r,
            forall|i: int| 0 <= i < r ==> (#[trigger] out@[i])@.len() == grid@[i]@.len(),
            forall|i: int, j: int|
                0 <= i < r && 0 <= j < grid@[i]@.len() ==> #[trigger] out@[i]@[j] == grid@[i]@[j]
                    * scale,
            forall|i: int, j: int|
                0 <= i < grid@.len() && 0 <= j < grid@[i]@.len() ==> i64::MIN <= (
                #[trigger] grid@[i]@[j]) * scale <= i64::MAX,
        decreases grid@.len() - r,
    {
        let source: &Vec<i64> = &grid[r];
        let mut row: Vec<i64> = Vec::new();
        let mut c: usize = 0;
        while c < source.len()
            invariant
                r < grid@.len(),
                source@ == grid@[r as int]@,
                c <= source@.len(),
                row@.len() == c,
                forall|j: int| 0 <= j < c ==> #[trigger] row@[j] == source@[j] * scale,
                forall|j: int|
                    0 <= j < source@.len() ==> i64::MIN <= (#[trigger] source@[j]) * scale
                        <= i64::MAX,
            decreases source@.len() - c,
        {
            row.push(source[c] * scale);
            c = c + 1;
        }
        out.push(row);
        r = r + 1;
    }
    assert(grid_view(&out) =~~= scaled_cells(grid_view(grid), scale as int));
    out
}

/// The sums of the cells of two grids of one shape.
pub open spec fn summed_cells(first: Seq<Seq<int>>, second: Seq<Seq<int>>) -> Seq<Seq<int>> {
    Seq::new(
        first.len(),
        |r: int| Seq::new(first[r].len(), |c: int| first[r][c] + second[r][c]),
    )
}

/// The cells of a grid, each divided by `divisor` and rounded towards zero.
pub open spec fn normalised_cells(cells: Seq<Seq<int>>, divisor: int) -> Seq<Seq<int>> {
    Seq::new(
        cells.len(),
        |r: int| Seq::new(cells[r].len(), |c: int| quotient(cells[r][c], divisor)),
    )
}

/// Adds two grids of one shape, cell by cell.
pub(super) fn add_cells(first: &Vec<Vec<i64>>, second: &Vec<Vec<i64>>) -> (out: Vec<Vec<i64>>)
    requires
        first@.len() == second@.len(),
        forall|r: int| 0 <= r < first@.len() ==> (#[trigger] first@[r])@.len() == second@[r]@.len(),
        forall|r: int, c: int|
            0 <= r < first@.len() && 0 <= c < first@[r]@.len() ==> i64::MIN <= (
            #[trigger] first@[r]@[c]) + second@[r]@[c] <= i64::MAX,
    ensures
        grid_view(&out) == summed_cells(grid_view(first), grid_view(second)),
{
    let mut out: Vec<Vec<i64>> = Vec::new();
    let mut r: usize = 0;
    while r < first.len()
        invariant
            r <= first@.len(),
            first@.len() == second@.len(),
            out@.len() == r,
            forall|i: int|
                0 <= i < first@.len() ==> (#[trigger] first@[i])@.len() == second@[i]@.len(),
            forall|i: int| 0 <= i < r ==> (#[trigger] out@[i])@.len() == first@[i]@.len(),
            forall|i: int, j: int|
                0 <= i < r && 0 <= j < first@[i]@.len() ==> #[trigger] out@[i]@[j] == first@[i]@[j]
                    + second@[i]@[j],
            forall|i: int, j: int|
                0 <= i < first@.len() && 0 <= j < first@[i]@.len() ==> i64::MIN <= (
                #[trigger] first@[i]@[j]) + second@[i]@[j] <= i64::MAX,
        decreases first@.len() - r,
    {
        let left: &Vec<i64> = &first[r];
        let right: &Vec<i64> = &second[r];
        let mut row: Vec<i64> = Vec::new();
        let mut c: usize = 0;
        while c < left.len()
            invariant
                r < first@.len(),
                left@ == first@[r as int]@,
                right@ == second@[r as int]@,
                left@.len() == right@.len(),
                c <= left@.len(),
                row@.len() == c,
                forall|j: int| 0 <= j < c ==> #[trigger] row@[j] == left@[j] + right@[j],
                forall|j: int|
                    0 <= j < left@.len() ==> i64::MIN <= (#[trigger] left@[j]) + right@[j]
                        <= i64::MAX,
            decreases left@.len() - c,
        {
            row.push(left[c] + right[c]);
            c = c + 1;
        }
        out.push(row);
        r = r + 1;
    }
    assert(grid_view(&out) =~~= summed_cells(grid_view(first), grid_view(second)));
    out
}

/// Divides each cell of a grid by `divisor`, rounding towards zero.
pub(super) fn normalise_cells(grid: &Vec<Vec<i64>>, divisor: i64) -> (out: Vec<Vec<i64>>)
    requires
        divisor != 0,
        forall|r: int, c: int|
            0 <= r < grid@.len() && 0 <= c < grid@[r]@.len() ==> i64::MIN < #[trigger] grid@[r]@[c],
    ensures
        grid_view(&out) == normalised_cells(grid_view(grid), divisor as int),
{
    let mut out: Vec<Vec<i64>> = Vec::new();
    let mut r: usize = 0;
    while r < grid.len()
        invariant
            divisor != 0,
            r <= grid@.len(),
            out@.len() == r,
            forall|i: int| 0 <= i < r ==> (#[trigger] out@[i])@.len() == grid@[i]@.len(),
            forall|i: int, j: int|
                0 <= i < r && 0 <= j < grid@[i]@.len() ==> #[trigger] out@[i]@[j] == quotient(
                    grid@[i]@[j] as int,
                    divisor as int,
                ),
            forall|i: int, j: int|
                0 <= i < grid@.len() && 0 <= j < grid@[i]@.len() ==> i64::MIN
                    < #[trigger] grid@[i]@[j],
        decreases grid@.len() - r,
    {
        let source: &Vec<i64> = &grid[r];
        let mut row: Vec<i64> = Vec::new();
        let mut c: usize = 0;
        while c < source.len()
            invariant
                divisor != 0,
                r < grid@.len(),
                source@ == grid@[r as int]@,
                c <= source@.len(),
                row@.len() == c,
                forall|j: int|
                    0 <= j < c ==> #[trigger] row@[j] == quotient(
                        source@[j] as int,
                        divisor as int,
                    ),
                forall|j: int| 0 <= j < source@.len() ==> i64::MIN < #[trigger] source@[j],
            decreases source@.len() - c,
        {
            row.push(divide(source[c], divisor));
            c = c + 1;
        }
        out.push(row);
        r = r + 1;
    }
    assert(grid_view(&out) =~~= normalised_cells(grid_view(grid), divisor as int));
    out
}

} // verus!
