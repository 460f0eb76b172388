//! Row-major pinpad grid of NDC rectangles.
//!
//! The grid is a fixed rows x cols matrix, held in an `ndarray` two
//! dimensional array. Verus cannot read that type (its `RawData` bound
//! cannot be declared here), so the matrix sits in an opaque struct whose
//! contents are named by `grid_view` and reached only through small trusted
//! wrappers; the placement logic itself is verified against them.
//!
//! Rectangles are placed by explicit index computation, `cells[col + row *
//! cols]` into `grid[row][col]`, never by consuming the input from the
//! front: front removal strategies can silently reorder the cells, and the
//! row-major meaning of the grid must not depend on any such strategy.

use crate::geometry::NdcRect;
use vstd::prelude::*;

verus! {

/// A row-major grid of NDC rectangles, backed by `ndarray::Array2`. The
/// backing matrix is opaque to verification; `grid_view` names its contents.
#[verifier::external_body]
pub struct RectGrid {
    inner: ndarray::Array2<NdcRect>,
}

/// The contents of a grid, row by row: `grid_view(g)[r][c]` is the
/// rectangle stored at row `r`, column `c` of the backing matrix.
pub uninterp spec fn grid_view(g: RectGrid) -> Seq<Seq<NdcRect>>;

impl RectGrid {
    /// What a grid of the given dimensions looks like: `rows` rows of
    /// `cols` cells each.
    pub open spec fn has_dims(self, rows: int, cols: int) -> bool {
        grid_view(self).len() == rows && forall|r: int|
            0 <= r < rows ==> (#[trigger] grid_view(self)[r]).len() == cols
    }

    /// Relies on `ndarray::Array2::default`: a rows x cols matrix of default
    /// values. With both dimensions below 2^16 the element count stays far
    /// under `isize::MAX`, so the documented overflow panic cannot occur.
    #[verifier::external_body]
    fn new(rows: u16, cols: u16) -> (g: RectGrid)
        ensures
            g.has_dims(rows as int, cols as int),
    {
        RectGrid { inner: ndarray::Array2::default((rows as usize, cols as usize)) }
    }

    /// Relies on `ndarray`'s indexed assignment (`IndexMut` for `Array2`):
    /// stores `v` at row `row`, column `col` and leaves every other cell
    /// unchanged. The bounds precondition rules out its out-of-bounds panic.
    #[verifier::external_body]
    fn set(&mut self, row: u16, col: u16, v: NdcRect)
        requires
            row < grid_view(*old(self)).len(),
            col < grid_view(*old(self))[row as int].len(),
        ensures
            grid_view(*final(self)) == grid_view(*old(self)).update(
                row as int,
                grid_view(*old(self))[row as int].update(col as int, v),
            ),
    {
        self.inner[[row as usize, col as usize]] = v;
    }

    /// Relies on `ndarray`'s indexing (`Index` for `Array2`): returns the
    /// cell at row `row`, column `col`. The bounds precondition rules out
    /// its out-of-bounds panic.
    #[verifier::external_body]
    pub fn get(&self, row: u16, col: u16) -> (r: NdcRect)
        requires
            row < grid_view(*self).len(),
            col < grid_view(*self)[row as int].len(),
        ensures
            r == grid_view(*self)[row as int][col as int],
    {
        self.inner[[row as usize, col as usize]]
    }
}

/// Arranges a flat row-major sequence of NDC rectangles into a rows x cols
/// grid: cell (row, col) receives `cells[col + row * cols]` for every valid
/// row and column.
pub fn build_grid(cells: &Vec<NdcRect>, rows: u16, cols: u16) -> (g: RectGrid)
    requires
        cells.len() == rows * cols,
    ensures
        g.has_dims(rows as int, cols as int),
        forall|r: int, c: int|
            0 <= r < rows && 0 <= c < cols ==> #[trigger] grid_view(g)[r][c] == cells[c + r * (
            cols as int)],
{
    let mut g = RectGrid::new(rows, cols);
    let mut row: u16 = 0;
    while row < rows
        invariant
            cells.len() == rows * cols,
            row <= rows,
            g.has_dims(rows as int, cols as int),
            forall|r: int, c: int|
                0 <= r < row && 0 <= c < cols ==> #[trigger] grid_view(g)[r][c] == cells[c + r * (
                cols as int)],
        decreases rows - row,
    {
        let mut col: u16 = 0;
        while col < cols
            invariant
                cells.len() == rows * cols,
                row < rows,
                col <= cols,
                g.has_dims(rows as int, cols as int),
                forall|r: int, c: int|
                    0 <= r < row && 0 <= c < cols ==> #[trigger] grid_view(g)[r][c] == cells[c + r
                        * (cols as int)],
                forall|c: int|
                    0 <= c < col ==> #[trigger] grid_view(g)[row as int][c] == cells[c + (
                    row as int) * (cols as int)],
            decreases cols - col,
        {
            assert((col as int) + (row as int) * (cols as int) < cells.len()) by (nonlinear_arith)
                requires
                    row < rows,
                    col < cols,
                    cells.len() == rows * cols,
            ;
            let index: usize = (col as usize) + (row as usize) * (cols as usize);
            g.set(row, col, cells[index]);
            col += 1;
        }
        row += 1;
    }
    g
}

} // verus!
