//! Grid dimensions and the mapping between grid positions and linear indices.

use vstd::prelude::*;

verus! {

/// Number of columns of the grid, the row-separator column included.
pub const WIDTH: usize = 40;

/// Number of rows of the grid.
pub const HEIGHT: usize = 6;

/// Number of cells of the grid.
pub const AREA: usize = WIDTH * HEIGHT;

/// Columns at the start of each row that never show the message.
pub const PADDING: usize = 2;

/// The row of the cell at linear index `i`.
pub open spec fn row_of(i: int) -> int {
    i / (WIDTH as int)
}

/// The column of the cell at linear index `i`.
pub open spec fn col_of(i: int) -> int {
    i % (WIDTH as int)
}

/// The linear index of the cell under a pointer that lies `column` whole
/// glyphs to the right of and `row` whole lines below the surface's top-left
/// corner. Columns are counted from one on screen, so the index is one less
/// than `row * WIDTH + column`; a pointer in the leftmost glyph of a row thus
/// falls on the last cell of the row above. Only the top-left glyph, whose
/// index would be negative, has no cell.
pub open spec fn pointer_cell(column: int, row: int) -> Option<int> {
    let i = row * (WIDTH as int) + column - 1;
    if i >= 0 {
        Some(i)
    } else {
        None
    }
}

/// The linear index of the cell under a pointer at whole-glyph position
/// (`column`, `row`), or `None` where there is none (the top-left glyph, or
/// an index that a `usize` cannot hold). The index may lie beyond the grid:
/// callers test it against `AREA` before they use it.
pub fn pointer_cell_index(column: usize, row: usize) -> (r: Option<usize>)
    ensures
        r == (match pointer_cell(column as int, row as int) {
            Some(i) => if i <= usize::MAX { Some(i as usize) } else { None },
            None => None,
        }),
{
    match row.checked_mul(WIDTH) {
        Some(base) => {
            if column >= 1 {
                base.checked_add(column - 1)
            } else if base >= 1 {
                Some(base - 1)
            } else {
                None
            }
        },
        None => None,
    }
}

} // verus!
