//! The playing field: a fixed grid of cells addressed by column and row.

use vstd::prelude::*;

verus! {

/// Number of columns of the grid.
pub const WIDTH: u16 = 40;

/// Number of rows of the grid.
pub const HEIGHT: u16 = 20;

/// A position `(x, y)`: column `x`, row `y`. Row 0 is the top row. Not every
/// cell lies on the grid; see [`on_grid`].
pub type Cell = (u16, u16);

/// Whether the point `(x, y)` of the integer plane lies on the grid.
pub open spec fn in_grid(x: int, y: int) -> bool {
    0 <= x < WIDTH && 0 <= y < HEIGHT
}

/// Whether a cell lies on the grid.
pub open spec fn on_grid(c: Cell) -> bool {
    in_grid(c.0 as int, c.1 as int)
}

/// Tells whether a cell lies on the grid.
pub fn cell_on_grid(c: Cell) -> (r: bool)
    ensures
        r == on_grid(c),
{
    c.0 < WIDTH && c.1 < HEIGHT
}

} // verus!
