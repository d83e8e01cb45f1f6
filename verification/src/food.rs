//! Food placement: random cells, and the search for a cell the snake does
//! not occupy.

use vstd::prelude::*;
use crate::grid::{on_grid, Cell, HEIGHT, WIDTH};

verus! {

/// How many random cells [`generate_food`] tries before it falls back on
/// the first free cell.
pub const MAX_DRAWS: u32 = 100_000;

/// Whether `c` is a grid cell that `body` does not occupy.
pub open spec fn free(body: Seq<Cell>, c: Cell) -> bool {
    on_grid(c) && !body.contains(c)
}

/// Whether `body` occupies every cell of the grid.
pub open spec fn full(body: Seq<Cell>) -> bool {
    forall|c: Cell| on_grid(c) ==> #[trigger] body.contains(c)
}

/// Position of a cell when the grid is read row by row, left to right.
pub open spec fn rank(c: Cell) -> int {
    c.1 * WIDTH + c.0
}

/// The cell that a pair of raw draws stands for: each draw reduced modulo
/// the grid's extent in its axis.
pub open spec fn cell_of(rx: u16, ry: u16) -> Cell {
    (rx % WIDTH, ry % HEIGHT)
}

/// Calls `rand::random::<u16>()`, which samples a `u16` from the thread-local
/// generator. Nothing is claimed of the value drawn. The call panics only
/// where the operating system yields no entropy to seed or reseed the
/// generator: a failure of the machine, like running out of memory, that no
/// argument could rule out.
#[verifier::external_body]
fn random_u16() -> u16 {
    rand::random::<u16>()
}

/// Folds a pair of raw draws onto the grid.
pub fn cell_of_draws(rx: u16, ry: u16) -> (c: Cell)
    ensures
        c == cell_of(rx, ry),
        on_grid(c),
{
    (rx % WIDTH, ry % HEIGHT)
}

/// One round of the search for food: the candidate that the draws `rx`
/// and `ry` stand for, unless `snake_body` occupies it.
pub fn try_candidate(snake_body: &Vec<Cell>, rx: u16, ry: u16) -> (r: Option<Cell>)
    ensures
        r == (if snake_body@.contains(cell_of(rx, ry)) {
            None::<Cell>
        } else {
            Some(cell_of(rx, ry))
        }),
{
    let candidate: Cell = cell_of_draws(rx, ry);
    if occupies(snake_body, candidate) {
        None
    } else {
        Some(candidate)
    }
}

/// A random cell of the grid: the column is drawn first, then the row.
pub fn random_cell() -> (c: Cell)
    ensures
        on_grid(c),
{
    let rx: u16 = random_u16();
    let ry: u16 = random_u16();
    cell_of_draws(rx, ry)
}

/// Tells whether `cell` is one of the cells of `body`.
pub fn occupies(body: &Vec<Cell>, cell: Cell) -> (r: bool)
    ensures
        r == body@.contains(cell),
{
    let n: usize = body.len();
    let mut i: usize = 0;
    while i < n
        invariant
            n == body@.len(),
            i <= n,
            forall|j: int| 0 <= j < i ==> body@[j] != cell,
        decreases n - i,
    {
        let c: Cell = body[i];
        if c.0 == cell.0 && c.1 == cell.1 {
            assert(body@[i as int] == cell);
            return true;
        }
        i += 1;
    }
    false
}

/// The first cell, reading the grid row by row, that `body` does not
/// occupy; `None` where it occupies them all.
pub fn first_free_cell(body: &Vec<Cell>) -> (r: Option<Cell>)
    ensures
        match r {
            Some(c) => free(body@, c) && forall|o: Cell|
                on_grid(o) && rank(o) < rank(c) ==> #[trigger] body@.contains(o),
            None => full(body@),
        },
{
    let mut y: u16 = 0;
    while y < HEIGHT
        invariant
            y <= HEIGHT,
            forall|o: Cell| on_grid(o) && o.1 < y ==> #[trigger] body@.contains(o),
        decreases HEIGHT - y,
    {
        let mut x: u16 = 0;
        while x < WIDTH
            invariant
                y < HEIGHT,
                x <= WIDTH,
                forall|o: Cell| on_grid(o) && o.1 < y ==> #[trigger] body@.contains(o),
                forall|o: Cell| on_grid(o) && o.1 == y && o.0 < x ==> #[trigger] body@.contains(o),
            decreases WIDTH - x,
        {
            if !occupies(body, (x, y)) {
                assert forall|o: Cell| on_grid(o) && rank(o) < rank((x, y)) implies #[trigger] body@.contains(o) by {
                    if o.1 > y {
                        assert(o.1 * WIDTH >= (y + 1) * WIDTH) by (nonlinear_arith)
                            requires
                                o.1 >= y + 1,
                        ;
                    }
                }
                return Some((x, y));
            }
            x += 1;
        }
        y += 1;
    }
    None
}

/// Picks a random grid cell that `snake_body` does not occupy, or `None`
/// where there is no such cell.
///
/// Each round draws a column and then a row and puts them to
/// [`try_candidate`]; the first candidate that it accepts is returned as it
/// is. After [`MAX_DRAWS`] rounds without one, the first free cell is taken
/// instead ([`first_free_cell`]), so the search always ends. A full grid is
/// answered with `None` before anything is drawn.
pub fn generate_food(snake_body: &Vec<Cell>) -> (food: Option<Cell>)
    ensures
        match food {
            Some(c) => free(snake_body@, c),
            None => full(snake_body@),
        },
{
    let fallback: Option<Cell> = first_free_cell(snake_body);
    if fallback.is_none() {
        return None;
    }
    let mut draws: u32 = 0;
    while draws < MAX_DRAWS
        invariant
            draws <= MAX_DRAWS,
        decreases MAX_DRAWS - draws,
    {
        let rx: u16 = random_u16();
        let ry: u16 = random_u16();
        let choice: Option<Cell> = try_candidate(snake_body, rx, ry);
        if choice.is_some() {
            return choice;
        }
        draws += 1;
    }
    fallback
}

} // verus!
