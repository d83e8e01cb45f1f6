//! The snake: an ordered run of cells with a facing direction. The head is
//! always a grid cell; growth may place a segment just off the grid.

use vstd::prelude::*;
use crate::direction::Direction;
use crate::grid::{in_grid, on_grid, Cell, HEIGHT, WIDTH};

verus! {

/// Whether the point `(x, y)` of the integer plane can be written as a cell,
/// on the grid or off it.
pub open spec fn representable(x: int, y: int) -> bool {
    0 <= x <= u16::MAX && 0 <= y <= u16::MAX
}

/// The cell reached from `c` by the offset `(dx, dy)`. Meaningful where the
/// target is representable.
pub open spec fn shifted(c: Cell, dx: int, dy: int) -> Cell {
    ((c.0 + dx) as u16, (c.1 + dy) as u16)
}

/// The mathematical value of a snake.
pub struct SnakeView {
    /// The occupied cells, tail first and head last.
    pub body: Seq<Cell>,
    /// The direction the snake faces.
    pub direction: Direction,
    /// Whether a move has run into the edge of the grid.
    pub over: bool,
}

impl SnakeView {
    /// A snake has at least one segment, and its head is a grid cell.
    ///
    /// Segments behind the head need not lie on the grid: growth places a
    /// segment one unit behind the tail without looking at the grid's edge.
    pub open spec fn wf(self) -> bool {
        self.body.len() >= 1 && on_grid(self.body.last())
    }

    /// The snake a game starts with: three segments, facing right, alive.
    pub open spec fn initial() -> SnakeView {
        SnakeView {
            body: seq![(5u16, 5u16), (5u16, 6u16), (5u16, 7u16)],
            direction: Direction::Right,
            over: false,
        }
    }

    /// The head: the last cell of the body.
    pub open spec fn head(self) -> Cell {
        self.body.last()
    }

    /// The tail: the first cell of the body.
    pub open spec fn tail(self) -> Cell {
        self.body.first()
    }

    /// Whether the point one unit ahead of the head lies off the grid.
    pub open spec fn blocked(self) -> bool {
        !in_grid(self.head().0 + self.direction.dx(), self.head().1 + self.direction.dy())
    }

    /// The cell one unit ahead of the head.
    pub open spec fn next_head(self) -> Cell {
        shifted(self.head(), self.direction.dx(), self.direction.dy())
    }

    /// One move forward. A blocked snake stays where it is and is marked
    /// over; otherwise the tail cell is dropped and the cell ahead becomes
    /// the new head.
    pub open spec fn advance(self) -> SnakeView {
        if self.blocked() {
            SnakeView { over: true, ..self }
        } else {
            SnakeView { body: self.body.drop_first().push(self.next_head()), ..self }
        }
    }

    /// A request to face `requested`. Facing the same way again and turning
    /// straight back are both ignored.
    pub open spec fn turn(self, requested: Direction) -> SnakeView {
        if requested == self.direction || requested == self.direction.reverse() {
            self
        } else {
            SnakeView { direction: requested, ..self }
        }
    }

    /// The segment that growth adds: the cell one unit behind the tail,
    /// that is the tail minus the unit vector of the current facing
    /// direction. The grid's edge plays no part, so this cell may lie one
    /// unit off the grid. Only where the point is not representable at all
    /// (a coordinate below 0 or above `u16::MAX`) is it the tail cell itself.
    pub open spec fn next_tail(self) -> Cell {
        if representable(
            self.tail().0 - self.direction.dx(),
            self.tail().1 - self.direction.dy(),
        ) {
            shifted(self.tail(), -self.direction.dx(), -self.direction.dy())
        } else {
            self.tail()
        }
    }

    /// Growth by one segment, added in front of the tail.
    pub open spec fn grow(self) -> SnakeView {
        SnakeView { body: seq![self.next_tail()] + self.body, ..self }
    }
}

/// A snake on the grid.
#[derive(Debug)]
pub struct Snake {
    /// The occupied cells, tail first and head last.
    pub body: Vec<Cell>,
    /// The direction the snake faces.
    pub direction: Direction,
    /// Set once a move has run into the edge of the grid.
    pub invalid: bool,
}

impl View for Snake {
    type V = SnakeView;

    open spec fn view(&self) -> SnakeView {
        SnakeView { body: self.body@, direction: self.direction, over: self.invalid }
    }
}

impl Snake {
    /// Validity of a snake: see [`SnakeView::wf`].
    pub open spec fn wf(&self) -> bool {
        self@.wf()
    }

    /// The starting snake.
    pub fn new() -> (s: Snake)
        ensures
            s@ == SnakeView::initial(),
            s.wf(),
    {
        let mut body: Vec<Cell> = Vec::new();
        body.push((5, 5));
        body.push((5, 6));
        body.push((5, 7));
        assert(body@ =~= SnakeView::initial().body);
        Snake { body, direction: Direction::Right, invalid: false }
    }

    /// Tells whether this value is a valid snake.
    pub fn is_well_formed(&self) -> (r: bool)
        ensures
            r == self.wf(),
    {
        let n: usize = self.body.len();
        if n == 0 {
            return false;
        }
        let head: Cell = self.body[n - 1];
        head.0 < WIDTH && head.1 < HEIGHT
    }

    /// The head cell.
    pub fn head(&self) -> (c: Cell)
        requires
            self.body@.len() >= 1,
        ensures
            c == self@.head(),
    {
        self.body[self.body.len() - 1]
    }

    /// Moves one cell in the facing direction, or, where that would leave
    /// the grid, stays in place and raises the terminal flag.
    pub fn move_forward(&mut self)
        requires
            old(self).wf(),
        ensures
            final(self)@ == old(self)@.advance(),
            final(self).wf(),
    {
        let (head_x, head_y) = self.head();
        let new_head: Cell = match self.direction {
            Direction::Up if head_y > 0 => (head_x, head_y - 1),
            Direction::Down if head_y < HEIGHT - 1 => (head_x, head_y + 1),
            Direction::Left if head_x > 0 => (head_x - 1, head_y),
            Direction::Right if head_x < WIDTH - 1 => (head_x + 1, head_y),
            _ => {
                self.invalid = true;
                return;
            },
        };
        self.body.remove(0);
        self.body.push(new_head);
        assert(self.body@ =~= old(self)@.body.drop_first().push(new_head));
    }

    /// Takes a new facing direction, unless it is the current one or its
    /// exact reverse.
    pub fn change_direction(&mut self, direction: Direction)
        ensures
            final(self)@ == old(self)@.turn(direction),
    {
        if self.direction == Direction::Up && direction == Direction::Down
            || self.direction == Direction::Down && direction == Direction::Up
            || self.direction == Direction::Left && direction == Direction::Right
            || self.direction == Direction::Right && direction == Direction::Left
            || self.direction == direction {
            return;
        }
        self.direction = direction;
    }

    /// Adds one segment one unit behind the tail, going by the facing
    /// direction alone; see [`SnakeView::next_tail`]. The new segment may
    /// lie off the grid. Where a coordinate would fall below 0 or above
    /// `u16::MAX`, the tail cell is repeated instead.
    pub fn grow(&mut self)
        requires
            old(self).body@.len() >= 1,
        ensures
            final(self)@ == old(self)@.grow(),
            old(self).wf() ==> final(self).wf(),
    {
        let (tail_x, tail_y) = self.body[0];
        let new_tail: Cell = match self.direction {
            Direction::Up if tail_y < u16::MAX => (tail_x, tail_y + 1),
            Direction::Down if tail_y > 0 => (tail_x, tail_y - 1),
            Direction::Left if tail_x < u16::MAX => (tail_x + 1, tail_y),
            Direction::Right if tail_x > 0 => (tail_x - 1, tail_y),
            _ => (tail_x, tail_y),
        };
        self.body.insert(0, new_tail);
        assert(self.body@ =~= seq![new_tail] + old(self)@.body);
    }
}

/// A move keeps the snake valid and never changes its length.
pub proof fn advance_keeps_shape(s: SnakeView)
    requires
        s.wf(),
    ensures
        s.advance().wf(),
        s.advance().body.len() == s.body.len(),
        s.advance().direction == s.direction,
{
}

/// A snake whose head is at the edge it faces does not move: its body stays
/// as it was and it is marked over.
pub proof fn blocked_snake_halts(s: SnakeView)
    requires
        s.wf(),
        s.blocked(),
    ensures
        s.advance().body == s.body,
        s.advance().over,
{
}

/// A snake that is not blocked moves its head by exactly the unit vector of
/// its direction, and whether it is over does not change.
pub proof fn free_snake_moves_one_unit(s: SnakeView)
    requires
        s.wf(),
        !s.blocked(),
    ensures
        s.advance().head().0 == s.head().0 + s.direction.dx(),
        s.advance().head().1 == s.head().1 + s.direction.dy(),
        s.advance().over == s.over,
        forall|i: int| 0 <= i < s.body.len() - 1 ==> s.advance().body[i] == s.body[i + 1],
{
}

/// The grid does not wrap around: a move never takes the head from one edge
/// to the opposite one. In each axis the head's coordinate changes by at
/// most one, and a snake that faces the edge it is at is stopped there.
pub proof fn advance_never_wraps(s: SnakeView)
    requires
        s.wf(),
    ensures
        -1 <= s.advance().head().0 - s.head().0 <= 1,
        -1 <= s.advance().head().1 - s.head().1 <= 1,
        s.direction == Direction::Left && s.head().0 == 0 ==> s.advance().over
            && s.advance().head() == s.head(),
        s.direction == Direction::Right && s.head().0 == WIDTH - 1 ==> s.advance().over
            && s.advance().head() == s.head(),
        s.direction == Direction::Up && s.head().1 == 0 ==> s.advance().over
            && s.advance().head() == s.head(),
        s.direction == Direction::Down && s.head().1 == HEIGHT - 1 ==> s.advance().over
            && s.advance().head() == s.head(),
{
}

/// A request to turn straight back changes nothing.
pub proof fn turning_back_is_ignored(s: SnakeView)
    ensures
        s.turn(s.direction.reverse()) == s,
{
}

/// A request to face the way the snake already faces changes nothing.
pub proof fn turning_the_same_way_is_ignored(s: SnakeView)
    ensures
        s.turn(s.direction) == s,
{
}

/// Any other request is taken: the snake then faces the requested direction,
/// and nothing else about it changes.
pub proof fn turning_sideways_is_taken(s: SnakeView, requested: Direction)
    requires
        requested != s.direction,
        requested != s.direction.reverse(),
    ensures
        s.turn(requested).direction == requested,
        s.turn(requested).body == s.body,
        s.turn(requested).over == s.over,
{
}

/// Growth adds exactly one segment in front of the tail and leaves
/// everything else, the head included, as it was. A valid snake stays valid.
pub proof fn grow_adds_one_segment(s: SnakeView)
    requires
        s.body.len() >= 1,
    ensures
        s.grow().body.len() == s.body.len() + 1,
        s.grow().body.first() == s.next_tail(),
        s.grow().body.drop_first() == s.body,
        s.grow().head() == s.head(),
        s.grow().direction == s.direction,
        s.grow().over == s.over,
        s.wf() ==> s.grow().wf(),
{
    assert(s.grow().body.drop_first() =~= s.body);
}

/// The new segment lies exactly one unit behind the tail: the tail minus the
/// unit vector of the facing direction. This holds wherever that point is
/// representable, whether or not it lies on the grid: always when the tail
/// is a grid cell and the snake faces up or left; when it faces right, for a
/// tail beyond column 0; when it faces down, for a tail beyond row 0.
pub proof fn growth_steps_back_one_unit(s: SnakeView)
    requires
        s.body.len() >= 1,
        s.direction == Direction::Right ==> s.tail().0 >= 1,
        s.direction == Direction::Down ==> s.tail().1 >= 1,
        s.direction == Direction::Left ==> s.tail().0 < u16::MAX,
        s.direction == Direction::Up ==> s.tail().1 < u16::MAX,
    ensures
        s.next_tail().0 == s.tail().0 - s.direction.dx(),
        s.next_tail().1 == s.tail().1 - s.direction.dy(),
        s.direction == Direction::Up ==> s.next_tail() == (s.tail().0, (s.tail().1 + 1) as u16),
        s.direction == Direction::Down ==> s.next_tail() == (s.tail().0, (s.tail().1 - 1) as u16),
        s.direction == Direction::Left ==> s.next_tail() == ((s.tail().0 + 1) as u16, s.tail().1),
        s.direction == Direction::Right ==> s.next_tail() == ((s.tail().0 - 1) as u16, s.tail().1),
{
}

/// Where the point behind the tail is not representable, growth repeats the
/// tail cell: facing right with the tail in column 0, facing down with the
/// tail in row 0, and, far off the grid, facing left or up with the tail's
/// coordinate at `u16::MAX`.
pub proof fn growth_repeats_the_tail_at_the_limit(s: SnakeView)
    requires
        s.body.len() >= 1,
        (s.direction == Direction::Right && s.tail().0 == 0) || (s.direction == Direction::Down
            && s.tail().1 == 0) || (s.direction == Direction::Left && s.tail().0 == u16::MAX) || (
        s.direction == Direction::Up && s.tail().1 == u16::MAX),
    ensures
        s.next_tail() == s.tail(),
{
}

} // verus!
