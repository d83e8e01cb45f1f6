//! The game: a snake, one piece of food, and the operations that drive them.

use vstd::prelude::*;
use crate::direction::Direction;
use crate::food::{free, full, generate_food, random_cell};
use crate::grid::{on_grid, Cell, WIDTH};
use crate::snake::{
    advance_keeps_shape, grow_adds_one_segment, growth_steps_back_one_unit, shifted, Snake,
    SnakeView,
};

verus! {

/// The mathematical value of a game.
pub struct GameView {
    /// The snake.
    pub snake: SnakeView,
    /// The cell that holds the food.
    pub food: Cell,
}

impl GameView {
    /// The snake is valid and the food lies on the grid.
    pub open spec fn wf(self) -> bool {
        self.snake.wf() && on_grid(self.food)
    }

    /// The game after a request to face `requested`.
    pub open spec fn turn(self, requested: Direction) -> GameView {
        GameView { snake: self.snake.turn(requested), ..self }
    }

    /// Whether the next step ends with the head on the food. This is judged
    /// after the move, whether or not the snake could move.
    pub open spec fn eats(self) -> bool {
        !self.snake.over && self.snake.advance().head() == self.food
    }

    /// The game one step later, where `next_food` is the cell that new food
    /// goes to if the food is eaten.
    ///
    /// A game that is over stays as it is. Otherwise the snake moves forward
    /// (or is stopped by the edge); if its head then lies on the food, it
    /// grows and the food moves to `next_food`.
    pub open spec fn step(self, next_food: Cell) -> GameView {
        if self.snake.over {
            self
        } else if self.eats() {
            GameView { snake: self.snake.advance().grow(), food: next_food }
        } else {
            GameView { snake: self.snake.advance(), food: self.food }
        }
    }
}

/// What a caller is shown of a game after an operation.
#[derive(Debug, PartialEq, Eq)]
pub struct Snapshot {
    /// The snake's cells, tail first and head last.
    pub body: Vec<Cell>,
    /// The cell that holds the food.
    pub food: Cell,
    /// Whether the game is over.
    pub game_over: bool,
}

impl Snapshot {
    /// Whether this snapshot shows the game `g`.
    pub open spec fn shows(&self, g: GameView) -> bool {
        self.body@ == g.snake.body && self.food == g.food && self.game_over == g.snake.over
    }
}

/// A game in progress.
#[derive(Debug)]
pub struct GameState {
    /// The snake.
    pub snake: Snake,
    /// The cell that holds the food.
    pub food: Cell,
}

impl View for GameState {
    type V = GameView;

    open spec fn view(&self) -> GameView {
        GameView { snake: self.snake@, food: self.food }
    }
}

/// The starting snake does not fill the grid: the top left cell is free.
pub proof fn starting_snake_leaves_room()
    ensures
        free(SnakeView::initial().body, (0u16, 0u16)),
        !full(SnakeView::initial().body),
{
    let body = SnakeView::initial().body;
    let origin: Cell = (0u16, 0u16);
    assert(on_grid(origin));
    if body.contains(origin) {
        let i = choose|i: int| 0 <= i < body.len() && body[i] == origin;
        assert(body[i].0 == 5);
    }
}

/// A copy of a run of cells.
fn copy_cells(cells: &Vec<Cell>) -> (r: Vec<Cell>)
    ensures
        r@ == cells@,
{
    let n: usize = cells.len();
    let mut r: Vec<Cell> = Vec::new();
    let mut i: usize = 0;
    while i < n
        invariant
            n == cells@.len(),
            i <= n,
            r@ == cells@.subrange(0, i as int),
        decreases n - i,
    {
        r.push(cells[i]);
        assert(r@ =~= cells@.subrange(0, i + 1));
        i += 1;
    }
    assert(r@ =~= cells@);
    r
}

impl GameState {
    /// Validity of a game: see [`GameView::wf`].
    pub open spec fn wf(&self) -> bool {
        self@.wf()
    }

    /// A game as it stands when the program starts: the starting snake, and
    /// food on a random cell, which may be one that the snake occupies.
    pub fn new() -> (g: GameState)
        ensures
            g@.snake == SnakeView::initial(),
            g.wf(),
    {
        GameState { snake: Snake::new(), food: random_cell() }
    }

    /// Tells whether this value is a valid game.
    pub fn is_well_formed(&self) -> (r: bool)
        ensures
            r == self.wf(),
    {
        self.snake.is_well_formed() && crate::grid::cell_on_grid(self.food)
    }

    /// What a caller is shown of the game as it stands.
    pub fn snapshot(&self) -> (s: Snapshot)
        ensures
            s.shows(self@),
    {
        Snapshot { body: copy_cells(&self.snake.body), food: self.food, game_over: self.snake.invalid }
    }

    /// Starts a new game: the starting snake, and food on a random cell
    /// that the snake does not occupy.
    pub fn reset(&mut self) -> (s: Snapshot)
        ensures
            final(self)@.snake == SnakeView::initial(),
            free(SnakeView::initial().body, final(self)@.food),
            final(self).wf(),
            s.shows(final(self)@),
    {
        self.snake = Snake::new();
        proof {
            starting_snake_leaves_room();
        }
        if let Some(c) = generate_food(&self.snake.body) {
            self.food = c;
        }
        self.snapshot()
    }

    /// Asks the snake to face `requested`; see [`SnakeView::turn`].
    pub fn set_direction(&mut self, requested: Direction)
        ensures
            final(self)@ == old(self)@.turn(requested),
    {
        self.snake.change_direction(requested);
    }

    /// The part of a step that involves no chance: the move, and the growth
    /// if the head ends on the food. Returns whether the food was eaten; the
    /// food itself is left where it is.
    pub fn advance(&mut self) -> (ate: bool)
        requires
            old(self).wf(),
        ensures
            ate == old(self)@.eats(),
            final(self)@ == old(self)@.step(old(self)@.food),
            final(self).wf(),
    {
        if self.snake.invalid {
            return false;
        }
        self.snake.move_forward();
        let head: Cell = self.snake.head();
        if head.0 == self.food.0 && head.1 == self.food.1 {
            self.snake.grow();
            true
        } else {
            false
        }
    }

    /// Advances the game by one step.
    ///
    /// The new state is [`GameView::step`] of the old one, with the food that
    /// the game holds afterwards as the new food: where the food was eaten
    /// it has moved to a random cell of the grid, which may be one that the
    /// snake occupies.
    pub fn step(&mut self) -> (s: Snapshot)
        requires
            old(self).wf(),
        ensures
            final(self)@ == old(self)@.step(final(self)@.food),
            final(self).wf(),
            s.shows(final(self)@),
    {
        if self.advance() {
            self.food = random_cell();
        }
        self.snapshot()
    }

    /// Handles a move request: reads the direction token, turns, and steps.
    /// A token that names no direction is refused with `None`, and the game
    /// is left untouched.
    pub fn apply_move(&mut self, token: &[u8]) -> (r: Option<Snapshot>)
        requires
            old(self).wf(),
        ensures
            match Direction::parse(token@) {
                Some(d) => r.is_some() && final(self)@ == old(self)@.turn(d).step(final(self)@.food)
                    && r.unwrap().shows(final(self)@),
                None => r.is_none() && *final(self) == *old(self),
            },
            final(self).wf(),
    {
        match Direction::from_token(token) {
            Some(d) => {
                self.set_direction(d);
                Some(self.step())
            },
            None => None,
        }
    }
}

/// A step keeps a valid game valid, provided the new food lies on the grid.
pub proof fn step_keeps_validity(g: GameView, next_food: Cell)
    requires
        g.wf(),
        on_grid(next_food),
    ensures
        g.step(next_food).wf(),
{
    advance_keeps_shape(g.snake);
    grow_adds_one_segment(g.snake.advance());
}

/// Once a game is over, a step changes nothing.
pub proof fn step_after_the_end_is_idle(g: GameView, next_food: Cell)
    requires
        g.snake.over,
    ensures
        g.step(next_food) == g,
{
}

/// A step of a snake whose head is at the edge it faces leaves the body as
/// it was and ends the game. The one case left out is a running game whose
/// food lies under the head: that food is eaten on the spot, so the snake
/// grows while it halts.
pub proof fn step_at_the_edge_halts(g: GameView, next_food: Cell)
    requires
        g.wf(),
        g.snake.blocked(),
        g.snake.over || g.snake.head() != g.food,
    ensures
        g.step(next_food).snake.body == g.snake.body,
        g.step(next_food).snake.over,
        g.step(next_food).food == g.food,
{
}

/// A step that does not end on the food keeps the length of the snake and
/// leaves the food where it is.
pub proof fn step_without_eating_keeps_length(g: GameView, next_food: Cell)
    requires
        g.wf(),
        !g.eats(),
    ensures
        g.step(next_food).snake.body.len() == g.snake.body.len(),
        g.step(next_food).food == g.food,
{
    advance_keeps_shape(g.snake);
}

/// A step that ends on the food makes the snake one segment longer, keeps
/// its head on the cell where the food was, and puts the new food exactly
/// where it was told to, free or not.
pub proof fn step_with_eating_grows(g: GameView, next_food: Cell)
    requires
        g.wf(),
        g.eats(),
    ensures
        g.step(next_food).snake.body.len() == g.snake.body.len() + 1,
        g.step(next_food).snake.head() == g.food,
        g.step(next_food).food == next_food,
{
    advance_keeps_shape(g.snake);
    grow_adds_one_segment(g.snake.advance());
}

/// The body after a step that moves onto the food, for a snake of two
/// segments or more: the cell one unit behind the old second segment, then
/// the old body without its tail, then the new head. The new first cell is
/// the old second segment minus the unit vector of the facing direction,
/// whether or not that lies on the grid. Left out are only the inputs on
/// which that cell is not representable.
pub proof fn eating_step_body(g: GameView, next_food: Cell)
    requires
        g.wf(),
        g.snake.body.len() >= 2,
        !g.snake.over,
        !g.snake.blocked(),
        g.snake.next_head() == g.food,
        g.snake.direction == Direction::Right ==> g.snake.body[1].0 >= 1,
        g.snake.direction == Direction::Down ==> g.snake.body[1].1 >= 1,
        g.snake.direction == Direction::Left ==> g.snake.body[1].0 < u16::MAX,
        g.snake.direction == Direction::Up ==> g.snake.body[1].1 < u16::MAX,
    ensures
        g.step(next_food).snake.body == seq![
            shifted(g.snake.body[1], -g.snake.direction.dx(), -g.snake.direction.dy()),
        ] + g.snake.body.drop_first() + seq![g.food],
        g.step(next_food).snake.body.first().0 == g.snake.body[1].0 - g.snake.direction.dx(),
        g.step(next_food).snake.body.first().1 == g.snake.body[1].1 - g.snake.direction.dy(),
        g.step(next_food).snake.direction == g.snake.direction,
        !g.step(next_food).snake.over,
        g.step(next_food).food == next_food,
{
    let moved = g.snake.advance();
    assert(moved.body.first() == g.snake.body[1]);
    growth_steps_back_one_unit(moved);
    assert(g.step(next_food).snake.body =~= seq![
        shifted(g.snake.body[1], -g.snake.direction.dx(), -g.snake.direction.dy()),
    ] + g.snake.body.drop_first() + seq![g.food]);
}

/// A request to turn straight back, or to face the same way again, has no
/// effect on the step that follows it.
pub proof fn ignored_turns_do_not_change_the_step(g: GameView, next_food: Cell)
    ensures
        g.turn(g.snake.direction.reverse()) == g,
        g.turn(g.snake.direction) == g,
        g.turn(g.snake.direction.reverse()).step(next_food) == g.step(next_food),
        g.turn(g.snake.direction).step(next_food) == g.step(next_food),
{
}

/// The grid does not wrap around. A step changes each coordinate of the
/// head by at most one, so the head never jumps from one edge to the
/// opposite one.
pub proof fn step_never_wraps(g: GameView, next_food: Cell)
    requires
        g.wf(),
    ensures
        -1 <= g.step(next_food).snake.head().0 - g.snake.head().0 <= 1,
        -1 <= g.step(next_food).snake.head().1 - g.snake.head().1 <= 1,
{
    advance_keeps_shape(g.snake);
    grow_adds_one_segment(g.snake.advance());
}

/// A step to the left from column 0 does not put the head in the last
/// column: the head stays where it is, and the game is over.
pub proof fn step_left_from_the_first_column_ends_the_game(g: GameView, next_food: Cell)
    requires
        g.wf(),
        g.snake.direction == Direction::Left,
        g.snake.head().0 == 0,
    ensures
        g.step(next_food).snake.head() == g.snake.head(),
        g.step(next_food).snake.head().0 != WIDTH - 1,
        g.step(next_food).snake.over,
{
    advance_keeps_shape(g.snake);
    grow_adds_one_segment(g.snake.advance());
}

} // verus!
