//! A grid snake game engine: a fixed grid, a snake that moves one cell per
//! step, food that makes it grow, and a terminal flag that is raised when a
//! move would leave the grid.
//!
//! The engine has no clock and does no input or output. A caller holds one
//! [`GameState`] and drives it with [`GameState::reset`],
//! [`GameState::set_direction`] and [`GameState::step`], or hands a move
//! request's direction token to [`GameState::apply_move`].

pub mod direction;
pub mod food;
pub mod game;
pub mod grid;
pub mod snake;

pub use crate::direction::Direction;
pub use crate::game::{GameState, Snapshot};
pub use crate::grid::{Cell, HEIGHT, WIDTH};
pub use crate::snake::Snake;
