use vstd::prelude::*;

pub mod board;
pub mod game;
pub mod laws;

pub use board::{BoardGrid, Cell, MoveError, N};
pub use game::{Color, GameEngine, GameView, Outcome};
