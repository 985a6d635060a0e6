//! A one-step move chooser for a snake on a rectangular grid.
//!
//! Each turn the engine is handed a snapshot of the board and of its own
//! snake. It rules out the moves that end the game at once, prefers the
//! remaining moves that reach food, and draws one of them at random.

pub mod board;
pub mod food;
pub mod grid;
pub mod hooks;
pub mod intersect;
pub mod moveset;
pub mod safety;
pub mod select;

pub use board::{Battlesnake, Board, Game};
pub use food::check_food;
pub use grid::{Coord, Direction};
pub use hooks::{end, info, start, SnakeInfo};
pub use intersect::find_intersection;
pub use moveset::MoveSet;
pub use safety::remove_suicide;
pub use select::{choose_move, get_move, move_candidates, settle};
