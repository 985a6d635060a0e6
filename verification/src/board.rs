//! The snapshot of a game that the host hands over each turn.

use vstd::prelude::*;
use crate::grid::Coord;

verus! {

/// What identifies the game a turn belongs to.
#[derive(Clone, Debug, PartialEq, Eq)]
pub struct Game {
    pub id: String,
    /// Milliseconds the host waits for an answer.
    pub timeout: u32,
}

/// A snake on the board. `body` runs from the head, at index 0, to the tail.
#[derive(Clone, Debug, PartialEq, Eq)]
pub struct Battlesnake {
    pub id: String,
    pub body: Vec<Coord>,
}

/// The grid as it stands this turn. A cell lies on the board when
/// `x < width` and `y < height`. `snakes` lists every snake still in play,
/// the engine's own among them.
#[derive(Clone, Debug, PartialEq, Eq)]
pub struct Board {
    pub height: u32,
    pub width: u32,
    pub food: Vec<Coord>,
    pub snakes: Vec<Battlesnake>,
}

} // verus!
