//! What the engine answers outside of a turn.

use vstd::prelude::*;
use crate::board::{Battlesnake, Board, Game};

verus! {

/// How the snake presents itself to the game host.
#[derive(Clone, Copy, Debug, PartialEq, Eq)]
pub struct SnakeInfo {
    pub apiversion: &'static str,
    pub author: &'static str,
    pub color: &'static str,
    pub head: &'static str,
    pub tail: &'static str,
}

/// The snake's card: version 1 of the host's interface, a grey snake with
/// the default head and tail.
pub fn info() -> (card: SnakeInfo)
    ensures
        card.apiversion@ == "1"@,
        card.author@ == "nathanWolo"@,
        card.color@ == "#888888"@,
        card.head@ == "default"@,
        card.tail@ == "default"@,
{
    SnakeInfo {
        apiversion: "1",
        author: "nathanWolo",
        color: "#888888",
        head: "default",
        tail: "default",
    }
}

/// Called when a game begins. The engine carries nothing from one turn to
/// the next, so there is nothing to set up.
pub fn start(_game: &Game, _turn: &u32, _board: &Board, _you: &Battlesnake) {
}

/// Called when a game is over. There is nothing to put away.
pub fn end(_game: &Game, _turn: &u32, _board: &Board, _you: &Battlesnake) {
}

} // verus!
