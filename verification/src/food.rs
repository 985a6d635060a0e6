//! The food filter: which moves put the head on food.

use vstd::prelude::*;
use crate::board::{Battlesnake, Board};
use crate::grid::{occupies, step_lands_on, Direction};
use crate::moveset::MoveSet;

verus! {

/// Moving `d` puts the head of `you` on a cell that holds food. Whether the
/// cell lies on the board is not asked: food never lies off it.
pub open spec fn reaches_food(board: &Board, you: &Battlesnake, d: Direction) -> bool {
    you.body@.len() >= 1 && occupies(board.food@, you.body@[0].step(d))
}

/// The moves that reach food in one step.
pub open spec fn food_directions(board: &Board, you: &Battlesnake) -> Set<Direction> {
    Set::new(|d: Direction| reaches_food(board, you, d))
}

/// The moves that put the head of `you` on food: `d` is in the result
/// exactly when the cell one step in direction `d` from the head is one of
/// `board.food`. Walls and snakes play no part here. A snake without a head
/// reaches nothing.
pub fn check_food(board: &Board, you: &Battlesnake) -> (food_moves: MoveSet)
    ensures
        food_moves@ == food_directions(board, you),
        forall|d: Direction|
            #![trigger food_moves@.contains(d)]
            food_moves@.contains(d) <==> you.body@.len() >= 1 && exists|i: int|
                0 <= i < board.food@.len() && (#[trigger] board.food@[i])@ == you.body@[0].step(d),
{
    if you.body.len() == 0 {
        let nothing = MoveSet::none();
        assert(nothing@ =~= food_directions(board, you));
        return nothing;
    }
    let head = you.body[0];
    let mut food_moves = MoveSet::all();
    if !step_lands_on(head, Direction::Up, &board.food) {
        food_moves.remove(Direction::Up);
    }
    if !step_lands_on(head, Direction::Down, &board.food) {
        food_moves.remove(Direction::Down);
    }
    if !step_lands_on(head, Direction::Right, &board.food) {
        food_moves.remove(Direction::Right);
    }
    if !step_lands_on(head, Direction::Left, &board.food) {
        food_moves.remove(Direction::Left);
    }
    assert(food_moves@ =~= food_directions(board, you));
    food_moves
}

} // verus!
