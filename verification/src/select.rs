//! The decision step: from the safe moves and the food moves to one move.

use rand::rngs::{OsRng, StdRng};
use rand::seq::SliceRandom;
use rand::SeedableRng;
use vstd::prelude::*;
use crate::board::{Battlesnake, Board, Game};
use crate::food::{check_food, food_directions};
use crate::grid::Direction;
use crate::intersect::{find_intersection, lemma_intersection_pair};
use crate::moveset::MoveSet;
use crate::safety::{remove_suicide, safe_directions};

verus! {

/// The generator `rand::rngs::StdRng`, of which nothing is known here but
/// that it exists.
#[verifier::external_type_specification]
#[verifier::external_body]
pub struct ExStdRng(StdRng);

/// Calls `rand::seq::SliceRandom::choose` on `options`. That function hands
/// back `None` for an empty slice and otherwise one of the slice's elements,
/// at an index it draws from `rng`. Which element comes back is not stated,
/// nor what becomes of `rng`.
#[verifier::external_body]
fn pick(rng: &mut StdRng, options: &Vec<Direction>) -> (picked: Option<Direction>)
    ensures
        picked is None <==> options@.len() == 0,
        picked matches Some(d) ==> options@.contains(d),
{
    options.choose(rng).copied()
}

/// Calls `rand::SeedableRng::from_rng` for `StdRng`, with `rand::rngs::OsRng`
/// as the source of the seed. The call fails where the operating system
/// hands out no random bytes, and then `None` comes back. Nothing is stated
/// of the generator it yields.
#[verifier::external_body]
fn system_rng() -> Option<StdRng> {
    StdRng::from_rng(OsRng).ok()
}

/// The moves to draw from, given the safe moves and the food moves: the
/// safe moves that reach food if there are any, else the safe moves if
/// there are any, else all four directions.
pub open spec fn candidates(safe: Set<Direction>, food: Set<Direction>) -> Set<Direction> {
    if safe.intersect(food) != Set::<Direction>::empty() {
        safe.intersect(food)
    } else if safe != Set::<Direction>::empty() {
        safe
    } else {
        Set::<Direction>::full()
    }
}

/// The moves to draw from for `you` on `board`.
pub open spec fn candidate_moves(board: &Board, you: &Battlesnake) -> Set<Direction> {
    candidates(safe_directions(board, you), food_directions(board, you))
}

/// The first of `options` in the order up, down, left, right, and `Right`
/// where there is none.
pub open spec fn first_of(options: Set<Direction>) -> Direction {
    if options.contains(Direction::Up) {
        Direction::Up
    } else if options.contains(Direction::Down) {
        Direction::Down
    } else if options.contains(Direction::Left) {
        Direction::Left
    } else {
        Direction::Right
    }
}

/// The move played when the draw gave `picked`: the draw itself where it
/// is one of `options`, and the first of `options` otherwise.
pub open spec fn settled(options: Set<Direction>, picked: Option<Direction>) -> Direction {
    match picked {
        Some(d) => if options.contains(d) {
            d
        } else {
            first_of(options)
        },
        None => first_of(options),
    }
}

/// There is always something to draw from: moves that are safe where
/// there are any, moves that reach food as well where there are any of
/// those, and all four moves where nothing is safe.
pub proof fn lemma_candidates_nonempty(safe: Set<Direction>, food: Set<Direction>)
    ensures
        candidates(safe, food) != Set::<Direction>::empty(),
        safe == Set::<Direction>::empty() ==> candidates(safe, food) == Set::<Direction>::full(),
        safe != Set::<Direction>::empty() ==> candidates(safe, food).subset_of(safe),
        safe.intersect(food) != Set::<Direction>::empty() ==> candidates(safe, food).subset_of(
            food,
        ),
{
    assert(Set::<Direction>::full().contains(Direction::Up));
    if safe == Set::<Direction>::empty() {
        assert(safe.intersect(food) =~= Set::<Direction>::empty());
    }
}

/// The set to draw the move from: what `safe` and `food` have in common
/// if that is anything, else `safe` if that holds anything, else all four
/// directions. The result is never empty.
pub fn move_candidates(safe: MoveSet, food: MoveSet) -> (options: MoveSet)
    ensures
        options@ == candidates(safe@, food@),
        options@ != Set::<Direction>::empty(),
{
    proof {
        lemma_candidates_nonempty(safe@, food@);
        lemma_intersection_pair(safe, food);
    }
    let both = vec![safe, food];
    assert(both@ =~= seq![safe, food]);
    let preferred = find_intersection(both);
    if !preferred.is_empty() {
        preferred
    } else if !safe.is_empty() {
        safe
    } else {
        MoveSet::all()
    }
}

/// The move to play once the draw among `options` has come back as
/// `picked`. A draw that is one of `options` is played as it is. Any other
/// outcome falls back on the first of `options`, so that a move is played
/// whatever the generator did.
pub fn settle(options: MoveSet, picked: Option<Direction>) -> (d: Direction)
    ensures
        d == settled(options@, picked),
        options@ != Set::<Direction>::empty() ==> options@.contains(d),
{
    proof {
        if !options@.contains(first_of(options@)) {
            assert(options@ =~= Set::<Direction>::empty());
        }
    }
    match picked {
        Some(d) => {
            if options.contains(d) {
                return d;
            }
        },
        None => {},
    }
    if options.contains(Direction::Up) {
        Direction::Up
    } else if options.contains(Direction::Down) {
        Direction::Down
    } else if options.contains(Direction::Left) {
        Direction::Left
    } else {
        Direction::Right
    }
}

/// The set that this turn's move is drawn from.
fn options_for(board: &Board, you: &Battlesnake) -> (options: MoveSet)
    ensures
        options@ == candidate_moves(board, you),
        options@ != Set::<Direction>::empty(),
{
    let safe = remove_suicide(board, you);
    let food = check_food(board, you);
    move_candidates(safe, food)
}

/// Chooses the move for this turn, drawing from `rng`. The move is a safe
/// one that reaches food if there is such a move, else a safe one if there
/// is one, else any of the four: a move is returned even where every move
/// loses. Among the moves that qualify the generator decides.
pub fn choose_move(board: &Board, you: &Battlesnake, rng: &mut StdRng) -> (d: Direction)
    ensures
        candidate_moves(board, you).contains(d),
        safe_directions(board, you) != Set::<Direction>::empty() ==> safe_directions(
            board,
            you,
        ).contains(d),
        safe_directions(board, you).intersect(food_directions(board, you)) != Set::<
            Direction,
        >::empty() ==> food_directions(board, you).contains(d),
{
    let options = options_for(board, you);
    let order = options.to_vec();
    let picked = pick(rng, &order);
    proof {
        lemma_candidates_nonempty(safe_directions(board, you), food_directions(board, you));
    }
    settle(options, picked)
}

/// Chooses the move for this turn as `choose_move` does, with a generator
/// seeded by the operating system. Where the system gives no seed the first
/// of the qualifying moves is played. `game` and `turn` play no part in the
/// choice.
pub fn get_move(_game: &Game, _turn: &u32, board: &Board, you: &Battlesnake) -> (d: Direction)
    ensures
        candidate_moves(board, you).contains(d),
        safe_directions(board, you) != Set::<Direction>::empty() ==> safe_directions(
            board,
            you,
        ).contains(d),
        safe_directions(board, you).intersect(food_directions(board, you)) != Set::<
            Direction,
        >::empty() ==> food_directions(board, you).contains(d),
{
    match system_rng() {
        Some(mut rng) => choose_move(board, you, &mut rng),
        None => {
            let options = options_for(board, you);
            proof {
                lemma_candidates_nonempty(
                    safe_directions(board, you),
                    food_directions(board, you),
                );
            }
            settle(options, None)
        },
    }
}

} // verus!
