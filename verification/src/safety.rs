//! The safety filter: which moves do not end the game at once.

use vstd::prelude::*;
use crate::board::{Battlesnake, Board};
use crate::grid::{occupies, step_lands_on, Coord, Direction};
use crate::moveset::MoveSet;

verus! {

/// The direction that leads from `head` back towards `neck`, read off the
/// vector from neck to head: a difference in `x` decides before one in `y`.
/// There is none where the two coincide.
pub open spec fn backward(head: Coord, neck: Coord) -> Option<Direction> {
    if neck.x < head.x {
        Some(Direction::Left)
    } else if neck.x > head.x {
        Some(Direction::Right)
    } else if neck.y < head.y {
        Some(Direction::Down)
    } else if neck.y > head.y {
        Some(Direction::Up)
    } else {
        None
    }
}

/// Moving `d` turns the snake back onto its own neck. A snake of a single
/// segment has no neck, and nothing is a reversal for it.
pub open spec fn reverses(you: &Battlesnake, d: Direction) -> bool {
    you.body@.len() >= 2 && backward(you.body@[0], you.body@[1]) == Some(d)
}

/// `head` stands on the edge of the board that lies in direction `d`.
pub open spec fn at_edge(board: &Board, head: Coord, d: Direction) -> bool {
    match d {
        Direction::Left => head.x == 0,
        Direction::Right => head.x == board.width - 1,
        Direction::Down => head.y == 0,
        Direction::Up => head.y == board.height - 1,
    }
}

/// Moving `d` puts the head on a cell that the snake's own body holds now.
/// The tail counts, though it may have moved on by then.
pub open spec fn hits_self(you: &Battlesnake, d: Direction) -> bool {
    occupies(you.body@, you.body@[0].step(d))
}

/// Moving `d` puts the head on a cell held by a snake with another id.
pub open spec fn hits_other(board: &Board, you: &Battlesnake, d: Direction) -> bool {
    exists|s: int|
        0 <= s < board.snakes@.len() && (#[trigger] board.snakes@[s]).id@ != you.id@ && occupies(
            board.snakes@[s].body@,
            you.body@[0].step(d),
        )
}

/// `d` survives all four rules. A snake without a head has no safe move.
pub open spec fn is_safe(board: &Board, you: &Battlesnake, d: Direction) -> bool {
    &&& you.body@.len() >= 1
    &&& !reverses(you, d)
    &&& !at_edge(board, you.body@[0], d)
    &&& !hits_self(you, d)
    &&& !hits_other(board, you, d)
}

/// The moves that are safe for `you` on `board`.
pub open spec fn safe_directions(board: &Board, you: &Battlesnake) -> Set<Direction> {
    Set::new(|d: Direction| is_safe(board, you, d))
}

/// No move in `moves` turns the snake back towards its neck.
pub open spec fn never_reverses(you: &Battlesnake, moves: Set<Direction>) -> bool {
    forall|d: Direction|
        you.body@.len() >= 2 && backward(you.body@[0], you.body@[1]) == Some(d)
            ==> !#[trigger] moves.contains(d)
}

/// No move in `moves` leads over the edge that the head stands on.
pub open spec fn stays_on_board(board: &Board, you: &Battlesnake, moves: Set<Direction>) -> bool {
    you.body@.len() >= 1 ==> {
        let head = you.body@[0];
        &&& head.x == 0 ==> !moves.contains(Direction::Left)
        &&& head.x == board.width - 1 ==> !moves.contains(Direction::Right)
        &&& head.y == 0 ==> !moves.contains(Direction::Down)
        &&& head.y == board.height - 1 ==> !moves.contains(Direction::Up)
    }
}

/// No move in `moves` lands on a segment of the snake's own body.
pub open spec fn avoids_self(you: &Battlesnake, moves: Set<Direction>) -> bool {
    forall|d: Direction, i: int|
        #![trigger moves.contains(d), you.body@[i]]
        moves.contains(d) && 0 <= i < you.body@.len() ==> you.body@[i]@ != you.body@[0].step(d)
}

/// No move in `moves` lands on a segment of a snake with another id.
pub open spec fn avoids_others(board: &Board, you: &Battlesnake, moves: Set<Direction>) -> bool {
    forall|d: Direction, s: int, i: int|
        #![trigger moves.contains(d), board.snakes@[s].body@[i]]
        moves.contains(d) && 0 <= s < board.snakes@.len() && board.snakes@[s].id@ != you.id@ && 0
            <= i < board.snakes@[s].body@.len() ==> board.snakes@[s].body@[i]@
            != you.body@[0].step(d)
}

/// Where the neck lies next to the head, `backward` is the one direction
/// that steps from the head onto the neck.
pub proof fn lemma_backward_steps_onto_neck(head: Coord, neck: Coord, d: Direction)
    requires
        neck@ == head.step(d),
    ensures
        backward(head, neck) == Some(d),
{
}

/// `backward` names a direction for every neck but one that lies under the
/// head, and then exactly one.
pub proof fn lemma_backward_total(head: Coord, neck: Coord)
    ensures
        backward(head, neck) is None <==> neck == head,
{
}

/// The safe moves never reverse, never cross the edge the head stands on,
/// and never land on a segment of any snake on the board.
pub proof fn lemma_safe_directions(board: &Board, you: &Battlesnake)
    ensures
        never_reverses(you, safe_directions(board, you)),
        stays_on_board(board, you, safe_directions(board, you)),
        avoids_self(you, safe_directions(board, you)),
        avoids_others(board, you, safe_directions(board, you)),
        you.body@.len() == 0 ==> safe_directions(board, you) == Set::<Direction>::empty(),
{
    let safe = safe_directions(board, you);
    assert forall|d: Direction, i: int|
        #![trigger safe.contains(d), you.body@[i]]
        safe.contains(d) && 0 <= i < you.body@.len() implies you.body@[i]@ != you.body@[0].step(
        d,
    ) by {
        assert(!hits_self(you, d));
    }
    assert forall|d: Direction, s: int, i: int|
        #![trigger safe.contains(d), board.snakes@[s].body@[i]]
        safe.contains(d) && 0 <= s < board.snakes@.len() && board.snakes@[s].id@ != you.id@ && 0
            <= i < board.snakes@[s].body@.len() implies board.snakes@[s].body@[i]@
        != you.body@[0].step(d) by {
        assert(!hits_other(board, you, d));
        assert(!occupies(board.snakes@[s].body@, you.body@[0].step(d)));
    }
    if you.body@.len() == 0 {
        assert(safe =~= Set::<Direction>::empty());
    }
}

/// The direction that the reversal rule rules out, if any.
fn reversal(you: &Battlesnake) -> (back: Option<Direction>)
    ensures
        forall|d: Direction| back == Some(d) <==> reverses(you, d),
{
    if you.body.len() < 2 {
        return None;
    }
    let head = you.body[0];
    let neck = you.body[1];
    if neck.x < head.x {
        Some(Direction::Left)
    } else if neck.x > head.x {
        Some(Direction::Right)
    } else if neck.y < head.y {
        Some(Direction::Down)
    } else if neck.y > head.y {
        Some(Direction::Up)
    } else {
        None
    }
}

/// Takes out of `moves` the directions that lead over the edge of the board
/// on which `head` stands.
fn strike_edges(moves: &mut MoveSet, board: &Board, head: Coord)
    ensures
        forall|d: Direction|
            #![trigger final(moves)@.contains(d)]
            final(moves)@.contains(d) <==> old(moves)@.contains(d) && !at_edge(board, head, d),
{
    if head.x == 0 {
        moves.remove(Direction::Left);
    }
    if board.width > 0 && head.x == board.width - 1 {
        moves.remove(Direction::Right);
    }
    if head.y == 0 {
        moves.remove(Direction::Down);
    }
    if board.height > 0 && head.y == board.height - 1 {
        moves.remove(Direction::Up);
    }
}

/// Takes out of `moves` the directions in which one step from `head` lands
/// on one of `cells`.
fn strike_collisions(moves: &mut MoveSet, head: Coord, cells: &Vec<Coord>)
    ensures
        forall|d: Direction|
            #![trigger final(moves)@.contains(d)]
            final(moves)@.contains(d) <==> old(moves)@.contains(d) && !occupies(
                cells@,
                head.step(d),
            ),
{
    if step_lands_on(head, Direction::Left, cells) {
        moves.remove(Direction::Left);
    }
    if step_lands_on(head, Direction::Right, cells) {
        moves.remove(Direction::Right);
    }
    if step_lands_on(head, Direction::Down, cells) {
        moves.remove(Direction::Down);
    }
    if step_lands_on(head, Direction::Up, cells) {
        moves.remove(Direction::Up);
    }
}

/// Moving `d` puts the head on a cell held by one of the first `upto`
/// snakes of the board that has another id.
spec fn hits_other_among(board: &Board, you: &Battlesnake, d: Direction, upto: int) -> bool {
    exists|s: int|
        0 <= s < upto && (#[trigger] board.snakes@[s]).id@ != you.id@ && occupies(
            board.snakes@[s].body@,
            you.body@[0].step(d),
        )
}

/// The safe moves for `you` on `board`: all four directions but the one
/// back towards the neck, those over the edge of the board, and those onto
/// a cell that a snake holds now, its own body included. The result can be
/// empty. A snake of one segment keeps the reversal rule out of play; one
/// with no segment at all has no safe move.
pub fn remove_suicide(board: &Board, you: &Battlesnake) -> (safe: MoveSet)
    ensures
        safe@ == safe_directions(board, you),
        never_reverses(you, safe@),
        stays_on_board(board, you, safe@),
        avoids_self(you, safe@),
        avoids_others(board, you, safe@),
{
    proof {
        lemma_safe_directions(board, you);
    }
    if you.body.len() == 0 {
        return MoveSet::none();
    }
    let head = you.body[0];
    let mut safe = MoveSet::all();

    match reversal(you) {
        Some(back) => {
            safe.remove(back);
        },
        None => {},
    }
    let ghost turned = safe@;
    assert forall|d: Direction| turned.contains(d) <==> !reverses(you, d) by {}
    strike_edges(&mut safe, board, head);
    let ghost fenced = safe@;
    strike_collisions(&mut safe, head, &you.body);
    assert forall|d: Direction|
        safe@.contains(d) <==> !reverses(you, d) && !at_edge(board, head, d) && !hits_self(
            you,
            d,
        ) by {
        assert(fenced.contains(d) <==> turned.contains(d) && !at_edge(board, head, d));
    }

    let mut k: usize = 0;
    while k < board.snakes.len()
        invariant
            k <= board.snakes.len(),
            you.body@.len() >= 1,
            head == you.body@[0],
            forall|d: Direction|
                #![trigger safe@.contains(d)]
                safe@.contains(d) <==> !reverses(you, d) && !at_edge(board, head, d) && !hits_self(
                    you,
                    d,
                ) && !hits_other_among(board, you, d, k as int),
        decreases board.snakes.len() - k,
    {
        let ghost before = safe@;
        let opponent = &board.snakes[k];
        if opponent.id != you.id {
            strike_collisions(&mut safe, head, &opponent.body);
        }
        proof {
            assert forall|d: Direction|
                #![trigger safe@.contains(d)]
                safe@.contains(d) <==> !reverses(you, d) && !at_edge(board, head, d) && !hits_self(
                    you,
                    d,
                ) && !hits_other_among(board, you, d, k + 1) by {
                let here = board.snakes@[k as int].id@ != you.id@ && occupies(
                    board.snakes@[k as int].body@,
                    head.step(d),
                );
                assert(safe@.contains(d) <==> before.contains(d) && !here);
                if hits_other_among(board, you, d, k + 1) {
                    let s = choose|s: int|
                        0 <= s < k + 1 && (#[trigger] board.snakes@[s]).id@ != you.id@ && occupies(
                            board.snakes@[s].body@,
                            you.body@[0].step(d),
                        );
                    if s < k {
                        assert(hits_other_among(board, you, d, k as int));
                    }
                }
                if here {
                    assert(hits_other_among(board, you, d, k + 1));
                }
                if hits_other_among(board, you, d, k as int) {
                    let s = choose|s: int|
                        0 <= s < k && (#[trigger] board.snakes@[s]).id@ != you.id@ && occupies(
                            board.snakes@[s].body@,
                            you.body@[0].step(d),
                        );
                    assert(hits_other_among(board, you, d, k + 1));
                }
            }
        }
        k += 1;
    }
    proof {
        assert forall|d: Direction|
            hits_other_among(board, you, d, k as int) == hits_other(board, you, d) by {}
        assert(safe@ =~= safe_directions(board, you));
    }
    safe
}

} // verus!
