//! A set of directions, held as one flag per direction.

use vstd::prelude::*;
use crate::grid::Direction;

verus! {

/// The moves still under consideration. Each direction is either in the set
/// or not; there is nothing else to it.
#[derive(Clone, Copy, Debug, PartialEq, Eq, Structural, Hash)]
pub struct MoveSet {
    pub up: bool,
    pub down: bool,
    pub left: bool,
    pub right: bool,
}

impl View for MoveSet {
    type V = Set<Direction>;

    open spec fn view(&self) -> Set<Direction> {
        Set::new(|d: Direction| self.flag(d))
    }
}

impl MoveSet {
    /// The flag kept for `d`.
    pub open spec fn flag(self, d: Direction) -> bool {
        match d {
            Direction::Up => self.up,
            Direction::Down => self.down,
            Direction::Left => self.left,
            Direction::Right => self.right,
        }
    }

    /// The members in the fixed order up, down, left, right.
    pub open spec fn members(self) -> Seq<Direction> {
        (if self.up { seq![Direction::Up] } else { seq![] })
            + (if self.down { seq![Direction::Down] } else { seq![] })
            + (if self.left { seq![Direction::Left] } else { seq![] })
            + (if self.right { seq![Direction::Right] } else { seq![] })
    }

    /// The set of all four directions.
    pub fn all() -> (s: MoveSet)
        ensures
            s@ == Set::<Direction>::full(),
    {
        MoveSet { up: true, down: true, left: true, right: true }
    }

    /// The empty set.
    pub fn none() -> (s: MoveSet)
        ensures
            s@ == Set::<Direction>::empty(),
    {
        MoveSet { up: false, down: false, left: false, right: false }
    }

    /// Tells whether `d` is in the set.
    pub fn contains(&self, d: Direction) -> (b: bool)
        ensures
            b == self@.contains(d),
    {
        match d {
            Direction::Up => self.up,
            Direction::Down => self.down,
            Direction::Left => self.left,
            Direction::Right => self.right,
        }
    }

    /// Puts `d` into the set.
    pub fn insert(&mut self, d: Direction)
        ensures
            final(self)@ == old(self)@.insert(d),
    {
        match d {
            Direction::Up => { self.up = true; },
            Direction::Down => { self.down = true; },
            Direction::Left => { self.left = true; },
            Direction::Right => { self.right = true; },
        }
    }

    /// Takes `d` out of the set.
    pub fn remove(&mut self, d: Direction)
        ensures
            final(self)@ == old(self)@.remove(d),
    {
        match d {
            Direction::Up => { self.up = false; },
            Direction::Down => { self.down = false; },
            Direction::Left => { self.left = false; },
            Direction::Right => { self.right = false; },
        }
    }

    /// Tells whether no direction is in the set.
    pub fn is_empty(&self) -> (b: bool)
        ensures
            b == (self@ == Set::<Direction>::empty()),
    {
        let b = !self.up && !self.down && !self.left && !self.right;
        proof {
            if !b {
                let d = if self.up {
                    Direction::Up
                } else if self.down {
                    Direction::Down
                } else if self.left {
                    Direction::Left
                } else {
                    Direction::Right
                };
                assert(self@.contains(d));
            } else {
                assert(self@ =~= Set::<Direction>::empty());
            }
        }
        b
    }

    /// The directions that are in both sets.
    pub fn intersect(&self, other: &MoveSet) -> (s: MoveSet)
        ensures
            s@ == self@.intersect(other@),
    {
        MoveSet {
            up: self.up && other.up,
            down: self.down && other.down,
            left: self.left && other.left,
            right: self.right && other.right,
        }
    }

    /// The members as a vector, in the order up, down, left, right.
    pub fn to_vec(&self) -> (v: Vec<Direction>)
        ensures
            v@ == self.members(),
            v@.no_duplicates(),
            forall|d: Direction| v@.contains(d) <==> self@.contains(d),
    {
        let mut v: Vec<Direction> = Vec::new();
        if self.up {
            v.push(Direction::Up);
        }
        if self.down {
            v.push(Direction::Down);
        }
        if self.left {
            v.push(Direction::Left);
        }
        if self.right {
            v.push(Direction::Right);
        }
        proof {
            assert(v@ =~= self.members());
            self.lemma_members();
        }
        v
    }

    /// `members` lists each direction of the set once and nothing else.
    pub proof fn lemma_members(self)
        ensures
            self.members().no_duplicates(),
            forall|d: Direction| self.members().contains(d) <==> self@.contains(d),
            self.members().len() == 0 <==> self@ == Set::<Direction>::empty(),
    {
        let m = self.members();
        let a = if self.up { seq![Direction::Up] } else { seq![] };
        let b = if self.down { seq![Direction::Down] } else { seq![] };
        let c = if self.left { seq![Direction::Left] } else { seq![] };
        let e = if self.right { seq![Direction::Right] } else { seq![] };
        assert(m == a + b + c + e);
        assert forall|i: int| 0 <= i < m.len() implies self.flag(#[trigger] m[i]) by {}
        assert forall|i: int, j: int| 0 <= i < j < m.len() implies m[i] != m[j] by {}
        assert forall|d: Direction| self@.contains(d) implies m.contains(d) by {
            let k: int = match d {
                Direction::Up => 0,
                Direction::Down => a.len() as int,
                Direction::Left => (a.len() + b.len()) as int,
                Direction::Right => (a.len() + b.len() + c.len()) as int,
            };
            assert(m[k] == d);
        }
        if m.len() == 0 {
            assert(self@ =~= Set::<Direction>::empty());
        } else {
            assert(self.flag(m[0]));
            assert(self@.contains(m[0]));
        }
    }
}

} // verus!
