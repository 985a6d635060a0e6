//! The four moves and the grid cells they lead to.

use vstd::prelude::*;

verus! {

/// A grid cell as a pair of mathematical integers. Unlike a [`Coord`] it can
/// lie left of or below the origin, or beyond what a `u32` holds.
pub struct Cell {
    pub x: int,
    pub y: int,
}

/// The address of a grid cell. The origin is the bottom-left corner of the
/// board: `x` grows to the right and `y` grows upwards.
#[derive(Clone, Copy, Debug, PartialEq, Eq, Structural, Hash)]
pub struct Coord {
    pub x: u32,
    pub y: u32,
}

/// One of the four moves a snake can make.
#[derive(Clone, Copy, Debug, PartialEq, Eq, Structural, Hash)]
pub enum Direction {
    Up,
    Down,
    Left,
    Right,
}

impl View for Coord {
    type V = Cell;

    open spec fn view(&self) -> Cell {
        Cell { x: self.x as int, y: self.y as int }
    }
}

impl Direction {
    /// Change of `x` made by one step in this direction.
    pub open spec fn dx(self) -> int {
        match self {
            Direction::Left => -1,
            Direction::Right => 1,
            _ => 0,
        }
    }

    /// Change of `y` made by one step in this direction.
    pub open spec fn dy(self) -> int {
        match self {
            Direction::Up => 1,
            Direction::Down => -1,
            _ => 0,
        }
    }

    /// The lower-case word by which the game host knows this direction.
    pub open spec fn label(self) -> Seq<char> {
        match self {
            Direction::Up => "up"@,
            Direction::Down => "down"@,
            Direction::Left => "left"@,
            Direction::Right => "right"@,
        }
    }

    /// The word for this direction: `"up"`, `"down"`, `"left"` or `"right"`.
    pub fn name(self) -> (word: &'static str)
        ensures
            word@ == self.label(),
    {
        match self {
            Direction::Up => "up",
            Direction::Down => "down",
            Direction::Left => "left",
            Direction::Right => "right",
        }
    }
}

impl Coord {
    /// The cell reached from this one by a single step in direction `d`.
    pub open spec fn step(self, d: Direction) -> Cell {
        Cell { x: self.x + d.dx(), y: self.y + d.dy() }
    }

    /// The neighbouring coordinate in direction `d`, or `None` where that
    /// cell has a negative component or one too large for a `u32`.
    pub fn neighbor(self, d: Direction) -> (next: Option<Coord>)
        ensures
            next is Some <==> (0 <= self.step(d).x <= u32::MAX && 0 <= self.step(d).y <= u32::MAX),
            next matches Some(c) ==> c@ == self.step(d),
    {
        match d {
            Direction::Up => {
                if self.y < u32::MAX {
                    Some(Coord { x: self.x, y: self.y + 1 })
                } else {
                    None
                }
            },
            Direction::Down => {
                if self.y > 0 {
                    Some(Coord { x: self.x, y: self.y - 1 })
                } else {
                    None
                }
            },
            Direction::Left => {
                if self.x > 0 {
                    Some(Coord { x: self.x - 1, y: self.y })
                } else {
                    None
                }
            },
            Direction::Right => {
                if self.x < u32::MAX {
                    Some(Coord { x: self.x + 1, y: self.y })
                } else {
                    None
                }
            },
        }
    }
}

/// Whether some element of `cells` lies on `target`.
pub open spec fn occupies(cells: Seq<Coord>, target: Cell) -> bool {
    exists|i: int| 0 <= i < cells.len() && (#[trigger] cells[i])@ == target
}

/// Tells whether `target` is one of `cells`.
pub fn contains_coord(cells: &Vec<Coord>, target: Coord) -> (found: bool)
    ensures
        found == occupies(cells@, target@),
{
    let mut i: usize = 0;
    while i < cells.len()
        invariant
            i <= cells.len(),
            forall|j: int| 0 <= j < i ==> (#[trigger] cells@[j])@ != target@,
        decreases cells.len() - i,
    {
        if cells[i].x == target.x && cells[i].y == target.y {
            return true;
        }
        i += 1;
    }
    false
}

/// Tells whether the cell one step from `from` in direction `d` is one of
/// `cells`. A step that leaves the range of `u32` reaches none of them.
pub fn step_lands_on(from: Coord, d: Direction, cells: &Vec<Coord>) -> (hit: bool)
    ensures
        hit == occupies(cells@, from.step(d)),
{
    match from.neighbor(d) {
        Some(next) => contains_coord(cells, next),
        None => false,
    }
}

} // verus!
