//! The four cardinal headings and modular movement on the toroidal field.

use vstd::prelude::*;

verus! {

/// A heading of the snake.  Opposite pairs: `Up`/`Down` and `Left`/`Right`.
#[derive(Copy, Clone, PartialEq, Eq, Structural, Debug)]
pub enum Direction {
    Right,
    Left,
    Up,
    Down,
}

impl Direction {
    /// The exact opposite heading.
    pub open spec fn opposite_spec(self) -> Direction {
        match self {
            Direction::Right => Direction::Left,
            Direction::Left => Direction::Right,
            Direction::Up => Direction::Down,
            Direction::Down => Direction::Up,
        }
    }

    /// Returns the exact opposite heading.
    pub fn opposite(self) -> (r: Direction)
        ensures
            r == self.opposite_spec(),
    {
        match self {
            Direction::Right => Direction::Left,
            Direction::Left => Direction::Right,
            Direction::Up => Direction::Down,
            Direction::Down => Direction::Up,
        }
    }
}

/// The x coordinate after one step in heading `d`, wrapping modulo `fw`.
pub open spec fn wrap_step_x(x: int, d: Direction, fw: int) -> int {
    match d {
        Direction::Right => (x + 1 + fw) % fw,
        Direction::Left => (x - 1 + fw) % fw,
        Direction::Up => x,
        Direction::Down => x,
    }
}

/// The y coordinate after one step in heading `d`, wrapping modulo `fh`.
/// The y axis grows downward: `Up` decreases y, `Down` increases it.
pub open spec fn wrap_step_y(y: int, d: Direction, fh: int) -> int {
    match d {
        Direction::Right => y,
        Direction::Left => y,
        Direction::Up => (y - 1 + fh) % fh,
        Direction::Down => (y + 1 + fh) % fh,
    }
}

/// The x coordinate one step *against* heading `d`: where a cell was
/// before the head moved through it.  Inverse of `wrap_step_x`.
pub open spec fn unwind_step_x(x: int, d: Direction, fw: int) -> int {
    match d {
        Direction::Right => (x - 1 + fw) % fw,
        Direction::Left => (x + 1 + fw) % fw,
        Direction::Up => x,
        Direction::Down => x,
    }
}

/// The y coordinate one step against heading `d`.  Inverse of `wrap_step_y`.
pub open spec fn unwind_step_y(y: int, d: Direction, fh: int) -> int {
    match d {
        Direction::Right => y,
        Direction::Left => y,
        Direction::Up => (y + 1 + fh) % fh,
        Direction::Down => (y - 1 + fh) % fh,
    }
}

} // verus!
