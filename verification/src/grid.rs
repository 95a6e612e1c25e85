//! The field, its cells, and the vocabulary shared by the other modules.

use vstd::prelude::*;

verus! {

/// Width of the field, in cells.
pub const W: i32 = 15;

/// Height of the field, in cells.
pub const H: i32 = 10;

/// A cell of the unbounded integer plane. Contracts speak of positions;
/// executable code holds them as pairs of `i32`.
pub struct Position {
    pub x: int,
    pub y: int,
}

/// One of the four unit moves.
#[derive(Clone, Copy, Debug, PartialEq, Eq, Structural)]
pub enum Direction {
    Up,
    Right,
    Left,
    Down,
}

/// Why a run ends.
#[derive(Clone, Copy, Debug, PartialEq, Eq, Structural)]
pub enum Fault {
    /// The head has left the playable interior.
    OutOfBounds,
    /// The command is not one of the four directions.
    InvalidCommand,
}

/// What a cell shows.
#[derive(Clone, Copy, Debug, PartialEq, Eq, Structural)]
pub enum Occupant {
    Head,
    Body,
    Snack,
    Empty,
}

/// The cell in column `x` and row `y`.
pub open spec fn cell(x: int, y: int) -> Position {
    Position { x, y }
}

impl Direction {
    /// Change of `x` under one move.
    pub open spec fn dx(self) -> int {
        match self {
            Direction::Right => 1,
            Direction::Left => -1,
            _ => 0,
        }
    }

    /// Change of `y` under one move. Rows are counted downwards.
    pub open spec fn dy(self) -> int {
        match self {
            Direction::Down => 1,
            Direction::Up => -1,
            _ => 0,
        }
    }
}

impl Position {
    /// The neighbouring cell in direction `d`.
    pub open spec fn step(self, d: Direction) -> Position {
        Position { x: self.x + d.dx(), y: self.y + d.dy() }
    }

    /// Whether the cell belongs to the field: `0 <= x < W`, `0 <= y < H`.
    pub open spec fn in_grid(self) -> bool {
        0 <= self.x < W && 0 <= self.y < H
    }

    /// Whether a head at this cell ends the game. Row 0 and column 0 count
    /// as outside, although they belong to the field.
    pub open spec fn out_of_bounds(self) -> bool {
        self.x <= 0 || self.x >= W || self.y <= 0 || self.y >= H
    }

    /// Whether this cell comes before `other` when the field is read row by
    /// row, each row from column 0 on.
    pub open spec fn precedes(self, other: Position) -> bool {
        self.y < other.y || (self.y == other.y && self.x < other.x)
    }

    /// Whether both coordinates can be held in an `i32`.
    pub open spec fn representable(self) -> bool {
        i32::MIN <= self.x <= i32::MAX && i32::MIN <= self.y <= i32::MAX
    }
}

impl Occupant {
    /// The character that stands for this occupant in a text rendering.
    pub open spec fn glyph(self) -> char {
        match self {
            Occupant::Head => '0',
            Occupant::Body => 'o',
            Occupant::Snack => 'S',
            Occupant::Empty => '_',
        }
    }

    /// The character that stands for this occupant in a text rendering.
    pub fn symbol(&self) -> (c: char)
        ensures
            c == self.glyph(),
    {
        match self {
            Occupant::Head => '0',
            Occupant::Body => 'o',
            Occupant::Snack => 'S',
            Occupant::Empty => '_',
        }
    }
}

} // verus!
