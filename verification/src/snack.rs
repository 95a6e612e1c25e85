//! The snack: one cell, moved to a free cell of the field when eaten.

use crate::grid::{cell, Position, H, W};
use crate::laws::lemma_short_snake_leaves_room;
use crate::random::gen_below;
use crate::snake::Snake;
use vstd::prelude::*;

verus! {

/// How many random cells `Snack::new_place` tries before it stops drawing
/// and takes the first free cell instead.
pub const SAMPLE_LIMIT: u32 = 4096;

/// The snack.
#[derive(Clone, Copy, Debug, PartialEq, Eq, Structural)]
pub struct Snack {
    pub x: i32,
    pub y: i32,
}

impl View for Snack {
    type V = Position;

    open spec fn view(&self) -> Position {
        Position { x: self.x as int, y: self.y as int }
    }
}

impl Snack {
    /// The snack's character, `'S'`, if the snack lies on `(x, y)`.
    pub fn should_draw(&self, x: i32, y: i32) -> (marker: Option<char>)
        ensures
            marker == if self@ == cell(x as int, y as int) {
                Some('S')
            } else {
                None
            },
    {
        if self.x == x && self.y == y {
            return Some('S');
        }
        None
    }

    /// Moves the snack to `(x, y)` unless the snake covers that cell, and
    /// says whether it moved.
    pub fn try_place(&mut self, snake: &Snake, x: i32, y: i32) -> (placed: bool)
        ensures
            placed == !snake@.occupies(cell(x as int, y as int)),
            placed ==> final(self)@ == cell(x as int, y as int),
            !placed ==> *final(self) == *old(self),
    {
        if snake.collide(x, y) {
            return false;
        }
        self.x = x;
        self.y = y;
        true
    }

    /// Moves the snack to a cell of the field that the snake does not
    /// cover, and says whether it could.
    ///
    /// Cells are drawn at random from the whole field, `0 <= x < W` and
    /// `0 <= y < H`, and the first one that the snake does not cover is
    /// taken. After `SAMPLE_LIMIT` draws that all hit the snake, the field
    /// is read row by row and the first free cell is taken instead, so the
    /// call always returns, and it succeeds whenever a free cell is left.
    /// On a field that the snake covers entirely the snack stays where it
    /// is.
    pub fn new_place(&mut self, snake: &Snake) -> (placed: bool)
        ensures
            placed == snake@.leaves_room(),
            placed ==> final(self)@.in_grid() && !snake@.occupies(final(self)@),
            !placed ==> *final(self) == *old(self),
            snake@.body.len() < W * H ==> placed,
    {
        proof {
            if snake@.body.len() < W * H {
                lemma_short_snake_leaves_room(snake@);
            }
        }
        let mut rng = rand::thread_rng();
        let mut draws: u32 = 0;
        while draws < SAMPLE_LIMIT
            invariant
                *self == *old(self),
            decreases SAMPLE_LIMIT - draws,
        {
            let new_x = gen_below(&mut rng, W);
            let new_y = gen_below(&mut rng, H);
            if self.try_place(snake, new_x, new_y) {
                assert(cell(new_x as int, new_y as int).in_grid());
                return true;
            }
            draws += 1;
        }
        match snake.first_free_cell() {
            Some((x, y)) => self.try_place(snake, x, y),
            None => false,
        }
    }
}

} // verus!
