//! The snake: an ordered, never empty run of cells, head first.

use crate::grid::{cell, Direction, Fault, Position, H, W};
use crate::snack::Snack;
use std::collections::VecDeque;
use vstd::prelude::*;

verus! {

/// One cell that the snake covers.
#[derive(Clone, Copy, Debug, PartialEq, Eq, Structural)]
pub struct BodyPart {
    pub x: i32,
    pub y: i32,
}

impl View for BodyPart {
    type V = Position;

    open spec fn view(&self) -> Position {
        Position { x: self.x as int, y: self.y as int }
    }
}

/// The snake. `body` runs from the head, at index 0, to the tail.
/// `skip_next_pop` is set when the snake has eaten: the next move then
/// keeps the tail, so the snake grows by one cell.
#[derive(Debug)]
pub struct Snake {
    pub body: VecDeque<BodyPart>,
    pub direction: Direction,
    pub skip_next_pop: bool,
}

/// The snake as contracts see it.
#[verifier::ext_equal]
pub struct SnakeState {
    /// The covered cells, head first.
    pub body: Seq<Position>,
    pub direction: Direction,
    /// Whether the next move keeps the tail.
    pub growing: bool,
}

impl View for Snake {
    type V = SnakeState;

    open spec fn view(&self) -> SnakeState {
        SnakeState {
            body: self.body@.map_values(|part: BodyPart| part@),
            direction: self.direction,
            growing: self.skip_next_pop,
        }
    }
}

impl SnakeState {
    /// A snake has at least its head.
    pub open spec fn wf(self) -> bool {
        self.body.len() > 0
    }

    pub open spec fn head(self) -> Position {
        self.body[0]
    }

    /// Whether some segment, head included, lies on `p`.
    pub open spec fn occupies(self, p: Position) -> bool {
        self.body.contains(p)
    }

    /// Whether the head could take one step in direction `d` and still have
    /// coordinates that fit the machine's integers.
    pub open spec fn can_move(self, d: Direction) -> bool {
        self.head().step(d).representable()
    }

    /// The snake after one step in direction `d`: a new head in front, the
    /// tail dropped unless the snake is growing, and growth used up.
    pub open spec fn moved(self, d: Direction) -> SnakeState {
        SnakeState {
            body: seq![self.head().step(d)] + if self.growing {
                self.body
            } else {
                self.body.drop_last()
            },
            direction: self.direction,
            growing: false,
        }
    }

    /// The snake after it was offered a snack at `snack`: it grows with its
    /// next move if its head lies there, and is unchanged otherwise.
    pub open spec fn fed(self, snack: Position) -> SnakeState {
        SnakeState {
            body: self.body,
            direction: self.direction,
            growing: self.growing || self.head() == snack,
        }
    }

    /// Where an eaten snack may turn up. While the snake leaves a cell of
    /// the field free, `after` is such a cell; on a field that is covered
    /// entirely the snack stays at `before`.
    pub open spec fn relocates(self, before: Position, after: Position) -> bool {
        if self.leaves_room() {
            after.in_grid() && !self.occupies(after)
        } else {
            after == before
        }
    }

    /// The character that the snake shows at `p`, if it covers `p`: the
    /// head's where the head lies on `p`, a segment's otherwise.
    pub open spec fn marker_at(self, p: Position) -> Option<char> {
        if self.body.len() > 0 && self.body[0] == p {
            Some('0')
        } else if self.occupies(p) {
            Some('o')
        } else {
            None
        }
    }

    /// Whether a head here ends the game.
    pub open spec fn out_of_bounds(self) -> bool {
        self.head().out_of_bounds()
    }

    /// Whether some cell of the field is not covered.
    pub open spec fn leaves_room(self) -> bool {
        exists|p: Position| #[trigger] p.in_grid() && !self.occupies(p)
    }

    /// Whether the head lies on a cell that a later segment covers too.
    pub open spec fn bites_itself(self) -> bool {
        exists|i: int| 1 <= i < self.body.len() && #[trigger] self.body[i] == self.body[0]
    }
}

impl BodyPart {
    /// A segment's character, `'o'`, if the segment lies on `(x, y)`.
    pub fn should_draw(&self, x: i32, y: i32) -> (marker: Option<char>)
        ensures
            marker == if self@ == cell(x as int, y as int) {
                Some('o')
            } else {
                None
            },
    {
        if self.x == x && self.y == y {
            return Some('o');
        }
        None
    }
}

impl Snake {
    /// Advances the snake by one cell in `direction`. The new head is put
    /// in front; the tail leaves unless the snake has just eaten, in which
    /// case the snake is one cell longer afterwards. Neither the field's
    /// bounds nor the snake's own body stop the move.
    pub fn move_snake(&mut self, direction: Direction)
        requires
            old(self)@.wf(),
            old(self)@.can_move(direction),
        ensures
            final(self)@ == old(self)@.moved(direction),
            final(self)@.wf(),
            final(self)@.head() == old(self)@.head().step(direction),
            final(self)@.body.len() == old(self)@.body.len() + if old(self)@.growing {
                1int
            } else {
                0int
            },
            !final(self)@.growing,
    {
        let head = self.body[0];
        let new_body_part = match direction {
            Direction::Up => (head.x, head.y - 1),
            Direction::Right => (head.x + 1, head.y),
            Direction::Left => (head.x - 1, head.y),
            Direction::Down => (head.x, head.y + 1),
        };
        self.body.push_front(BodyPart { x: new_body_part.0, y: new_body_part.1 });
        if !self.skip_next_pop {
            self.body.pop_back();
        } else {
            self.skip_next_pop = false;
        }
    }

    /// Lets the snake eat the snack if its head lies on it: the snake then
    /// grows with its next move, and the snack moves to a cell that the
    /// snake does not cover. With the head elsewhere nothing changes. To be
    /// called once per tick, before the move.
    pub fn feed(&mut self, snack: &mut Snack)
        requires
            old(self)@.wf(),
        ensures
            final(self)@ == old(self)@.fed(old(snack)@),
            final(self).body == old(self).body,
            old(self)@.head() == old(snack)@ ==> old(self)@.relocates(old(snack)@, final(snack)@),
            old(self)@.head() == old(snack)@ && old(self)@.body.len() < W * H
                ==> final(snack)@.in_grid() && !final(self)@.occupies(final(snack)@),
            old(self)@.head() != old(snack)@ ==> *final(snack) == *old(snack),
    {
        let head = self.body[0];
        if snack.x == head.x && snack.y == head.y {
            self.skip_next_pop = true;
            snack.new_place(&*self);
        }
    }

    /// Whether any segment, head included, lies on `(x, y)`.
    pub fn collide(&self, x: i32, y: i32) -> (hit: bool)
        ensures
            hit == self@.occupies(cell(x as int, y as int)),
    {
        let mut i: usize = 0;
        while i < self.body.len()
            invariant
                i <= self.body.len(),
                forall|j: int| 0 <= j < i ==> self@.body[j] != cell(x as int, y as int),
            decreases self.body.len() - i,
        {
            let body_part = self.body[i];
            if body_part.x == x && body_part.y == y {
                assert(self@.body[i as int] == cell(x as int, y as int));
                return true;
            }
            i += 1;
        }
        false
    }

    /// The character that the snake shows at `(x, y)`: `'0'` where the head
    /// lies, `'o'` where only later segments lie, nothing elsewhere. The
    /// head is told apart by its place in the body, not by its position, so
    /// a segment that shares the head's cell does not hide the head.
    pub fn should_draw(&self, x: i32, y: i32) -> (marker: Option<char>)
        ensures
            marker == self@.marker_at(cell(x as int, y as int)),
    {
        let mut i: usize = 0;
        while i < self.body.len()
            invariant
                i <= self.body.len(),
                forall|j: int| 0 <= j < i ==> self@.body[j] != cell(x as int, y as int),
            decreases self.body.len() - i,
        {
            let body_part_should_draw = self.body[i].should_draw(x, y);
            if body_part_should_draw.is_some() {
                assert(self@.body[i as int] == cell(x as int, y as int));
                if i == 0 {
                    return Some('0');
                }
                return body_part_should_draw;
            }
            i += 1;
        }
        None
    }

    /// Ends the game when the head has left the playable interior, which
    /// is `0 < x < W`, `0 < y < H`. Only the head is looked at, and nothing
    /// is changed.
    pub fn check_for_game_over(&self) -> (verdict: Result<(), Fault>)
        requires
            self@.wf(),
        ensures
            verdict == if self@.out_of_bounds() {
                Err::<(), Fault>(Fault::OutOfBounds)
            } else {
                Ok::<(), Fault>(())
            },
            self@.head().x == 0 || self@.head().x == W || self@.head().y == 0 || self@.head().y
                == H ==> verdict == Err::<(), Fault>(Fault::OutOfBounds),
    {
        let head = self.body[0];
        if head.x <= 0 || head.x >= W || head.y <= 0 || head.y >= H {
            return Err(Fault::OutOfBounds);
        }
        Ok(())
    }

    /// Whether the head lies on a cell that a later segment covers too.
    /// The end-of-game check does not ask this: a host that wants the rule
    /// applies it itself.
    pub fn bites_itself(&self) -> (bitten: bool)
        requires
            self@.wf(),
        ensures
            bitten == self@.bites_itself(),
    {
        let head = self.body[0];
        let mut i: usize = 1;
        while i < self.body.len()
            invariant
                1 <= i <= self.body.len(),
                head@ == self@.body[0],
                forall|j: int| 1 <= j < i ==> (#[trigger] self@.body[j]) != head@,
            decreases self.body.len() - i,
        {
            let body_part = self.body[i];
            if body_part.x == head.x && body_part.y == head.y {
                assert(self@.body[i as int] == self@.body[0]);
                return true;
            }
            i += 1;
        }
        false
    }

    /// The first cell of the field that the snake does not cover, reading
    /// the field row by row, each row from column 0 on.
    pub fn first_free_cell(&self) -> (found: Option<(i32, i32)>)
        ensures
            found is Some == self@.leaves_room(),
            found matches Some((x, y)) ==> {
                &&& cell(x as int, y as int).in_grid()
                &&& !self@.occupies(cell(x as int, y as int))
                &&& forall|p: Position|
                    #[trigger] p.in_grid() && p.precedes(cell(x as int, y as int))
                        ==> self@.occupies(p)
            },
    {
        let mut y: i32 = 0;
        while y < H
            invariant
                0 <= y <= H,
                forall|p: Position| #[trigger] p.in_grid() && p.y < y ==> self@.occupies(p),
            decreases H - y,
        {
            let mut x: i32 = 0;
            while x < W
                invariant
                    0 <= y < H,
                    0 <= x <= W,
                    forall|p: Position| #[trigger] p.in_grid() && p.y < y ==> self@.occupies(p),
                    forall|p: Position|
                        #[trigger] p.in_grid() && p.y == y && p.x < x ==> self@.occupies(p),
                decreases W - x,
            {
                if !self.collide(x, y) {
                    assert(cell(x as int, y as int).in_grid());
                    return Some((x, y));
                }
                assert forall|p: Position|
                    #[trigger] p.in_grid() && p.y == y && p.x < x + 1 implies self@.occupies(
                    p,
                ) by {
                    if p.x == x {
                        assert(p == cell(x as int, y as int));
                    }
                }
                x += 1;
            }
            y += 1;
        }
        None
    }
}

} // verus!
