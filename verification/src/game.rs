//! One run of the game, tick by tick. The host shows each frame, reads
//! the player's line and hands it back; everything that is decided is
//! decided here.

use crate::command::{command_of, parse_command};
use crate::field::{occupant, occupant_at, render_field, row_text};
use crate::grid::{cell, Direction, Fault, Occupant, H};
use crate::snack::Snack;
use crate::snake::{BodyPart, Snake};
use std::collections::VecDeque;
use vstd::prelude::*;

verus! {

/// The state of a run: the snake and the snack.
#[derive(Debug)]
pub struct Game {
    pub snake: Snake,
    pub snack: Snack,
}

impl Game {
    /// The snake has at least its head.
    pub open spec fn wf(&self) -> bool {
        self.snake@.wf()
    }

    /// Whether the snake's head lies on the snack, so that the next tick
    /// feeds the snake.
    pub open spec fn about_to_eat(&self) -> bool {
        self.snake@.head() == self.snack@
    }

    /// The state a run starts from: a snake of three cells in row 1, its
    /// head at column 3 and heading right, and the snack at `(3, 5)`.
    pub fn new() -> (game: Game)
        ensures
            game.wf(),
            game.snake@.body == seq![cell(3, 1), cell(2, 1), cell(1, 1)],
            game.snake@.direction == Direction::Right,
            !game.snake@.growing,
            game.snack@ == cell(3, 5),
    {
        let mut snake_body: VecDeque<BodyPart> = VecDeque::new();
        snake_body.push_front(BodyPart { x: 1, y: 1 });
        snake_body.push_front(BodyPart { x: 2, y: 1 });
        snake_body.push_front(BodyPart { x: 3, y: 1 });
        Game {
            snake: Snake { body: snake_body, direction: Direction::Right, skip_next_pop: false },
            snack: Snack { x: 3, y: 5 },
        }
    }

    /// What the cell `(x, y)` shows. A cell that the snake and the snack
    /// both cover shows the snake.
    pub fn occupant(&self, x: i32, y: i32) -> (o: Occupant)
        ensures
            o == occupant_at(self.snake@, self.snack@, cell(x as int, y as int)),
            self.snake@.occupies(cell(x as int, y as int)) ==> o != Occupant::Snack,
    {
        occupant(&self.snake, &self.snack, x, y)
    }

    /// Opens a tick: the run ends if the head has left the playable
    /// interior; otherwise the field is handed out as rows of text, to be
    /// shown before the player's line is read. Nothing is changed.
    pub fn frame(&self) -> (shown: Result<Vec<String>, Fault>)
        requires
            self.wf(),
        ensures
            self.snake@.out_of_bounds() ==> shown == Err::<Vec<String>, Fault>(Fault::OutOfBounds),
            !self.snake@.out_of_bounds() ==> shown is Ok,
            shown matches Ok(rows) ==> {
                &&& rows@.len() == H
                &&& forall|i: int|
                    0 <= i < H ==> (#[trigger] rows@[i])@ == row_text(self.snake@, self.snack@, i)
            },
    {
        match self.snake.check_for_game_over() {
            Err(fault) => Err(fault),
            Ok(()) => Ok(render_field(&self.snake, &self.snack)),
        }
    }

    /// Closes a tick with the player's line. A line that names no
    /// direction ends the run and leaves the state as it was. Otherwise
    /// the snake is fed, then moved: it grows by one cell in this very
    /// tick if its head lay on the snack, and the snack has then moved to
    /// a cell that the snake did not cover.
    pub fn advance(&mut self, line: &str) -> (outcome: Result<(), Fault>)
        requires
            old(self).wf(),
            command_of(line@) matches Some(d) ==> old(self).snake@.can_move(d),
        ensures
            final(self).wf(),
            match command_of(line@) {
                None => {
                    &&& outcome == Err::<(), Fault>(Fault::InvalidCommand)
                    &&& *final(self) == *old(self)
                },
                Some(d) => {
                    &&& outcome == Ok::<(), Fault>(())
                    &&& final(self).snake@ == old(self).snake@.fed(old(self).snack@).moved(d)
                    &&& old(self).about_to_eat() ==> old(self).snake@.relocates(
                        old(self).snack@,
                        final(self).snack@,
                    )
                    &&& !old(self).about_to_eat() ==> final(self).snack == old(self).snack
                },
            },
            final(self).snake@.body.len() >= old(self).snake@.body.len(),
            outcome is Ok && !old(self).snake@.growing ==> final(self).snake@.body.len()
                == old(self).snake@.body.len() + if old(self).about_to_eat() {
                1int
            } else {
                0int
            },
    {
        match parse_command(line) {
            Err(fault) => Err(fault),
            Ok(direction) => {
                self.snake.feed(&mut self.snack);
                self.snake.move_snake(direction);
                Ok(())
            },
        }
    }
}

} // verus!
