//! What each cell of the field shows, and the field as rows of text.

use crate::grid::{cell, Occupant, Position, H, W};
use crate::snack::Snack;
use crate::snake::{Snake, SnakeState};
use vstd::prelude::*;

verus! {

/// What the cell `p` shows. The snake goes before the snack: a cell that
/// both cover shows the snake.
pub open spec fn occupant_at(snake: SnakeState, snack: Position, p: Position) -> Occupant {
    if snake.body.len() > 0 && snake.body[0] == p {
        Occupant::Head
    } else if snake.occupies(p) {
        Occupant::Body
    } else if snack == p {
        Occupant::Snack
    } else {
        Occupant::Empty
    }
}

/// Row `y` of the field as text: a bar, then for each column its
/// occupant's character and a bar.
pub open spec fn row_text(snake: SnakeState, snack: Position, y: int) -> Seq<char> {
    Seq::new(
        (2 * W + 1) as nat,
        |k: int|
            if k % 2 == 0 {
                '|'
            } else {
                occupant_at(snake, snack, cell((k - 1) / 2, y)).glyph()
            },
    )
}

/// The two characters that a cell adds to its row.
fn cell_text(o: Occupant) -> (text: &'static str)
    ensures
        text@ == seq![o.glyph(), '|'],
{
    proof {
        reveal_strlit("0|");
        reveal_strlit("o|");
        reveal_strlit("S|");
        reveal_strlit("_|");
    }
    match o {
        Occupant::Head => "0|",
        Occupant::Body => "o|",
        Occupant::Snack => "S|",
        Occupant::Empty => "_|",
    }
}

/// What the cell `(x, y)` shows: the snake is asked first, and only a cell
/// that it does not cover can show the snack.
pub fn occupant(snake: &Snake, snack: &Snack, x: i32, y: i32) -> (o: Occupant)
    ensures
        o == occupant_at(snake@, snack@, cell(x as int, y as int)),
        snake@.occupies(cell(x as int, y as int)) ==> o == Occupant::Head || o == Occupant::Body,
{
    match snake.should_draw(x, y) {
        Some(symbol) => {
            if symbol == '0' {
                Occupant::Head
            } else {
                Occupant::Body
            }
        },
        None => {
            match snack.should_draw(x, y) {
                Some(_) => Occupant::Snack,
                None => Occupant::Empty,
            }
        },
    }
}

/// The field as `H` rows of text, top row first.
pub fn render_field(snake: &Snake, snack: &Snack) -> (rows: Vec<String>)
    ensures
        rows@.len() == H,
        forall|i: int| 0 <= i < H ==> (#[trigger] rows@[i])@ == row_text(snake@, snack@, i),
{
    let mut rows: Vec<String> = Vec::new();
    let mut i: i32 = 0;
    while i < H
        invariant
            0 <= i <= H,
            rows@.len() == i,
            forall|r: int| 0 <= r < i ==> (#[trigger] rows@[r])@ == row_text(snake@, snack@, r),
        decreases H - i,
    {
        proof {
            reveal_strlit("|");
        }
        let mut row = String::from_str("|");
        let mut j: i32 = 0;
        while j < W
            invariant
                0 <= j <= W,
                0 <= i < H,
                row@.len() == 2 * j + 1,
                forall|k: int| 0 <= k < 2 * j + 1 ==> #[trigger] row@[k] == row_text(
                    snake@,
                    snack@,
                    i as int,
                )[k],
            decreases W - j,
        {
            let o = occupant(snake, snack, j, i);
            row.append(cell_text(o));
            j += 1;
        }
        rows.push(row);
        i += 1;
    }
    rows
}

} // verus!
