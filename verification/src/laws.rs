//! What holds of every snake, whatever the moves that led to it.

use crate::grid::{cell, Direction, Position, H, W};
use crate::snake::SnakeState;
use vstd::prelude::*;
use vstd::set_lib::{lemma_int_range, lemma_len_subset, set_int_range};

verus! {

/// The number of a cell when the field's cells are counted row by row.
spec fn slot(p: Position) -> int {
    p.y * W + p.x
}

/// The numbers of the cells of `body`.
spec fn slots(body: Seq<Position>) -> Set<int>
    decreases body.len(),
{
    if body.len() == 0 {
        Set::empty()
    } else {
        slots(body.drop_last()).insert(slot(body.last()))
    }
}

/// A body of `n` cells covers at most `n` cell numbers, and the number of
/// each of its cells is among them.
proof fn lemma_slots(body: Seq<Position>)
    ensures
        slots(body).finite(),
        slots(body).len() <= body.len(),
        forall|i: int| 0 <= i < body.len() ==> slots(body).contains(slot(#[trigger] body[i])),
    decreases body.len(),
{
    if body.len() > 0 {
        lemma_slots(body.drop_last());
        assert forall|i: int| 0 <= i < body.len() implies slots(body).contains(
            slot(#[trigger] body[i]),
        ) by {
            if i < body.len() - 1 {
                assert(body.drop_last()[i] == body[i]);
            }
        }
    }
}

/// In every tick that starts with no growth pending, the snake keeps its
/// length unless its head lies on the snack, and is then one cell longer
/// after the move. No growth is pending afterwards.
pub proof fn lemma_tick_growth(s: SnakeState, snack: Position, d: Direction)
    requires
        s.wf(),
        !s.growing,
    ensures
        s.fed(snack).moved(d).wf(),
        !s.fed(snack).moved(d).growing,
        s.fed(snack).moved(d).body.len() == s.body.len() + if s.head() == snack {
            1int
        } else {
            0int
        },
{
}

/// A move never shortens the snake, and lengthens it by one cell at most.
pub proof fn lemma_move_keeps_length(s: SnakeState, d: Direction)
    requires
        s.wf(),
    ensures
        s.body.len() <= s.moved(d).body.len() <= s.body.len() + 1,
{
}

/// After a move the head lies one cell from where it lay, in the
/// direction of the move, and the cells behind it are the old body.
pub proof fn lemma_move_shifts_head(s: SnakeState, d: Direction)
    requires
        s.wf(),
    ensures
        s.moved(d).head() == s.head().step(d),
        s.moved(d).head().x - s.head().x == d.dx(),
        s.moved(d).head().y - s.head().y == d.dy(),
        (d.dx() == 0 && (d.dy() == 1 || d.dy() == -1)) || (d.dy() == 0 && (d.dx() == 1 || d.dx()
            == -1)),
        forall|i: int| 1 <= i < s.moved(d).body.len() ==> s.moved(d).body[i] == s.body[i - 1],
{
}

/// A snake with fewer cells than the field leaves a cell of the field
/// free, so a snack can always be placed beside it.
pub proof fn lemma_short_snake_leaves_room(s: SnakeState)
    requires
        s.body.len() < W * H,
    ensures
        s.leaves_room(),
{
    if !s.leaves_room() {
        lemma_slots(s.body);
        lemma_int_range(0, W * H);
        assert forall|k: int| set_int_range(0, W * H).contains(k) implies slots(s.body).contains(
            k,
        ) by {
            let p = cell(k % (W as int), k / (W as int));
            assert(p.in_grid());
            assert(s.occupies(p));
            let i = choose|i: int| 0 <= i < s.body.len() && s.body[i] == p;
            assert(slot(s.body[i]) == k);
        }
        lemma_len_subset(set_int_range(0, W * H), slots(s.body));
    }
}

} // verus!
