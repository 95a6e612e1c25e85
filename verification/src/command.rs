//! The commands that steer the snake, as the player types them.

use crate::grid::{Direction, Fault};
use vstd::prelude::*;

verus! {

/// Whether `c` is white space: one of the characters that Unicode gives
/// the property `White_Space`.
pub open spec fn is_blank(c: char) -> bool {
    let n = c as u32;
    ||| 0x09 <= n <= 0x0D
    ||| n == 0x20
    ||| n == 0x85
    ||| n == 0xA0
    ||| n == 0x1680
    ||| 0x2000 <= n <= 0x200A
    ||| n == 0x2028
    ||| n == 0x2029
    ||| n == 0x202F
    ||| n == 0x205F
    ||| n == 0x3000
}

/// Whether `line` holds the character `key` once and nothing else but
/// white space.
pub open spec fn names(line: Seq<char>, key: char) -> bool {
    exists|i: int|
        0 <= i < line.len() && #[trigger] line[i] == key && forall|j: int|
            0 <= j < line.len() && j != i ==> is_blank(#[trigger] line[j])
}

/// The direction that `line` asks for: `w` is up, `s` down, `a` left and
/// `d` right. White space around the letter is ignored; any other line
/// asks for nothing.
pub open spec fn command_of(line: Seq<char>) -> Option<Direction> {
    if names(line, 'w') {
        Some(Direction::Up)
    } else if names(line, 's') {
        Some(Direction::Down)
    } else if names(line, 'd') {
        Some(Direction::Right)
    } else if names(line, 'a') {
        Some(Direction::Left)
    } else {
        None
    }
}

/// Whether `c` is white space.
pub fn blank(c: char) -> (b: bool)
    ensures
        b == is_blank(c),
{
    let n = c as u32;
    (0x09 <= n && n <= 0x0D) || n == 0x20 || n == 0x85 || n == 0xA0 || n == 0x1680 || (0x2000 <= n
        && n <= 0x200A) || n == 0x2028 || n == 0x2029 || n == 0x202F || n == 0x205F || n == 0x3000
}

/// Reads one command. A line that names no direction is a fault.
pub fn parse_command(line: &str) -> (command: Result<Direction, Fault>)
    ensures
        command == match command_of(line@) {
            Some(d) => Ok::<Direction, Fault>(d),
            None => Err::<Direction, Fault>(Fault::InvalidCommand),
        },
{
    let mut letter: Option<char> = None;
    let mut crowded = false;
    for c in it: line.chars()
        invariant
            it.seq() == line@,
            letter is None ==> !crowded && forall|j: int|
                0 <= j < it.index() ==> is_blank(#[trigger] line@[j]),
            letter matches Some(l) ==> exists|i: int|
                0 <= i < it.index() && #[trigger] line@[i] == l && !is_blank(l) && (!crowded
                    ==> forall|j: int|
                    0 <= j < it.index() && j != i ==> is_blank(#[trigger] line@[j])),
            crowded ==> exists|i: int, j: int|
                0 <= i < j < it.index() && !is_blank(#[trigger] line@[i]) && !is_blank(
                    #[trigger] line@[j],
                ),
    {
        if !blank(c) {
            if letter.is_some() {
                crowded = true;
            } else {
                letter = Some(c);
            }
        }
    }
    if crowded {
        return Err(Fault::InvalidCommand);
    }
    match letter {
        Some(l) => {
            if l == 'w' {
                Ok(Direction::Up)
            } else if l == 's' {
                Ok(Direction::Down)
            } else if l == 'd' {
                Ok(Direction::Right)
            } else if l == 'a' {
                Ok(Direction::Left)
            } else {
                Err(Fault::InvalidCommand)
            }
        },
        None => Err(Fault::InvalidCommand),
    }
}

} // verus!
