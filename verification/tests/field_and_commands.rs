use snake_game::{
    blank, occupant, parse_command, render_field, BodyPart, Direction, Fault, Game, Occupant,
    Snack, Snake,
};
use std::collections::VecDeque;

fn snake_on(cells: &[(i32, i32)]) -> Snake {
    let body: VecDeque<BodyPart> = cells.iter().map(|&(x, y)| BodyPart { x, y }).collect();
    Snake { body, direction: Direction::Right, skip_next_pop: false }
}

fn by_trimming(line: &str) -> Result<Direction, Fault> {
    match line.trim().replace("\n", "").as_str() {
        "w" => Ok(Direction::Up),
        "s" => Ok(Direction::Down),
        "d" => Ok(Direction::Right),
        "a" => Ok(Direction::Left),
        _ => Err(Fault::InvalidCommand),
    }
}

#[test]
fn the_snake_goes_before_the_snack() {
    let snake = snake_on(&[(3, 5), (2, 5), (1, 5)]);
    assert_eq!(occupant(&snake, &Snack { x: 3, y: 5 }, 3, 5), Occupant::Head);
    assert_eq!(occupant(&snake, &Snack { x: 2, y: 5 }, 2, 5), Occupant::Body);
    assert_eq!(occupant(&snake, &Snack { x: 1, y: 5 }, 1, 5), Occupant::Body);
    assert_eq!(occupant(&snake, &Snack { x: 0, y: 5 }, 0, 5), Occupant::Snack);
    assert_eq!(occupant(&snake, &Snack { x: 0, y: 5 }, 4, 5), Occupant::Empty);
    let game = Game { snake, snack: Snack { x: 3, y: 5 } };
    assert_eq!(game.occupant(3, 5), Occupant::Head);
    assert_eq!(game.occupant(2, 5), Occupant::Body);
    assert_eq!(game.occupant(3, 6), Occupant::Empty);
}

#[test]
fn every_covered_cell_shows_the_snake_wherever_the_snack_lies() {
    let snake = snake_on(&[(3, 5), (2, 5), (2, 4), (3, 4), (3, 5)]);
    for sy in 0..10 {
        for sx in 0..15 {
            let snack = Snack { x: sx, y: sy };
            for y in 0..10 {
                for x in 0..15 {
                    let shown = occupant(&snake, &snack, x, y);
                    if snake.collide(x, y) {
                        assert!(shown == Occupant::Head || shown == Occupant::Body);
                        assert_eq!(shown == Occupant::Head, (x, y) == (3, 5));
                    } else if (x, y) == (sx, sy) {
                        assert_eq!(shown, Occupant::Snack);
                    } else {
                        assert_eq!(shown, Occupant::Empty);
                    }
                }
            }
        }
    }
}

#[test]
fn each_occupant_has_its_character() {
    assert_eq!(Occupant::Head.symbol(), '0');
    assert_eq!(Occupant::Body.symbol(), 'o');
    assert_eq!(Occupant::Snack.symbol(), 'S');
    assert_eq!(Occupant::Empty.symbol(), '_');
}

#[test]
fn the_first_frame_shows_snake_and_snack() {
    let game = Game::new();
    let rows = render_field(&game.snake, &game.snack);
    let empty = "|_|_|_|_|_|_|_|_|_|_|_|_|_|_|_|";
    assert_eq!(
        rows,
        vec![
            empty,
            "|_|o|o|0|_|_|_|_|_|_|_|_|_|_|_|",
            empty,
            empty,
            empty,
            "|_|_|_|S|_|_|_|_|_|_|_|_|_|_|_|",
            empty,
            empty,
            empty,
            empty,
        ]
    );
    assert_eq!(game.frame(), Ok(rows));
}

#[test]
fn a_frame_shows_the_corners_and_hides_a_covered_snack() {
    let snake = snake_on(&[(14, 9), (14, 8), (0, 0), (0, 9), (14, 0), (20, 3), (-1, 4)]);
    let rows = render_field(&snake, &Snack { x: 14, y: 8 });
    assert_eq!(rows.len(), 10);
    assert_eq!(rows[0], "|o|_|_|_|_|_|_|_|_|_|_|_|_|_|o|");
    assert_eq!(rows[8], "|_|_|_|_|_|_|_|_|_|_|_|_|_|_|o|");
    assert_eq!(rows[9], "|o|_|_|_|_|_|_|_|_|_|_|_|_|_|0|");
    for row in &rows[1..8] {
        assert_eq!(row, "|_|_|_|_|_|_|_|_|_|_|_|_|_|_|_|");
    }
    let rows = render_field(&snake, &Snack { x: 0, y: 4 });
    assert_eq!(rows[4], "|S|_|_|_|_|_|_|_|_|_|_|_|_|_|_|");
}

#[test]
fn a_frame_is_refused_once_the_head_is_outside() {
    let game = Game { snake: snake_on(&[(15, 4), (14, 4)]), snack: Snack { x: 3, y: 5 } };
    assert_eq!(game.frame(), Err(Fault::OutOfBounds));
    let game = Game { snake: snake_on(&[(3, 0), (3, 1)]), snack: Snack { x: 3, y: 5 } };
    assert_eq!(game.frame(), Err(Fault::OutOfBounds));
}

#[test]
fn the_four_letters_are_the_four_directions() {
    assert_eq!(parse_command("w"), Ok(Direction::Up));
    assert_eq!(parse_command("s"), Ok(Direction::Down));
    assert_eq!(parse_command("d"), Ok(Direction::Right));
    assert_eq!(parse_command("a"), Ok(Direction::Left));
}

#[test]
fn white_space_around_the_letter_is_ignored() {
    assert_eq!(parse_command("w\n"), Ok(Direction::Up));
    assert_eq!(parse_command("s\r\n"), Ok(Direction::Down));
    assert_eq!(parse_command("  d\t\n"), Ok(Direction::Right));
    assert_eq!(parse_command("\u{a0}a\u{3000}\u{2028}"), Ok(Direction::Left));
}

#[test]
fn anything_else_is_an_invalid_command() {
    for line in ["q", "", "\n", "   ", "W", "ww", "w w", "w\na", "wa", "up", "d.", "\u{e9}", "0"] {
        assert_eq!(parse_command(line), Err(Fault::InvalidCommand));
    }
}

#[test]
fn commands_are_read_as_by_trimming_the_line() {
    let alphabet = [' ', '\n', '\t', '\r', 'w', 'a', 's', 'd', 'q', 'W', '\u{a0}', '\u{200b}'];
    let mut lines = vec![String::new()];
    let mut from = 0;
    for _ in 0..4 {
        let upto = lines.len();
        for i in from..upto {
            for c in alphabet {
                let mut longer = lines[i].clone();
                longer.push(c);
                lines.push(longer);
            }
        }
        from = upto;
    }
    assert_eq!(lines.len(), 1 + 12 + 144 + 1728 + 20736);
    for line in &lines {
        assert_eq!(parse_command(line), by_trimming(line));
    }
}

#[test]
fn blank_is_white_space_for_every_character() {
    let mut blanks = 0;
    for code in 0..=0x10FFFFu32 {
        if let Some(c) = char::from_u32(code) {
            assert_eq!(blank(c), c.is_whitespace());
            if blank(c) {
                blanks += 1;
            }
        }
    }
    assert_eq!(blanks, 25);
}
