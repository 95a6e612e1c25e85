//! A grid-based snake simulation: the snake, the snack it eats, and the
//! rules that move, feed and end the game.

pub mod command;
pub mod field;
pub mod game;
pub mod grid;
pub mod laws;
pub mod random;
pub mod snack;
pub mod snake;

pub use command::{blank, parse_command};
pub use field::{occupant, render_field};
pub use game::Game;
pub use grid::{Direction, Fault, Occupant, H, W};
pub use snack::{Snack, SAMPLE_LIMIT};
pub use snake::{BodyPart, Snake};
