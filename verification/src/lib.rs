//! A verified rule engine for a 3x3 tic-tac-toe game.
//!
//! The library owns the game's logic: mapping screen coordinates to board
//! cells, recording marks on the board, detecting a completed line of three,
//! sequencing the two players' turns, and weighing the computer opponent's
//! candidate moves. A rendering front end feeds it pointer positions and menu
//! selections and draws whatever state the library reports back.

pub mod board;
pub mod computer;
pub mod game;
pub mod grid;
pub mod session;
pub mod settings;
