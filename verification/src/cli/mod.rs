//! What the command line and the terminal interface need of the board.

pub mod interactive;
pub mod tui;
