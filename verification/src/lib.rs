//! Clicky keeps a kanban board for one project: columns, cards, the operations that keep the two
//! consistent, and the state of the terminal interface that edits them.
//!
//! Every function of this library is verified. What it takes from outside (the clock, a few
//! functions of the standard library on text and paths) enters through small functions that
//! are believed, not proved: those of [`text`] and [`clock`], and the path functions of
//! [`infrastructure::storage`]. Each says in its documentation what is believed of it.
//!
//! The library reads and writes no file. Boards are kept by a store that implements
//! [`infrastructure::BoardRepository`]; the services and the terminal interface work with
//! any.

pub mod text;
pub mod clock;
pub mod domain;
pub mod infrastructure;
pub mod application;
pub mod cli;
