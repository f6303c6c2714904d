//! The terminal interface: its view state and the transitions between views.

pub mod app;
pub mod input;
pub mod state;

pub use app::App;
