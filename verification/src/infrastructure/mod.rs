//! Where boards are kept: the interface to a store, and the place of a board's file.

pub mod storage;

pub use storage::BoardRepository;
