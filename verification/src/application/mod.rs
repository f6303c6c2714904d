//! The use cases: each loads the board from the store, changes it in memory by the board's own
//! operations, and saves the whole board back.

pub mod board_service;
pub mod card_service;

pub use board_service::BoardService;
pub use board_service::BoardServiceError;
pub use card_service::CardService;
