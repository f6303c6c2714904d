//! The board and what it holds: cards, columns, and the board that keeps them consistent.

pub mod board;
pub mod card;
pub mod card_id;
pub mod column;
pub mod column_order;
pub mod consistency;
pub mod effects;

pub use board::Board;
pub use card::Card;
pub use column::Column;
