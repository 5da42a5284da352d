//! A chess position: pieces packed into small integer codes, and a board
//! laid out in the standard starting position.

pub mod piece;

pub use piece::Piece;
pub mod board;

pub use board::Board;
