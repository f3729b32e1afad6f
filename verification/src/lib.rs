//! Legal-move generation for chess pieces on an 8x8 board.
//!
//! The crate answers one question: given a board and a piece, which squares
//! may the piece move to, and which may it capture on? Coordinates produced by
//! arithmetic are *candidates* and may lie off the board; only a *validated*
//! position can index the board or be stored in a piece.

pub mod game;
pub mod piece;
pub mod player;
