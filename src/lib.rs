//! A two-player 8x8 board-game rules engine: board state, move generation,
//! self-check filtering, check/checkmate/stalemate detection, castling and
//! pawn promotion.
//!
//! Every executable function states its behaviour over the spec functions of
//! its module; `laws` holds the properties that relate several of them.

pub mod board;
pub mod game;
pub mod glyph;
pub mod laws;
pub mod legality;
pub mod movegen;
pub mod moves;
pub mod piece;
pub mod player;
pub mod position;
pub mod shuffle;
pub mod square;

pub use board::Board;
pub use glyph::{player_color, square_letter};
pub use moves::Move;
pub use piece::Piece;
pub use player::Player;
pub use position::Position;
pub use square::Square;
