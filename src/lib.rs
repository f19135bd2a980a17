//! Rules of chess on an 8x8 board: move generation for each kind of piece, attack
//! detection, the king-safety filter that turns candidate moves into legal ones, and
//! move execution with castling, en passant and promotion.

pub mod piece;
pub mod square_set;
pub mod board;
pub mod bishop;
pub mod rook;
pub mod queen;
pub mod knight;
pub mod king;
pub mod pawn;
pub mod gamestate;
pub mod legality;
pub mod execute;
pub mod laws;

pub use bishop::possible_bishop_moves;
pub use gamestate::{GameState, MoveError};
pub use king::{in_check, possible_king_moves};
pub use knight::possible_knight_moves;
pub use pawn::possible_pawn_moves;
pub use piece::{Color, Coord, Piece, PieceType};
pub use queen::possible_queen_moves;
pub use rook::possible_rook_moves;
pub use square_set::SquareSet;
