use vstd::prelude::*;
use crate::bishop::{bishop_reaches, possible_bishop_moves};
use crate::board::Grid;
use crate::gamestate::GameState;
use crate::piece::Piece;
use crate::rook::{possible_rook_moves, rook_reaches};
use crate::square_set::SquareSet;

verus! {

/// A queen reaches what a bishop or a rook on its square would reach.
pub open spec fn queen_reaches(g: Grid, p: Piece, r: int, c: int) -> bool {
    bishop_reaches(g, p, r, c) || rook_reaches(g, p, r, c)
}

/// The squares a queen standing at `piece`'s square may move to, before king safety.
pub fn possible_queen_moves(game_state: &GameState, piece: &Piece) -> (moves: SquareSet)
    requires
        piece.row < 8,
        piece.col < 8,
    ensures
        forall|r: int, c: int|
            #[trigger] moves.has(r, c) == queen_reaches(game_state.grid, *piece, r, c),
{
    let mut moves = possible_bishop_moves(game_state, piece);
    let rook_moves = possible_rook_moves(game_state, piece);
    moves.extend(&rook_moves);
    moves
}

} // verus!
