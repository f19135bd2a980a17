use vstd::prelude::*;
use crate::board::{abs, cell, is_empty, Grid};
use crate::execute::{grid_after_move, is_castling, last_after_move, state_after_move};
use crate::gamestate::{reaches, GameState};
use crate::legality::{legal_dest, own_king_attacked};
use crate::king::{attacked, castle_rook_ready};
use crate::pawn::en_passant_ok;
use crate::piece::{pawn_start_row, promotion_row, Piece, PieceType};
use crate::queen::queen_reaches;
use crate::square_set::in_board;

verus! {

/// A legal move of any piece but the king never leaves a king of the mover's color on an
/// attacked square once it is made.
pub proof fn lemma_legal_move_keeps_own_king_safe(s: GameState, p: Piece, r: int, c: int)
    requires
        !s.checking_state,
        p.piece_type != PieceType::King,
        legal_dest(s, p, r, c),
    ensures
        !own_king_attacked(
            state_after_move(s, p, r, c).grid,
            state_after_move(s, p, r, c).last_move,
            p.color,
        ),
{
}

/// A king never has a legal move onto an attacked square, nor one that stays on its
/// own square.
pub proof fn lemma_king_avoids_attacked_squares(s: GameState, k: Piece, r: int, c: int)
    requires
        k.piece_type == PieceType::King,
        legal_dest(s, k, r, c),
    ensures
        !attacked(s.grid, s.last_move, r, c, k.color),
        !(r == k.row && c == k.col),
{
}

/// A king may move two columns only by castling: it has never moved and stands on
/// column 4, the rook of that side is of its color and has never moved, and every
/// square between them is empty.
pub proof fn lemma_castling_needs_unmoved_pieces(s: GameState, k: Piece, r: int, c: int)
    requires
        k.piece_type == PieceType::King,
        legal_dest(s, k, r, c),
        abs(c - k.col) == 2,
    ensures
        !k.has_moved,
        k.col == 4,
        r == k.row,
        c == 2 ==> castle_rook_ready(s.grid, k, 0) && is_empty(s.grid, r, 1) && is_empty(s.grid, r, 2)
            && is_empty(s.grid, r, 3),
        c == 6 ==> castle_rook_ready(s.grid, k, 7) && is_empty(s.grid, r, 5) && is_empty(s.grid, r, 6),
        c == 2 || c == 6,
{
}

/// The piece that makes a move is marked as moved afterwards.
pub proof fn lemma_mover_is_marked(g: Grid, p: Piece, r: int, c: int)
    requires
        in_board(r, c),
        p.row < 8,
        p.col < 8,
        !(r == p.row && c == p.col),
    ensures
        cell(grid_after_move(g, p, r, c), r, c) is Some,
        cell(grid_after_move(g, p, r, c), r, c)->0.has_moved,
{
}

/// Once a piece is marked as moved it stays marked: after any move, a piece marked as
/// never moved either stands where it stood before, as it was, or is the rook that a
/// castling king jumped over, which only changed column.
pub proof fn lemma_has_moved_is_sticky(g: Grid, p: Piece, r: int, c: int, x: int, y: int)
    requires
        in_board(r, c),
        p.row < 8,
        p.col < 8,
        in_board(x, y),
        cell(grid_after_move(g, p, r, c), x, y) is Some,
        !cell(grid_after_move(g, p, r, c), x, y)->0.has_moved,
    ensures
        cell(grid_after_move(g, p, r, c), x, y) == cell(g, x, y) || ({
            let from = if c == 2 {
                0int
            } else {
                7int
            };
            &&& is_castling(p, c)
            &&& (c == 2 || c == 6)
            &&& x == p.row
            &&& y == if c == 2 {
                3int
            } else {
                5int
            }
            &&& cell(g, x, from) is Some
            &&& cell(grid_after_move(g, p, r, c), x, y) == Some(Piece { col: y as usize, ..cell(g, x, from)->0 })
        }),
{
}

/// En passant is offered only right after the enemy pawn's two-square advance: the last
/// move must have been that pawn leaving its starting row for the square beside the
/// taking pawn, so any other move in between withdraws it.
pub proof fn lemma_en_passant_only_after_double_step(
    g: Grid,
    mover: Piece,
    r2: int,
    c2: int,
    p: Piece,
    r: int,
    c: int,
)
    requires
        in_board(r2, c2),
        en_passant_ok(g, last_after_move(mover, r2, c2), p, r, c),
    ensures
        mover.piece_type == PieceType::Pawn,
        mover.color != p.color,
        mover.row == pawn_start_row(mover.color),
        mover.col == c,
        r2 == p.row,
        c2 == c,
{
}

/// A pawn moving diagonally onto an empty square is a legal move only as an en passant
/// capture.
pub proof fn lemma_diagonal_to_empty_is_en_passant(s: GameState, p: Piece, r: int, c: int)
    requires
        p.piece_type == PieceType::Pawn,
        legal_dest(s, p, r, c),
        c != p.col,
        is_empty(s.grid, r, c),
    ensures
        en_passant_ok(s.grid, s.last_move, p, r, c),
{
}

/// A pawn that reaches its promotion row becomes at once a queen of its color, which
/// from then on moves as a queen.
pub proof fn lemma_promotion_makes_queen(g: Grid, p: Piece, r: int, c: int, x: int, y: int)
    requires
        p.piece_type == PieceType::Pawn,
        p.row < 8,
        p.col < 8,
        in_board(r, c),
        r == promotion_row(p.color),
        !(r == p.row && c == p.col),
    ensures
        cell(grid_after_move(g, p, r, c), r, c) == Some(
            Piece {
                piece_type: PieceType::Queen,
                has_moved: true,
                row: r as usize,
                col: c as usize,
                color: p.color,
            },
        ),
        reaches(
            grid_after_move(g, p, r, c),
            last_after_move(p, r, c),
            cell(grid_after_move(g, p, r, c), r, c)->0,
            x,
            y,
        ) == queen_reaches(grid_after_move(g, p, r, c), cell(grid_after_move(g, p, r, c), r, c)->0, x, y),
{
}

} // verus!
