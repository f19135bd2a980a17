use vstd::prelude::*;
use crate::board::{abs, cell, is_empty, is_enemy, Grid, LastMove};
use crate::gamestate::GameState;
use crate::piece::{en_passant_row, forward, pawn_start_row, Color, Piece, PieceType};
use crate::square_set::{in_board, SquareSet};

verus! {

/// The pawn `p` may take en passant by moving to `(r, c)`: it stands on its en passant
/// row, the target square is empty, and the last move was an enemy pawn's two-square
/// advance from its starting row to the square beside `p` in column `c`, where that pawn
/// still stands.
pub open spec fn en_passant_ok(g: Grid, lm: LastMove, p: Piece, r: int, c: int) -> bool {
    &&& p.row == en_passant_row(p.color)
    &&& is_empty(g, r, c)
    &&& lm.0 is Some
    &&& lm.1 is Some
    &&& lm.0->0.piece_type == PieceType::Pawn
    &&& lm.0->0.color != p.color
    &&& lm.0->0.row == p.row
    &&& lm.0->0.col == c
    &&& lm.1->0.col == c
    &&& lm.1->0.row == pawn_start_row(lm.0->0.color)
    &&& cell(g, p.row as int, c) == lm.0
}

/// A pawn at `p` reaches `(r, c)`: one square forward onto an empty square; two squares
/// forward, when it has never moved, across two empty squares; or one square diagonally
/// forward onto an enemy, or en passant.
pub open spec fn pawn_reaches(g: Grid, lm: LastMove, p: Piece, r: int, c: int) -> bool {
    let f = forward(p.color);
    &&& in_board(r, c)
    &&& {
        ||| r == p.row + f && c == p.col && is_empty(g, r, c)
        ||| r == p.row + 2 * f && c == p.col && !p.has_moved && is_empty(g, p.row + f, c)
            && is_empty(g, r, c)
        ||| r == p.row + f && abs(c - p.col) == 1 && (is_enemy(g, p, r, c) || en_passant_ok(
            g,
            lm,
            p,
            r,
            c,
        ))
    }
}

fn square_is_empty(g: &Grid, r: i64, c: i64) -> (b: bool)
    requires
        in_board(r as int, c as int),
    ensures
        b == is_empty(*g, r as int, c as int),
{
    g[r as usize][c as usize].is_none()
}

/// Whether `p` may move diagonally to `(r, c)`, which is on the board.
fn diagonal_ok(game_state: &GameState, p: &Piece, r: i64, c: i64) -> (b: bool)
    requires
        in_board(r as int, c as int),
        p.row < 8,
    ensures
        b == (is_enemy(game_state.grid, *p, r as int, c as int) || en_passant_ok(
            game_state.grid,
            game_state.last_move,
            *p,
            r as int,
            c as int,
        )),
{
    match game_state.grid[r as usize][c as usize] {
        Some(q) => q.color != p.color,
        None => {
            let ep_row: usize = if p.color == Color::White {
                3
            } else {
                4
            };
            if p.row != ep_row {
                return false;
            }
            match (game_state.last_move.0, game_state.last_move.1) {
                (Some(lp), Some(origin)) => {
                    let start: usize = if lp.color == Color::White {
                        6
                    } else {
                        1
                    };
                    let beside_is_last = match game_state.grid[p.row][c as usize] {
                        Some(b) => b == lp,
                        None => false,
                    };
                    lp.piece_type == PieceType::Pawn && lp.color != p.color && lp.row == p.row
                        && lp.col == c as usize && origin.col == c as usize && origin.row == start
                        && beside_is_last
                },
                _ => false,
            }
        },
    }
}

/// The squares a pawn standing at `piece`'s square may move to, before king safety.
pub fn possible_pawn_moves(game_state: &GameState, piece: &Piece) -> (moves: SquareSet)
    requires
        piece.row < 8,
        piece.col < 8,
    ensures
        forall|r: int, c: int|
            #[trigger] moves.has(r, c) == pawn_reaches(
                game_state.grid,
                game_state.last_move,
                *piece,
                r,
                c,
            ),
{
    let g = &game_state.grid;
    let mut moves = SquareSet::new();
    let f: i64 = if piece.color == Color::White {
        -1
    } else {
        1
    };
    let row = piece.row as i64;
    let col = piece.col as i64;
    let r1 = row + f;
    if 0 <= r1 && r1 < 8 {
        if square_is_empty(g, r1, col) {
            moves.insert(r1 as usize, col as usize);
            let r2 = r1 + f;
            if !piece.has_moved && 0 <= r2 && r2 < 8 && square_is_empty(g, r2, col) {
                moves.insert(r2 as usize, col as usize);
            }
        }
        if col + 1 < 8 && diagonal_ok(game_state, piece, r1, col + 1) {
            moves.insert(r1 as usize, (col + 1) as usize);
        }
        if col >= 1 && diagonal_ok(game_state, piece, r1, col - 1) {
            moves.insert(r1 as usize, (col - 1) as usize);
        }
    }
    moves
}

} // verus!
