use vstd::prelude::*;
use crate::board::{can_land, dist, is_empty, cell, try_step, Grid};
use crate::gamestate::{grid_wf, reaches, sits_at, GameState};
use crate::board::LastMove;
use crate::piece::{Color, Coord, Piece, PieceType};
use crate::square_set::{in_board, SquareSet};

verus! {

/// `(row, rc)` holds a rook of `king`'s color that has never moved.
pub open spec fn castle_rook_ready(g: Grid, king: Piece, rc: int) -> bool {
    &&& cell(g, king.row as int, rc) is Some
    &&& cell(g, king.row as int, rc)->0.piece_type == PieceType::Rook
    &&& cell(g, king.row as int, rc)->0.color == king.color
    &&& !cell(g, king.row as int, rc)->0.has_moved
}

/// The king at `king` may castle to `(r, c)`: it has never moved and stands on column 4,
/// the rook of that side has never moved, and every square between them is empty. The
/// king then lands on column 2 (with the rook of column 0) or on column 6 (with the rook
/// of column 7).
pub open spec fn castles_to(g: Grid, king: Piece, r: int, c: int) -> bool {
    let row = king.row as int;
    &&& !king.has_moved
    &&& king.col == 4
    &&& r == row
    &&& {
        ||| c == 2 && castle_rook_ready(g, king, 0) && is_empty(g, row, 1) && is_empty(g, row, 2)
            && is_empty(g, row, 3)
        ||| c == 6 && castle_rook_ready(g, king, 7) && is_empty(g, row, 5) && is_empty(g, row, 6)
    }
}

/// A king at `p` reaches `(r, c)`: an adjacent square it may land on, or a castling square.
pub open spec fn king_reaches(g: Grid, p: Piece, r: int, c: int) -> bool {
    (dist(p, r, c) == 1 && can_land(g, p, r, c)) || castles_to(g, p, r, c)
}

fn rook_ready(square: Option<Piece>, king: &Piece) -> (b: bool)
    ensures
        b == (square is Some && square->0.piece_type == PieceType::Rook && square->0.color
            == king.color && !square->0.has_moved),
{
    match square {
        Some(q) => q.piece_type == PieceType::Rook && q.color == king.color && !q.has_moved,
        None => false,
    }
}

/// The squares a king standing at `piece`'s square may move to, before king safety:
/// the eight neighbours and the castling squares.
pub fn possible_king_moves(game_state: &GameState, piece: &Piece) -> (moves: SquareSet)
    requires
        piece.row < 8,
        piece.col < 8,
    ensures
        forall|r: int, c: int|
            #[trigger] moves.has(r, c) == king_reaches(game_state.grid, *piece, r, c),
{
    let g = &game_state.grid;
    let mut moves = SquareSet::new();
    if !piece.has_moved && piece.col == 4 {
        let row = piece.row;
        if rook_ready(g[row][0], piece) && g[row][1].is_none() && g[row][2].is_none()
            && g[row][3].is_none() {
            moves.insert(row, 2);
        }
        if rook_ready(g[row][7], piece) && g[row][5].is_none() && g[row][6].is_none() {
            moves.insert(row, 6);
        }
    }
    try_step(g, piece, -1, 0, &mut moves);
    try_step(g, piece, 1, 0, &mut moves);
    try_step(g, piece, 0, -1, &mut moves);
    try_step(g, piece, 0, 1, &mut moves);
    try_step(g, piece, 1, 1, &mut moves);
    try_step(g, piece, 1, -1, &mut moves);
    try_step(g, piece, -1, -1, &mut moves);
    try_step(g, piece, -1, 1, &mut moves);
    moves
}

/// The piece on `(i, j)` attacks `(r, c)` against `color`: it is of the other color, is
/// not a king, and reaches `(r, c)` by its movement pattern.
pub open spec fn attacked_by(g: Grid, lm: LastMove, i: int, j: int, r: int, c: int, color: Color) -> bool {
    &&& in_board(i, j)
    &&& cell(g, i, j) is Some
    &&& cell(g, i, j)->0.color != color
    &&& cell(g, i, j)->0.piece_type != PieceType::King
    &&& reaches(g, lm, cell(g, i, j)->0, r, c)
}

/// `(r, c)` is attacked against `color` by some piece on the board. Kings are not
/// counted as attackers.
pub open spec fn attacked(g: Grid, lm: LastMove, r: int, c: int, color: Color) -> bool {
    exists|i: int, j: int| #[trigger] attacked_by(g, lm, i, j, r, c, color)
}

/// Whether `pos` is attacked against `piece`'s color.
pub fn in_check(game_state: &GameState, pos: Coord, piece: &Piece) -> (b: bool)
    requires
        grid_wf(game_state.grid),
    ensures
        b == attacked(
            game_state.grid,
            game_state.last_move,
            pos.row as int,
            pos.col as int,
            piece.color,
        ),
{
    let g = &game_state.grid;
    let lm = game_state.last_move;
    let ghost r = pos.row as int;
    let ghost c = pos.col as int;
    let mut i: usize = 0;
    while i < 8
        invariant
            i <= 8,
            grid_wf(*g),
            *g == game_state.grid,
            lm == game_state.last_move,
            r == pos.row,
            c == pos.col,
            forall|x: int, y: int| x < i ==> !#[trigger] attacked_by(*g, lm, x, y, r, c, piece.color),
        decreases 8 - i,
    {
        let mut j: usize = 0;
        while j < 8
            invariant
                i < 8,
                j <= 8,
                grid_wf(*g),
                *g == game_state.grid,
                lm == game_state.last_move,
                r == pos.row,
                c == pos.col,
                forall|x: int, y: int|
                    (x < i || (x == i && y < j)) ==> !#[trigger] attacked_by(*g, lm, x, y, r, c, piece.color),
            decreases 8 - j,
        {
            match g[i][j] {
                Some(q) => {
                    if q.color != piece.color && q.piece_type != PieceType::King {
                        assert(sits_at(*g, i as int, j as int));
                        let moves = game_state.pseudo_legal_moves(&q);
                        if moves.contains(&pos) {
                            assert(attacked_by(*g, lm, i as int, j as int, r, c, piece.color));
                            return true;
                        }
                    }
                },
                None => {},
            }
            j = j + 1;
        }
        i = i + 1;
    }
    assert forall|x: int, y: int| !#[trigger] attacked_by(*g, lm, x, y, r, c, piece.color) by {
        if x >= 8 {
            assert(!in_board(x, y));
        }
    }
    false
}

} // verus!
