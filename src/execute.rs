use vstd::prelude::*;
use crate::board::{abs, cell, is_empty, Grid, LastMove};
use crate::gamestate::{grid_wf, sits_at, GameState, MoveError};
use crate::legality::{legal_dest, piece_at};
use crate::piece::{promotion_row, Color, Coord, Piece, PieceType};
use crate::square_set::in_board;

verus! {

/// `g` with `v` on `(r, c)`.
pub open spec fn set_cell(g: Grid, r: int, c: int, v: Option<Piece>) -> Grid {
    vstd::array::spec_array_update(g, r, vstd::array::spec_array_update(g[r], c, v))
}

/// `p` after moving to `(r, c)`: marked as moved, at its new square, and a queen when it
/// is a pawn that reached its promotion row.
pub open spec fn moved_piece(p: Piece, r: int, c: int) -> Piece {
    Piece {
        piece_type: if p.piece_type == PieceType::Pawn && r == promotion_row(p.color) {
            PieceType::Queen
        } else {
            p.piece_type
        },
        has_moved: true,
        row: r as usize,
        col: c as usize,
        color: p.color,
    }
}

/// A pawn moving diagonally onto an empty square takes en passant the pawn beside it.
pub open spec fn takes_en_passant(g: Grid, p: Piece, r: int, c: int) -> bool {
    p.piece_type == PieceType::Pawn && c != p.col && is_empty(g, r, c)
}

/// A king moving two columns castles.
pub open spec fn is_castling(p: Piece, c: int) -> bool {
    p.piece_type == PieceType::King && abs(c - p.col) == 2
}

/// Moves whatever stands on `(row, from)` to `(row, to)`, recording its new column.
pub open spec fn shift_in_row(g: Grid, row: int, from: int, to: int) -> Grid {
    match cell(g, row, from) {
        Some(q) => set_cell(
            set_cell(g, row, to, Some(Piece { col: to as usize, ..q })),
            row,
            from,
            None,
        ),
        None => g,
    }
}

/// The board after `p` moves to `(r, c)`: the pawn taken en passant is removed, the rook
/// of a castling king jumps over it (from column 0 to 3, or from column 7 to 5), the piece
/// lands on `(r, c)` (promoted if due), and its origin is emptied.
pub open spec fn grid_after_move(g: Grid, p: Piece, r: int, c: int) -> Grid {
    let g1 = if takes_en_passant(g, p, r, c) {
        set_cell(g, p.row as int, c, None)
    } else {
        g
    };
    let g2 = if is_castling(p, c) && c == 2 {
        shift_in_row(g1, p.row as int, 0, 3)
    } else if is_castling(p, c) && c == 6 {
        shift_in_row(g1, p.row as int, 7, 5)
    } else {
        g1
    };
    set_cell(set_cell(g2, r, c, Some(moved_piece(p, r, c))), p.row as int, p.col as int, None)
}

/// The last move recorded once `p` has moved to `(r, c)`.
pub open spec fn last_after_move(p: Piece, r: int, c: int) -> LastMove {
    (Some(moved_piece(p, r, c)), Some(Coord { row: p.row, col: p.col }))
}

/// The whole state after `p` moves to `(r, c)`: the board and last move as above, and the
/// turn passed to the other side.
pub open spec fn state_after_move(s: GameState, p: Piece, r: int, c: int) -> GameState {
    GameState {
        grid: grid_after_move(s.grid, p, r, c),
        last_move: last_after_move(p, r, c),
        turn: s.turn.spec_opposite(),
        ..s
    }
}

/// Making a move keeps every piece recording its own square.
pub proof fn lemma_move_keeps_grid_wf(g: Grid, p: Piece, r: int, c: int)
    requires
        grid_wf(g),
        p.row < 8,
        p.col < 8,
        in_board(r, c),
    ensures
        grid_wf(grid_after_move(g, p, r, c)),
{
    let g1 = if takes_en_passant(g, p, r, c) {
        set_cell(g, p.row as int, c, None)
    } else {
        g
    };
    assert forall|x: int, y: int| in_board(x, y) implies #[trigger] sits_at(g1, x, y) by {
        assert(sits_at(g, x, y));
    }
    let g2 = if is_castling(p, c) && c == 2 {
        shift_in_row(g1, p.row as int, 0, 3)
    } else if is_castling(p, c) && c == 6 {
        shift_in_row(g1, p.row as int, 7, 5)
    } else {
        g1
    };
    assert(sits_at(g1, p.row as int, 0));
    assert(sits_at(g1, p.row as int, 7));
    assert forall|x: int, y: int| in_board(x, y) implies #[trigger] sits_at(g2, x, y) by {
        assert(sits_at(g1, x, y));
    }
    let g3 = grid_after_move(g, p, r, c);
    assert forall|x: int, y: int| in_board(x, y) implies #[trigger] sits_at(g3, x, y) by {
        assert(sits_at(g2, x, y));
    }
}

impl GameState {
    /// Makes the move of `piece` to `(to_row, to_col)` with its side effects, without
    /// asking whether it is legal, and passes the turn.
    pub(crate) fn apply_move(&mut self, piece: Piece, to_row: usize, to_col: usize)
        requires
            piece.row < 8,
            piece.col < 8,
            to_row < 8,
            to_col < 8,
        ensures
            *final(self) == state_after_move(*old(self), piece, to_row as int, to_col as int),
    {
        let from_row = piece.row;
        let from_col = piece.col;
        let mut moved = piece;
        moved.has_moved = true;
        moved.row = to_row;
        moved.col = to_col;
        if piece.piece_type == PieceType::Pawn {
            let last_row: usize = if piece.color == Color::White {
                0
            } else {
                7
            };
            if to_row == last_row {
                moved.piece_type = PieceType::Queen;
            }
            if to_col != from_col && self.grid[to_row][to_col].is_none() {
                self.grid[from_row][to_col] = None;
            }
        }
        if piece.piece_type == PieceType::King && (to_col == from_col + 2 || from_col == to_col + 2) {
            if to_col == 2 {
                self.shift_in_row(from_row, 0, 3);
            } else if to_col == 6 {
                self.shift_in_row(from_row, 7, 5);
            }
        }
        self.last_move = (Some(moved), Some(Coord { row: from_row, col: from_col }));
        self.grid[to_row][to_col] = Some(moved);
        self.grid[from_row][from_col] = None;
        self.turn = self.turn.opposite();
    }

    fn shift_in_row(&mut self, row: usize, from: usize, to: usize)
        requires
            row < 8,
            from < 8,
            to < 8,
        ensures
            final(self).grid == shift_in_row(old(self).grid, row as int, from as int, to as int),
            final(self).last_move == old(self).last_move,
            final(self).turn == old(self).turn,
            final(self).rows == old(self).rows,
            final(self).cols == old(self).cols,
            final(self).king_checked == old(self).king_checked,
            final(self).checking_state == old(self).checking_state,
    {
        match self.grid[row][from] {
            Some(q) => {
                let mut q = q;
                q.col = to;
                self.grid[row][to] = Some(q);
                self.grid[row][from] = None;
            },
            None => {},
        }
    }
}

impl GameState {
    /// Moves the piece on `(from_row, from_col)` to `(to_row, to_col)` when that is one
    /// of its legal moves, with castling, en passant and promotion, and passes the turn.
    /// A refused move leaves the state as it was.
    pub fn move_piece(&mut self, from_row: usize, from_col: usize, to_row: usize, to_col: usize) -> (res: Result<(), MoveError>)
        requires
            old(self).wf(),
        ensures
            final(self).wf(),
            piece_at(*old(self), from_row as int, from_col as int) is None ==> res == Err::<(), MoveError>(MoveError::NoPieceAtOrigin)
                && *final(self) == *old(self),
            piece_at(*old(self), from_row as int, from_col as int) is Some ==> ({
                let p = piece_at(*old(self), from_row as int, from_col as int)->0;
                if legal_dest(*old(self), p, to_row as int, to_col as int) {
                    res == Ok::<(), MoveError>(()) && *final(self) == state_after_move(*old(self), p, to_row as int, to_col as int)
                } else {
                    res == Err::<(), MoveError>(MoveError::IllegalDestination) && *final(self) == *old(self)
                }
            }),
    {
        if !(from_row < 8 && from_col < 8) {
            return Err(MoveError::NoPieceAtOrigin);
        }
        match self.grid[from_row][from_col] {
            None => Err(MoveError::NoPieceAtOrigin),
            Some(piece) => {
                assert(sits_at(self.grid, from_row as int, from_col as int));
                let moves = self.possible_moves(piece);
                if moves.contains(&Coord { row: to_row, col: to_col }) {
                    proof {
                        lemma_move_keeps_grid_wf(self.grid, piece, to_row as int, to_col as int);
                    }
                    self.apply_move(piece, to_row, to_col);
                    Ok(())
                } else {
                    Err(MoveError::IllegalDestination)
                }
            },
        }
    }

    /// Makes the move as `move_piece` does, after checking that the piece on the origin
    /// belongs to the side to move.
    pub fn play_move(&mut self, from_row: usize, from_col: usize, to_row: usize, to_col: usize) -> (res: Result<(), MoveError>)
        requires
            old(self).wf(),
        ensures
            final(self).wf(),
            piece_at(*old(self), from_row as int, from_col as int) is None ==> res == Err::<(), MoveError>(MoveError::NoPieceAtOrigin)
                && *final(self) == *old(self),
            piece_at(*old(self), from_row as int, from_col as int) is Some ==> ({
                let p = piece_at(*old(self), from_row as int, from_col as int)->0;
                if p.color != old(self).turn {
                    res == Err::<(), MoveError>(MoveError::WrongTurn) && *final(self) == *old(self)
                } else if legal_dest(*old(self), p, to_row as int, to_col as int) {
                    res == Ok::<(), MoveError>(()) && *final(self) == state_after_move(*old(self), p, to_row as int, to_col as int)
                } else {
                    res == Err::<(), MoveError>(MoveError::IllegalDestination) && *final(self) == *old(self)
                }
            }),
    {
        if from_row < 8 && from_col < 8 {
            match self.grid[from_row][from_col] {
                Some(piece) => {
                    if piece.color != self.turn {
                        return Err(MoveError::WrongTurn);
                    }
                },
                None => {},
            }
        }
        self.move_piece(from_row, from_col, to_row, to_col)
    }
}

} // verus!
