use vstd::prelude::*;
use crate::board::{cell, Grid, LastMove};
use crate::execute::{grid_after_move, last_after_move, lemma_move_keeps_grid_wf};
use crate::gamestate::{grid_wf, reaches, sits_at, GameState};
use crate::king::{attacked, in_check};
use crate::piece::{Color, Coord, Piece, PieceType};
use crate::square_set::{in_board, SquareSet};

verus! {

/// The piece on `(r, c)`, or `None` when the square is empty or off the board.
pub open spec fn piece_at(s: GameState, r: int, c: int) -> Option<Piece> {
    if in_board(r, c) {
        cell(s.grid, r, c)
    } else {
        None
    }
}

/// The piece on `(i, j)` is of `color` and may legally move to `(r, c)`.
pub open spec fn can_move(s: GameState, color: Color, i: int, j: int, r: int, c: int) -> bool {
    &&& piece_at(s, i, j) is Some
    &&& piece_at(s, i, j)->0.color == color
    &&& legal_dest(s, piece_at(s, i, j)->0, r, c)
}

/// `(r, c)` holds a king of `color`.
pub open spec fn king_of(g: Grid, r: int, c: int, color: Color) -> bool {
    &&& in_board(r, c)
    &&& cell(g, r, c) is Some
    &&& cell(g, r, c)->0.piece_type == PieceType::King
    &&& cell(g, r, c)->0.color == color
}

/// Some king of `color` stands on an attacked square.
pub open spec fn own_king_attacked(g: Grid, lm: LastMove, color: Color) -> bool {
    exists|r: int, c: int| #[trigger] king_of(g, r, c, color) && attacked(g, lm, r, c, color)
}

/// The king-safety and occupancy filter applied to a candidate `(r, c)` of `p`: on the
/// board; for a king, not attacked; for another piece (unless `s` is a scratch copy),
/// its own king is not attacked once the move is made; and not onto a piece of its own
/// color or its own square.
pub open spec fn passes_filter(s: GameState, p: Piece, r: int, c: int) -> bool {
    &&& in_board(r, c)
    &&& p.piece_type == PieceType::King ==> !attacked(s.grid, s.last_move, r, c, p.color)
    &&& (p.piece_type != PieceType::King && !s.checking_state) ==> !own_king_attacked(
        grid_after_move(s.grid, p, r, c),
        last_after_move(p, r, c),
        p.color,
    )
    &&& match cell(s.grid, r, c) {
        Some(q) => !(q.color == p.color || (p.row == r && p.col == c)),
        None => true,
    }
}

/// `(r, c)` is a legal move of `p`: within its movement pattern and past the filter.
pub open spec fn legal_dest(s: GameState, p: Piece, r: int, c: int) -> bool {
    reaches(s.grid, s.last_move, p, r, c) && passes_filter(s, p, r, c)
}

impl GameState {
    /// Whether some king of `color` stands on an attacked square. Together with
    /// `has_any_legal_move` this tells checkmate from stalemate.
    pub fn king_in_check(&self, color: Color) -> (b: bool)
        requires
            grid_wf(self.grid),
        ensures
            b == own_king_attacked(self.grid, self.last_move, color),
    {
        let mut i: usize = 0;
        while i < 8
            invariant
                i <= 8,
                grid_wf(self.grid),
                forall|x: int, y: int|
                    x < i ==> !(#[trigger] king_of(self.grid, x, y, color) && attacked(
                        self.grid,
                        self.last_move,
                        x,
                        y,
                        color,
                    )),
            decreases 8 - i,
        {
            let mut j: usize = 0;
            while j < 8
                invariant
                    i < 8,
                    j <= 8,
                    grid_wf(self.grid),
                    forall|x: int, y: int|
                        (x < i || (x == i && y < j)) ==> !(#[trigger] king_of(self.grid, x, y, color)
                            && attacked(self.grid, self.last_move, x, y, color)),
                decreases 8 - j,
            {
                match self.grid[i][j] {
                    Some(q) => {
                        if q.piece_type == PieceType::King && q.color == color {
                            if in_check(self, Coord { row: i, col: j }, &q) {
                                assert(king_of(self.grid, i as int, j as int, color));
                                return true;
                            }
                        }
                    },
                    None => {},
                }
                j = j + 1;
            }
            i = i + 1;
        }
        assert forall|x: int, y: int|
            !(#[trigger] king_of(self.grid, x, y, color) && attacked(self.grid, self.last_move, x, y, color)) by {
            if x >= 8 {
                assert(!in_board(x, y));
            }
        }
        false
    }

    /// Whether `(row, col)` passes the legality filter for `piece`: on the board, not an
    /// attacked square for a king, not leaving its own king attacked for another piece,
    /// and not onto a piece of its own color or its own square.
    pub fn valid_move(&self, piece: Piece, row: usize, col: usize) -> (b: bool)
        requires
            self.wf(),
            piece.row < 8,
            piece.col < 8,
        ensures
            b == passes_filter(*self, piece, row as int, col as int),
    {
        if !self.in_bounds(row, col) {
            return false;
        }
        let target_ok = match self.grid[row][col] {
            Some(target) => !(piece.color == target.color || (piece.row == row && piece.col == col)),
            None => true,
        };
        if !target_ok {
            return false;
        }
        if piece.piece_type == PieceType::King {
            return !in_check(self, Coord { row, col }, &piece);
        }
        if !self.checking_state {
            let mut scratch = *self;
            scratch.checking_state = true;
            scratch.apply_move(piece, row, col);
            proof {
                lemma_move_keeps_grid_wf(self.grid, piece, row as int, col as int);
            }
            if scratch.king_in_check(piece.color) {
                return false;
            }
        }
        true
    }

    /// Adds `(row, col)` to `moves` when it passes the legality filter for `piece`.
    pub fn insert_if_valid(&self, piece: Piece, row: usize, col: usize, moves: &mut SquareSet)
        requires
            self.wf(),
            piece.row < 8,
            piece.col < 8,
        ensures
            forall|x: int, y: int|
                #[trigger] final(moves).has(x, y) == (old(moves).has(x, y) || (x == row && y == col
                    && passes_filter(*self, piece, x, y))),
    {
        if self.valid_move(piece, row, col) {
            moves.insert(row, col);
        }
    }

    /// The legal moves of `piece`: the squares of its movement pattern that pass the
    /// legality filter.
    pub fn possible_moves(&self, piece: Piece) -> (moves: SquareSet)
        requires
            self.wf(),
            piece.row < 8,
            piece.col < 8,
        ensures
            forall|r: int, c: int| #[trigger] moves.has(r, c) == legal_dest(*self, piece, r, c),
    {
        let candidates = self.pseudo_legal_moves(&piece);
        let mut moves = SquareSet::new();
        let mut r: usize = 0;
        while r < 8
            invariant
                r <= 8,
                self.wf(),
                piece.row < 8,
                piece.col < 8,
                forall|x: int, y: int| #[trigger] candidates.has(x, y) == reaches(self.grid, self.last_move, piece, x, y),
                forall|x: int, y: int|
                    #[trigger] moves.has(x, y) == (legal_dest(*self, piece, x, y) && x < r),
            decreases 8 - r,
        {
            let mut c: usize = 0;
            while c < 8
                invariant
                    r < 8,
                    c <= 8,
                    self.wf(),
                    piece.row < 8,
                    piece.col < 8,
                    forall|x: int, y: int| #[trigger] candidates.has(x, y) == reaches(self.grid, self.last_move, piece, x, y),
                    forall|x: int, y: int|
                        #[trigger] moves.has(x, y) == (legal_dest(*self, piece, x, y) && (x < r || (x
                            == r && y < c))),
                decreases 8 - c,
            {
                if candidates.contains(&Coord { row: r, col: c }) {
                    self.insert_if_valid(piece, r, c, &mut moves);
                }
                c = c + 1;
            }
            r = r + 1;
        }
        assert forall|x: int, y: int| legal_dest(*self, piece, x, y) implies x < 8 by {}
        moves
    }

    /// The legal moves of the piece on `coord`; none when the square is empty.
    pub fn legal_moves(&self, coord: Coord) -> (moves: SquareSet)
        requires
            self.wf(),
        ensures
            forall|r: int, c: int|
                #[trigger] moves.has(r, c) == (piece_at(*self, coord.row as int, coord.col as int) is Some
                    && legal_dest(*self, piece_at(*self, coord.row as int, coord.col as int)->0, r, c)),
    {
        if coord.row < 8 && coord.col < 8 {
            match self.grid[coord.row][coord.col] {
                Some(piece) => {
                    assert(sits_at(self.grid, coord.row as int, coord.col as int));
                    return self.possible_moves(piece);
                },
                None => {},
            }
        }
        SquareSet::new()
    }

    /// Whether some piece of `color` has a legal move. When it is `color`'s turn, false
    /// means checkmate if its king is attacked and stalemate otherwise.
    pub fn has_any_legal_move(&self, color: Color) -> (b: bool)
        requires
            self.wf(),
        ensures
            b == exists|i: int, j: int, r: int, c: int| #[trigger] can_move(*self, color, i, j, r, c),
    {
        let mut i: usize = 0;
        while i < 8
            invariant
                i <= 8,
                self.wf(),
                forall|x: int, y: int, r: int, c: int| x < i ==> !#[trigger] can_move(*self, color, x, y, r, c),
            decreases 8 - i,
        {
            let mut j: usize = 0;
            while j < 8
                invariant
                    i < 8,
                    j <= 8,
                    self.wf(),
                    forall|x: int, y: int, r: int, c: int|
                        (x < i || (x == i && y < j)) ==> !#[trigger] can_move(*self, color, x, y, r, c),
                decreases 8 - j,
            {
                match self.grid[i][j] {
                    Some(q) => {
                        if q.color == color {
                            assert(sits_at(self.grid, i as int, j as int));
                            let moves = self.possible_moves(q);
                            if !moves.is_empty() {
                                let ghost w = choose|r: int, c: int| moves.has(r, c);
                                assert(can_move(*self, color, i as int, j as int, w.0, w.1));
                                return true;
                            }
                            assert forall|r: int, c: int|
                                !#[trigger] can_move(*self, color, i as int, j as int, r, c) by {
                                assert(!moves.has(r, c));
                            }
                        }
                    },
                    None => {},
                }
                j = j + 1;
            }
            i = i + 1;
        }
        assert forall|x: int, y: int, r: int, c: int| !#[trigger] can_move(*self, color, x, y, r, c) by {
            if x >= 8 {
                assert(!in_board(x, y));
            }
        }
        false
    }
}


} // verus!
