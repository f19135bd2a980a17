use vstd::prelude::*;
use crate::bishop::{bishop_reaches, possible_bishop_moves};
use crate::board::{cell, Grid, LastMove};
use crate::king::{king_reaches, possible_king_moves};
use crate::knight::{knight_reaches, possible_knight_moves};
use crate::pawn::{pawn_reaches, possible_pawn_moves};
use crate::piece::{Color, Coord, Piece, PieceType};
use crate::queen::{possible_queen_moves, queen_reaches};
use crate::rook::{possible_rook_moves, rook_reaches};
use crate::square_set::{in_board, SquareSet};

verus! {

/// A game in progress: the board, the last move, and whose turn it is.
#[derive(Copy, Clone)]
pub struct GameState {
    pub grid: Grid,
    pub rows: usize,
    pub cols: usize,
    pub last_move: LastMove,
    pub turn: Color,
    pub king_checked: bool,
    /// Set on a scratch copy while a move is tried out for king safety; such a copy
    /// judges moves without trying them out again.
    pub checking_state: bool,
}

/// Why a move was refused.
#[derive(PartialEq, Eq, Structural, Debug, Copy, Clone)]
pub enum MoveError {
    /// The origin square is empty or off the board.
    NoPieceAtOrigin,
    /// The destination is not among the legal moves of the piece.
    IllegalDestination,
    /// The piece on the origin square belongs to the side not to move.
    WrongTurn,
}

/// The square `(r, c)` is empty or holds a piece that stands at `(r, c)`.
pub open spec fn sits_at(g: Grid, r: int, c: int) -> bool {
    match cell(g, r, c) {
        Some(q) => q.row == r && q.col == c,
        None => true,
    }
}

/// Every piece on the board records its own square.
pub open spec fn grid_wf(g: Grid) -> bool {
    forall|r: int, c: int| in_board(r, c) ==> #[trigger] sits_at(g, r, c)
}

/// Where a piece `p` may go by its movement pattern, before king safety.
pub open spec fn reaches(g: Grid, lm: LastMove, p: Piece, r: int, c: int) -> bool {
    match p.piece_type {
        PieceType::Pawn => pawn_reaches(g, lm, p, r, c),
        PieceType::Knight => knight_reaches(g, p, r, c),
        PieceType::Bishop => bishop_reaches(g, p, r, c),
        PieceType::Rook => rook_reaches(g, p, r, c),
        PieceType::Queen => queen_reaches(g, p, r, c),
        PieceType::King => king_reaches(g, p, r, c),
    }
}

/// The kind of piece that starts on column `c` of a back rank.
pub open spec fn back_rank_type(c: int) -> PieceType {
    if c == 0 || c == 7 {
        PieceType::Rook
    } else if c == 1 || c == 6 {
        PieceType::Knight
    } else if c == 2 || c == 5 {
        PieceType::Bishop
    } else if c == 3 {
        PieceType::Queen
    } else {
        PieceType::King
    }
}

/// What stands on `(r, c)` in the starting position: Black on rows 0 and 1, White on
/// rows 6 and 7, pawns on the inner rows, nothing in between.
pub open spec fn start_cell(r: int, c: int) -> Option<Piece> {
    let color = if r <= 1 {
        Color::Black
    } else {
        Color::White
    };
    if r == 0 || r == 7 {
        Some(Piece { piece_type: back_rank_type(c), has_moved: false, row: r as usize, col: c as usize, color })
    } else if r == 1 || r == 6 {
        Some(Piece { piece_type: PieceType::Pawn, has_moved: false, row: r as usize, col: c as usize, color })
    } else {
        None
    }
}

/// `s` is a new game: the starting position, no move made yet, White to move.
pub open spec fn is_new_game(s: GameState) -> bool {
    &&& s.rows == 8
    &&& s.cols == 8
    &&& forall|r: int, c: int| in_board(r, c) ==> #[trigger] cell(s.grid, r, c) == start_cell(r, c)
    &&& s.last_move == (None::<Piece>, None::<Coord>)
    &&& s.turn == Color::White
    &&& !s.king_checked
    &&& !s.checking_state
}

/// The pieces met reading the first `n` squares row by row.
pub open spec fn pieces_upto(g: Grid, n: int) -> Seq<Piece>
    decreases n,
{
    if n <= 0 {
        Seq::empty()
    } else {
        let prev = pieces_upto(g, n - 1);
        match cell(g, (n - 1) / 8, (n - 1) % 8) {
            Some(q) => prev.push(q),
            None => prev,
        }
    }
}

impl GameState {
    /// The board holds 8 rows and 8 columns and every piece records its own square.
    pub open spec fn wf(&self) -> bool {
        self.rows == 8 && self.cols == 8 && grid_wf(self.grid)
    }

    /// Whether `(row, col)` is on the board.
    pub fn in_bounds(&self, row: usize, col: usize) -> (b: bool)
        requires
            self.wf(),
        ensures
            b == in_board(row as int, col as int),
    {
        row < self.rows && col < self.cols
    }

    /// The squares `piece` may reach by its movement pattern, before king safety.
    pub fn pseudo_legal_moves(&self, piece: &Piece) -> (moves: SquareSet)
        requires
            piece.row < 8,
            piece.col < 8,
        ensures
            forall|r: int, c: int|
                #[trigger] moves.has(r, c) == reaches(self.grid, self.last_move, *piece, r, c),
    {
        match piece.piece_type {
            PieceType::Knight => possible_knight_moves(self, piece),
            PieceType::Bishop => possible_bishop_moves(self, piece),
            PieceType::Queen => possible_queen_moves(self, piece),
            PieceType::Pawn => possible_pawn_moves(self, piece),
            PieceType::Rook => possible_rook_moves(self, piece),
            PieceType::King => possible_king_moves(self, piece),
        }
    }
}

fn back_rank_piece(c: usize) -> (t: PieceType)
    ensures
        t == back_rank_type(c as int),
{
    if c == 0 || c == 7 {
        PieceType::Rook
    } else if c == 1 || c == 6 {
        PieceType::Knight
    } else if c == 2 || c == 5 {
        PieceType::Bishop
    } else if c == 3 {
        PieceType::Queen
    } else {
        PieceType::King
    }
}

impl GameState {
    /// A new game: the standard starting position with White to move.
    pub fn new() -> (s: GameState)
        ensures
            is_new_game(s),
            s.wf(),
    {
        let mut s = GameState {
            grid: [[None; 8]; 8],
            rows: 8,
            cols: 8,
            last_move: (None, None),
            turn: Color::White,
            king_checked: false,
            checking_state: false,
        };
        let mut c: usize = 0;
        while c < 8
            invariant
                c <= 8,
                s.rows == 8,
                s.cols == 8,
                s.last_move == (None::<Piece>, None::<Coord>),
                s.turn == Color::White,
                !s.king_checked,
                !s.checking_state,
                forall|x: int, y: int|
                    in_board(x, y) ==> #[trigger] cell(s.grid, x, y) == if y < c {
                        start_cell(x, y)
                    } else {
                        None
                    },
            decreases 8 - c,
        {
            let kind = back_rank_piece(c);
            let ghost prev = s.grid;
            s.grid[0][c] = Some(Piece { piece_type: kind, has_moved: false, row: 0, col: c, color: Color::Black });
            s.grid[1][c] = Some(Piece { piece_type: PieceType::Pawn, has_moved: false, row: 1, col: c, color: Color::Black });
            s.grid[6][c] = Some(Piece { piece_type: PieceType::Pawn, has_moved: false, row: 6, col: c, color: Color::White });
            s.grid[7][c] = Some(Piece { piece_type: kind, has_moved: false, row: 7, col: c, color: Color::White });
            assert forall|x: int, y: int| in_board(x, y) implies #[trigger] cell(s.grid, x, y) == if y < c + 1 {
                start_cell(x, y)
            } else {
                None
            } by {
                assert(cell(prev, x, y) == if y < c { start_cell(x, y) } else { None });
                if y == c {
                    if x == 0 || x == 7 {
                        assert(start_cell(x, y) == Some(Piece { piece_type: kind, has_moved: false, row: x as usize, col: c, color: if x == 0 { Color::Black } else { Color::White } }));
                    }
                }
            }
            c = c + 1;
        }
        assert forall|x: int, y: int| in_board(x, y) implies #[trigger] sits_at(s.grid, x, y) by {
            assert(cell(s.grid, x, y) == start_cell(x, y));
        }
        s
    }

    /// Every piece on the board, reading the rows from 0 to 7, each from column 0 to 7.
    pub fn piece_list(&self) -> (pieces: Vec<Piece>)
        ensures
            pieces@ == pieces_upto(self.grid, 64),
    {
        let mut pieces: Vec<Piece> = Vec::new();
        let mut k: usize = 0;
        while k < 64
            invariant
                k <= 64,
                pieces@ == pieces_upto(self.grid, k as int),
            decreases 64 - k,
        {
            match self.grid[k / 8][k % 8] {
                Some(q) => pieces.push(q),
                None => {},
            }
            k = k + 1;
        }
        pieces
    }
}

impl Default for GameState {
    fn default() -> (s: GameState)
        ensures
            is_new_game(s),
    {
        GameState::new()
    }
}

} // verus!
