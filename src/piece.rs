use vstd::prelude::*;

verus! {

/// The six kinds of pieces.
#[derive(PartialEq, Eq, Structural, Hash, Debug, Copy, Clone)]
pub enum PieceType {
    Pawn,
    King,
    Queen,
    Rook,
    Bishop,
    Knight,
}

/// The two sides. White moves first and its pawns advance toward row 0.
#[derive(PartialEq, Eq, Structural, Hash, Debug, Copy, Clone)]
pub enum Color {
    White,
    Black,
}

/// A square of the board, by row and column.
#[derive(PartialEq, Eq, Structural, Hash, Debug, Copy, Clone)]
pub struct Coord {
    pub row: usize,
    pub col: usize,
}

/// A piece, carrying the square it stands on and whether it has ever moved.
#[derive(PartialEq, Eq, Structural, Hash, Debug, Copy, Clone)]
pub struct Piece {
    pub piece_type: PieceType,
    pub has_moved: bool,
    pub row: usize,
    pub col: usize,
    pub color: Color,
}

impl Color {
    pub open spec fn spec_opposite(self) -> Color {
        match self {
            Color::White => Color::Black,
            Color::Black => Color::White,
        }
    }

    /// The other side.
    #[verifier::when_used_as_spec(spec_opposite)]
    pub fn opposite(self) -> (r: Color)
        ensures
            r == self.spec_opposite(),
    {
        match self {
            Color::White => Color::Black,
            Color::Black => Color::White,
        }
    }
}

/// Row step of a pawn of this color moving forward.
pub open spec fn forward(color: Color) -> int {
    if color == Color::White {
        -1
    } else {
        1
    }
}

/// Row from which a pawn of this color may take en passant: the row on which an
/// enemy pawn lands after its two-square advance.
pub open spec fn en_passant_row(color: Color) -> int {
    if color == Color::White {
        3
    } else {
        4
    }
}

/// Row on which this color's pawns start.
pub open spec fn pawn_start_row(color: Color) -> int {
    if color == Color::White {
        6
    } else {
        1
    }
}

/// Row on which a pawn of this color is promoted: the opponent's back rank.
pub open spec fn promotion_row(color: Color) -> int {
    if color == Color::White {
        0
    } else {
        7
    }
}

} // verus!
