use vstd::prelude::*;
use crate::board::{abs, can_land, try_step, Grid};
use crate::gamestate::GameState;
use crate::piece::Piece;
use crate::square_set::SquareSet;

verus! {

/// A knight's jump: one square one way and two the other.
pub open spec fn knight_jump(dr: int, dc: int) -> bool {
    (abs(dr) == 1 && abs(dc) == 2) || (abs(dr) == 2 && abs(dc) == 1)
}

/// A knight at `p` reaches `(r, c)`.
pub open spec fn knight_reaches(g: Grid, p: Piece, r: int, c: int) -> bool {
    knight_jump(r - p.row, c - p.col) && can_land(g, p, r, c)
}

/// The squares a knight standing at `piece`'s square may move to, before king safety.
pub fn possible_knight_moves(game_state: &GameState, piece: &Piece) -> (moves: SquareSet)
    requires
        piece.row < 8,
        piece.col < 8,
    ensures
        forall|r: int, c: int|
            #[trigger] moves.has(r, c) == knight_reaches(game_state.grid, *piece, r, c),
{
    let g = &game_state.grid;
    let mut moves = SquareSet::new();
    try_step(g, piece, -2, -1, &mut moves);
    try_step(g, piece, -2, 1, &mut moves);
    try_step(g, piece, -1, 2, &mut moves);
    try_step(g, piece, -1, -2, &mut moves);
    try_step(g, piece, 1, -2, &mut moves);
    try_step(g, piece, 1, 2, &mut moves);
    try_step(g, piece, 2, 1, &mut moves);
    try_step(g, piece, 2, -1, &mut moves);
    moves
}

} // verus!
