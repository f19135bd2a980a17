use vstd::prelude::*;
use crate::board::{ray_hit, walk_ray, Grid};
use crate::gamestate::GameState;
use crate::piece::Piece;
use crate::square_set::SquareSet;

verus! {

/// A rook at `p` reaches `(r, c)` along its row or its column.
pub open spec fn rook_reaches(g: Grid, p: Piece, r: int, c: int) -> bool {
    ||| ray_hit(g, p, -1, 0, r, c)
    ||| ray_hit(g, p, 1, 0, r, c)
    ||| ray_hit(g, p, 0, -1, r, c)
    ||| ray_hit(g, p, 0, 1, r, c)
}

/// The squares a rook standing at `piece`'s square may move to, before king safety.
pub fn possible_rook_moves(game_state: &GameState, piece: &Piece) -> (moves: SquareSet)
    requires
        piece.row < 8,
        piece.col < 8,
    ensures
        forall|r: int, c: int|
            #[trigger] moves.has(r, c) == rook_reaches(game_state.grid, *piece, r, c),
{
    let mut moves = SquareSet::new();
    walk_ray(&game_state.grid, piece, -1, 0, &mut moves);
    walk_ray(&game_state.grid, piece, 1, 0, &mut moves);
    walk_ray(&game_state.grid, piece, 0, -1, &mut moves);
    walk_ray(&game_state.grid, piece, 0, 1, &mut moves);
    moves
}

} // verus!
