use vstd::prelude::*;
use crate::board::{ray_hit, walk_ray, Grid};
use crate::gamestate::GameState;
use crate::piece::Piece;
use crate::square_set::SquareSet;

verus! {

/// A bishop at `p` reaches `(r, c)` along one of the four diagonals.
pub open spec fn bishop_reaches(g: Grid, p: Piece, r: int, c: int) -> bool {
    ||| ray_hit(g, p, 1, 1, r, c)
    ||| ray_hit(g, p, 1, -1, r, c)
    ||| ray_hit(g, p, -1, -1, r, c)
    ||| ray_hit(g, p, -1, 1, r, c)
}

/// The squares a bishop standing at `piece`'s square may move to, before king safety.
pub fn possible_bishop_moves(game_state: &GameState, piece: &Piece) -> (moves: SquareSet)
    requires
        piece.row < 8,
        piece.col < 8,
    ensures
        forall|r: int, c: int|
            #[trigger] moves.has(r, c) == bishop_reaches(game_state.grid, *piece, r, c),
{
    let mut moves = SquareSet::new();
    walk_ray(&game_state.grid, piece, 1, 1, &mut moves);
    walk_ray(&game_state.grid, piece, 1, -1, &mut moves);
    walk_ray(&game_state.grid, piece, -1, -1, &mut moves);
    walk_ray(&game_state.grid, piece, -1, 1, &mut moves);
    moves
}

} // verus!
