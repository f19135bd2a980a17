use vstd::prelude::*;
use crate::piece::{Coord, Piece};
use crate::square_set::{in_board, SquareSet};

verus! {

/// The board: `grid[row][col]` holds the piece on that square, if any.
pub type Grid = [[Option<Piece>; 8]; 8];

/// The last move made: the moved piece as it stood afterwards, and the square it left.
pub type LastMove = (Option<Piece>, Option<Coord>);

pub open spec fn cell(g: Grid, r: int, c: int) -> Option<Piece> {
    g[r][c]
}

pub open spec fn is_empty(g: Grid, r: int, c: int) -> bool {
    cell(g, r, c) is None
}

/// `(r, c)` holds a piece of the side opposite to `p`.
pub open spec fn is_enemy(g: Grid, p: Piece, r: int, c: int) -> bool {
    cell(g, r, c) is Some && cell(g, r, c)->0.color != p.color
}

/// `p` may land on `(r, c)`: the square is on the board and empty or held by an enemy.
pub open spec fn can_land(g: Grid, p: Piece, r: int, c: int) -> bool {
    in_board(r, c) && (is_empty(g, r, c) || is_enemy(g, p, r, c))
}

pub open spec fn abs(x: int) -> int {
    if x < 0 {
        -x
    } else {
        x
    }
}

/// `k` steps in direction `d`, where `d` is -1, 0 or 1.
pub open spec fn off(d: int, k: int) -> int {
    if d > 0 {
        k
    } else if d < 0 {
        -k
    } else {
        0
    }
}

/// Chebyshev distance from `p`'s square to `(r, c)`.
pub open spec fn dist(p: Piece, r: int, c: int) -> int {
    let dr = abs(r - p.row);
    let dc = abs(c - p.col);
    if dr > dc {
        dr
    } else {
        dc
    }
}

/// The squares at 1 .. k-1 steps from `(r0, c0)` in direction `(dr, dc)` are empty.
pub open spec fn path_clear(g: Grid, r0: int, c0: int, dr: int, dc: int, k: int) -> bool
    decreases k,
{
    if k <= 1 {
        true
    } else {
        path_clear(g, r0, c0, dr, dc, k - 1) && is_empty(g, r0 + off(dr, k - 1), c0 + off(dc, k - 1))
    }
}

/// A sliding piece `p` reaches `(r, c)` along the ray `(dr, dc)`: the square lies on the
/// ray, every square before it is empty, and it is empty or held by an enemy.
pub open spec fn ray_hit(g: Grid, p: Piece, dr: int, dc: int, r: int, c: int) -> bool {
    let k = dist(p, r, c);
    &&& k >= 1
    &&& r == p.row + off(dr, k)
    &&& c == p.col + off(dc, k)
    &&& path_clear(g, p.row as int, p.col as int, dr, dc, k)
    &&& can_land(g, p, r, c)
}

/// A blocked path stays blocked further along the ray.
pub proof fn lemma_path_clear_prefix(g: Grid, r0: int, c0: int, dr: int, dc: int, j: int, k: int)
    requires
        1 <= j < k,
        path_clear(g, r0, c0, dr, dc, k),
    ensures
        is_empty(g, r0 + off(dr, j), c0 + off(dc, j)),
    decreases k,
{
    if j < k - 1 {
        lemma_path_clear_prefix(g, r0, c0, dr, dc, j, k - 1);
    }
}

/// Adds to `set` every square that `p` reaches along the ray `(dr, dc)`: the walk goes
/// one square at a time, takes each empty square, and stops at the board's edge or at the
/// first occupied square, which it takes when an enemy holds it.
pub fn walk_ray(grid: &Grid, p: &Piece, dr: i64, dc: i64, set: &mut SquareSet)
    requires
        p.row < 8,
        p.col < 8,
        -1 <= dr <= 1,
        -1 <= dc <= 1,
        dr != 0 || dc != 0,
    ensures
        forall|r: int, c: int|
            #[trigger] final(set).has(r, c) == (old(set).has(r, c) || ray_hit(
                *grid,
                *p,
                dr as int,
                dc as int,
                r,
                c,
            )),
{
    let mut k: i64 = 1;
    let mut r: i64 = p.row as i64 + dr;
    let mut c: i64 = p.col as i64 + dc;
    loop
        invariant_except_break
            1 <= k <= 8,
            r == p.row + off(dr as int, k as int),
            c == p.col + off(dc as int, k as int),
            path_clear(*grid, p.row as int, p.col as int, dr as int, dc as int, k as int),
            forall|x: int, y: int|
                #[trigger] set.has(x, y) == (old(set).has(x, y) || (ray_hit(
                    *grid,
                    *p,
                    dr as int,
                    dc as int,
                    x,
                    y,
                ) && dist(*p, x, y) < k)),
        invariant
            p.row < 8,
            p.col < 8,
            -1 <= dr <= 1,
            -1 <= dc <= 1,
            dr != 0 || dc != 0,
        ensures
            forall|x: int, y: int|
                #[trigger] set.has(x, y) == (old(set).has(x, y) || ray_hit(
                    *grid,
                    *p,
                    dr as int,
                    dc as int,
                    x,
                    y,
                )),
        decreases 8 - k,
    {
        if r < 0 || r >= 8 || c < 0 || c >= 8 {
            assert forall|x: int, y: int| ray_hit(*grid, *p, dr as int, dc as int, x, y)
                implies dist(*p, x, y) < k by {
                if dist(*p, x, y) >= k {
                    assert(!in_board(x, y));
                }
            }
            break;
        }
        let ru = r as usize;
        let cu = c as usize;
        match grid[ru][cu] {
            None => {
                set.insert(ru, cu);
                k = k + 1;
                r = r + dr;
                c = c + dc;
            },
            Some(q) => {
                if q.color != p.color {
                    set.insert(ru, cu);
                }
                assert forall|x: int, y: int| ray_hit(*grid, *p, dr as int, dc as int, x, y)
                    implies dist(*p, x, y) <= k by {
                    if dist(*p, x, y) > k {
                        lemma_path_clear_prefix(
                            *grid,
                            p.row as int,
                            p.col as int,
                            dr as int,
                            dc as int,
                            k as int,
                            dist(*p, x, y),
                        );
                    }
                }
                break;
            },
        }
    }
}

/// Adds to `set` the square `(dr, dc)` away from `p` when `p` may land there.
pub fn try_step(grid: &Grid, p: &Piece, dr: i64, dc: i64, set: &mut SquareSet)
    requires
        p.row < 8,
        p.col < 8,
        -2 <= dr <= 2,
        -2 <= dc <= 2,
    ensures
        forall|r: int, c: int|
            #[trigger] final(set).has(r, c) == (old(set).has(r, c) || (r == p.row + dr && c
                == p.col + dc && can_land(*grid, *p, r, c))),
{
    let r: i64 = p.row as i64 + dr;
    let c: i64 = p.col as i64 + dc;
    if 0 <= r && r < 8 && 0 <= c && c < 8 {
        let ru = r as usize;
        let cu = c as usize;
        let lands = match grid[ru][cu] {
            None => true,
            Some(q) => q.color != p.color,
        };
        if lands {
            set.insert(ru, cu);
        }
    }
}

} // verus!
