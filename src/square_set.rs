use vstd::prelude::*;
use crate::piece::Coord;

verus! {

pub open spec fn in_board(r: int, c: int) -> bool {
    0 <= r < 8 && 0 <= c < 8
}

/// The squares of `s` among the first `n` squares read row by row.
pub open spec fn squares_upto(s: SquareSet, n: int) -> Seq<Coord>
    decreases n,
{
    if n <= 0 {
        Seq::empty()
    } else {
        let prev = squares_upto(s, n - 1);
        if s.has((n - 1) / 8, (n - 1) % 8) {
            prev.push(Coord { row: ((n - 1) / 8) as usize, col: ((n - 1) % 8) as usize })
        } else {
            prev
        }
    }
}

/// A set of squares of the board.
pub struct SquareSet {
    cells: [[bool; 8]; 8],
}

impl SquareSet {
    /// Whether the square `(r, c)` is in the set; never true off the board.
    pub closed spec fn has(&self, r: int, c: int) -> bool {
        in_board(r, c) && self.cells[r][c]
    }

    /// The empty set.
    pub fn new() -> (s: SquareSet)
        ensures
            forall|r: int, c: int| !s.has(r, c),
    {
        SquareSet { cells: [[false; 8]; 8] }
    }

    /// Adds the square `(r, c)`.
    pub fn insert(&mut self, r: usize, c: usize)
        requires
            r < 8,
            c < 8,
        ensures
            forall|x: int, y: int|
                #[trigger] final(self).has(x, y) == (old(self).has(x, y) || (x == r && y == c)),
    {
        self.cells[r][c] = true;
    }

    /// Adds every square of `other`.
    pub fn extend(&mut self, other: &SquareSet)
        ensures
            forall|x: int, y: int|
                #[trigger] final(self).has(x, y) == (old(self).has(x, y) || other.has(x, y)),
    {
        let mut r: usize = 0;
        while r < 8
            invariant
                r <= 8,
                forall|x: int, y: int|
                    #[trigger] self.has(x, y) == (old(self).has(x, y) || (other.has(x, y) && x
                        < r)),
            decreases 8 - r,
        {
            let mut c: usize = 0;
            while c < 8
                invariant
                    r < 8,
                    c <= 8,
                    forall|x: int, y: int|
                        #[trigger] self.has(x, y) == (old(self).has(x, y) || (other.has(x, y) && (x
                            < r || (x == r && y < c)))),
                decreases 8 - c,
            {
                if other.cells[r][c] {
                    self.insert(r, c);
                }
                c = c + 1;
            }
            r = r + 1;
        }
    }

    /// Whether the set has no square.
    pub fn is_empty(&self) -> (b: bool)
        ensures
            b == (forall|r: int, c: int| !#[trigger] self.has(r, c)),
    {
        let mut r: usize = 0;
        while r < 8
            invariant
                r <= 8,
                forall|x: int, y: int| x < r ==> !#[trigger] self.has(x, y),
            decreases 8 - r,
        {
            let mut c: usize = 0;
            while c < 8
                invariant
                    r < 8,
                    c <= 8,
                    forall|x: int, y: int| (x < r || (x == r && y < c)) ==> !#[trigger] self.has(x, y),
                decreases 8 - c,
            {
                if self.cells[r][c] {
                    assert(self.has(r as int, c as int));
                    return false;
                }
                c = c + 1;
            }
            r = r + 1;
        }
        true
    }

    /// The squares of the set, row by row and each row by column.
    pub fn to_vec(&self) -> (v: Vec<Coord>)
        ensures
            v@ == squares_upto(*self, 64),
    {
        let mut v: Vec<Coord> = Vec::new();
        let mut k: usize = 0;
        while k < 64
            invariant
                k <= 64,
                v@ == squares_upto(*self, k as int),
            decreases 64 - k,
        {
            if self.cells[k / 8][k % 8] {
                v.push(Coord { row: k / 8, col: k % 8 });
            }
            k = k + 1;
        }
        v
    }

    /// Whether the set holds `coord`.
    pub fn contains(&self, coord: &Coord) -> (b: bool)
        ensures
            b == self.has(coord.row as int, coord.col as int),
    {
        if coord.row < 8 && coord.col < 8 {
            self.cells[coord.row][coord.col]
        } else {
            false
        }
    }
}

} // verus!
