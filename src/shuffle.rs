use vstd::prelude::*;
use vstd::arithmetic::div_mod::{lemma_fundamental_div_mod_converse, lemma_fundamental_div_mod};
use rand::seq::SliceRandom;
use crate::board::{Board, Grid};
use crate::square::Square;

verus! {

/// The 64 squares of a grid, rank after rank.
pub open spec fn flat(g: Grid) -> Seq<Square> {
    Seq::new(64, |i: int| g[i / 8][i % 8])
}

/// Relies on rand's `SliceRandom::shuffle` with `thread_rng`: it swaps
/// elements in place, so the result is a permutation of the input.
#[verifier::external_body]
fn shuffle_squares(squares: &mut Vec<Square>)
    ensures
        final(squares)@.len() == old(squares)@.len(),
        final(squares)@.to_multiset() == old(squares)@.to_multiset(),
{
    let mut rng = rand::thread_rng();
    squares.shuffle(&mut rng);
}

proof fn lemma_index_split(y: int, x: int)
    requires
        0 <= y < 8,
        0 <= x < 8,
    ensures
        (y * 8 + x) / 8 == y,
        (y * 8 + x) % 8 == x,
        0 <= y * 8 + x < 64,
{
    lemma_fundamental_div_mod_converse(y * 8 + x, 8, y, x);
}

impl Board {
    /// Scatters the occupants over the 64 squares in a random order: the
    /// same occupants stand on the board afterwards, each as many times as
    /// before. Nothing else changes.
    pub fn randomize(&mut self)
        ensures
            flat(final(self).cells()).to_multiset() == flat(old(self).cells()).to_multiset(),
            final(self).same_but_grid(old(self)),
    {
        let ghost g = self.cells();
        let mut squares: Vec<Square> = Vec::new();
        let mut y: usize = 0;
        while y < 8
            invariant
                0 <= y <= 8,
                g == self.cells(),
                squares@.len() == y * 8,
                forall|i: int| 0 <= i < y * 8 ==> #[trigger] squares@[i] == flat(g)[i],
            decreases 8 - y,
        {
            let mut x: usize = 0;
            while x < 8
                invariant
                    0 <= y < 8,
                    0 <= x <= 8,
                    g == self.cells(),
                    squares@.len() == y * 8 + x,
                    forall|i: int| 0 <= i < y * 8 + x ==> #[trigger] squares@[i] == flat(g)[i],
                decreases 8 - x,
            {
                proof {
                    lemma_index_split(y as int, x as int);
                }
                squares.push(self.grid[y][x]);
                x = x + 1;
            }
            y = y + 1;
        }
        assert(squares@ =~= flat(g));
        shuffle_squares(&mut squares);
        let ghost before = *self;
        let mut y: usize = 0;
        while y < 8
            invariant
                0 <= y <= 8,
                squares@.len() == 64,
                self.same_but_grid(&before),
                forall|yy: int, xx: int|
                    0 <= yy < y && 0 <= xx < 8 ==> #[trigger] self.cells()[yy][xx] == squares@[yy
                        * 8 + xx],
            decreases 8 - y,
        {
            let mut x: usize = 0;
            while x < 8
                invariant
                    0 <= y < 8,
                    0 <= x <= 8,
                    squares@.len() == 64,
                    self.same_but_grid(&before),
                    forall|yy: int, xx: int|
                        ((0 <= yy < y && 0 <= xx < 8) || (yy == y && 0 <= xx < x))
                            ==> #[trigger] self.cells()[yy][xx] == squares@[yy * 8 + xx],
                decreases 8 - x,
            {
                proof {
                    lemma_index_split(y as int, x as int);
                }
                let s = squares[y * 8 + x];
                self.set(x as i32, y as i32, &s);
                x = x + 1;
            }
            y = y + 1;
        }
        assert forall|i: int| 0 <= i < 64 implies #[trigger] flat(self.cells())[i] == squares@[i] by {
            lemma_fundamental_div_mod(i, 8);
            assert(0 <= i / 8 < 8);
            assert(0 <= i % 8 < 8);
            assert(i == (i / 8) * 8 + i % 8);
        }
        assert(flat(self.cells()) =~= squares@);
    }
}

} // verus!
