//! Seeding: a grid drawn cell by cell from a generator that a 128-bit seed starts.

use crate::grid::{lemma_view_is_faithful, Board, Grid, SIDE};
use crate::pcg::{pcg64_draw, pcg64_generate_range, pcg64_seeded, pcg64_words};
use nanorand::Pcg64;
use vstd::prelude::*;

verus! {

/// The words of a generator that held `words` and has since drawn `n` cells.
pub open spec fn words_after(words: Seq<u128>, n: nat) -> Seq<u128>
    decreases n,
{
    if n == 0 {
        words
    } else {
        pcg64_draw(words_after(words, (n - 1) as nat), 0, 2).1
    }
}

/// The cell, 0 or 1, that a generator which held `words` draws after `n` earlier ones.
pub open spec fn nth_draw(words: Seq<u128>, n: nat) -> u8 {
    pcg64_draw(words_after(words, n), 0, 2).0
}

/// The board that `seed` stands for: its cells, row by row and left to right within a row,
/// are the successive draws from `0..2` of a `Pcg64` fresh from `seed`, Alive on a 1. It is
/// one board for all hardware of one byte order.
pub open spec fn random_board(seed: u128) -> Board {
    Seq::new(
        SIDE as nat,
        |r: int| Seq::new(SIDE as nat, |c: int| nth_draw(pcg64_seeded(seed), (r * SIDE + c) as nat) != 0),
    )
}

impl Grid {
    /// A grid in which each cell is Alive or Dead as a generator seeded with `seed` decides.
    /// The same seed gives the same grid.
    pub fn randomize(seed: u128) -> (grid: Grid)
        ensures
            grid@ == random_board(seed),
    {
        let mut rng = Pcg64::new_seed(seed);
        let mut leds: [[u8; SIDE]; SIDE] = [[0; SIDE]; SIDE];
        for r in 0..SIDE
            invariant
                pcg64_words(rng) == words_after(pcg64_seeded(seed), (r * SIDE) as nat),
                forall|i: int, j: int|
                    0 <= i < r && 0 <= j < SIDE ==> leds[i][j] == nth_draw(
                        pcg64_seeded(seed),
                        (i * SIDE + j) as nat,
                    ),
        {
            for c in 0..SIDE
                invariant
                    r < SIDE,
                    pcg64_words(rng) == words_after(pcg64_seeded(seed), (r * SIDE + c) as nat),
                    forall|i: int, j: int|
                        0 <= i < r && 0 <= j < SIDE ==> leds[i][j] == nth_draw(
                            pcg64_seeded(seed),
                            (i * SIDE + j) as nat,
                        ),
                    forall|j: int|
                        0 <= j < c ==> leds[r as int][j] == nth_draw(
                            pcg64_seeded(seed),
                            (r * SIDE + j) as nat,
                        ),
            {
                leds[r][c] = pcg64_generate_range(&mut rng, 0, 2);
            }
        }
        let grid = Grid::from_image(&leds);
        assert(grid@ =~~= random_board(seed));
        grid
    }
}

/// Seeding is a function of the seed: whenever `randomize` runs on `seed`, it ends in the
/// same grid.
pub proof fn lemma_randomize_is_deterministic(seed: u128, first: Grid, second: Grid)
    requires
        first@ == random_board(seed),
        second@ == random_board(seed),
    ensures
        first == second,
{
    lemma_view_is_faithful(first, second);
}

} // verus!
