//! The grid engine: a 5x5 board of cells and one generation of the rule.

use vstd::prelude::*;

verus! {

/// Rows, and columns, of the LED matrix.
pub const SIDE: usize = 5;

/// The mathematical picture of a grid: `SIDE` rows of `SIDE` cells, `true` where a cell is Alive.
pub type Board = Seq<Seq<bool>>;

/// `b` has the shape of a grid.
pub open spec fn is_board(b: Board) -> bool {
    &&& b.len() == SIDE
    &&& forall|r: int| 0 <= r < SIDE ==> (#[trigger] b[r]).len() == SIDE
}

/// `(r, c)` is a position of the grid.
pub open spec fn on_grid(r: int, c: int) -> bool {
    0 <= r < SIDE && 0 <= c < SIDE
}

/// Whether `(r, c)` holds an Alive cell of `b`. Off the grid nothing lives: the grid is
/// bounded, and its edges do not wrap around.
pub open spec fn alive(b: Board, r: int, c: int) -> bool {
    on_grid(r, c) && b[r][c]
}

/// What `(r, c)` adds to a count of Alive cells: 1 or 0.
pub open spec fn population(b: Board, r: int, c: int) -> nat {
    if alive(b, r, c) {
        1
    } else {
        0
    }
}

/// The number of Alive cells among the up to eight positions that touch `(r, c)`.
pub open spec fn live_neighbors(b: Board, r: int, c: int) -> nat {
    population(b, r - 1, c - 1) + population(b, r - 1, c) + population(b, r - 1, c + 1)
        + population(b, r, c - 1) + population(b, r, c + 1)
        + population(b, r + 1, c - 1) + population(b, r + 1, c) + population(b, r + 1, c + 1)
}

/// Whether `(r, c)` is Alive in the next generation: an Alive cell stays so with two or three
/// Alive neighbors, a Dead cell comes alive with exactly three.
pub open spec fn alive_next(b: Board, r: int, c: int) -> bool {
    let n = live_neighbors(b, r, c);
    if alive(b, r, c) {
        n == 2 || n == 3
    } else {
        n == 3
    }
}

/// The next generation: every cell decided from the neighbors it has in `b`.
pub open spec fn stepped(b: Board) -> Board {
    Seq::new(SIDE as nat, |r: int| Seq::new(SIDE as nat, |c: int| alive_next(b, r, c)))
}

/// No cell of `b` is Alive.
pub open spec fn all_dead(b: Board) -> bool {
    forall|r: int, c: int| on_grid(r, c) ==> !#[trigger] b[r][c]
}

/// The board with every cell flipped.
pub open spec fn inverted(b: Board) -> Board {
    Seq::new(SIDE as nat, |r: int| Seq::new(SIDE as nat, |c: int| !b[r][c]))
}

/// The board that an image of LED levels shows: a cell is Alive where its LED is lit at all.
pub open spec fn lit(image: [[u8; SIDE]; SIDE]) -> Board {
    Seq::new(SIDE as nat, |r: int| Seq::new(SIDE as nat, |c: int| image[r][c] != 0))
}

/// A 5x5 grid of cells; `cells[r][c]` is `true` where the cell in row `r`, column `c` is Alive.
#[derive(Clone, Copy, Debug, PartialEq, Eq)]
pub struct Grid {
    pub cells: [[bool; SIDE]; SIDE],
}

impl View for Grid {
    type V = Board;

    open spec fn view(&self) -> Board {
        Seq::new(SIDE as nat, |r: int| Seq::new(SIDE as nat, |c: int| self.cells[r][c]))
    }
}

impl Grid {
    /// Reads a grid off an image of LED levels: a cell is Alive where its LED is lit at all.
    pub fn from_image(image: &[[u8; SIDE]; SIDE]) -> (grid: Grid)
        ensures
            grid@ == lit(*image),
    {
        let mut cells = [[false; SIDE]; SIDE];
        for r in 0..SIDE
            invariant
                forall|i: int, j: int|
                    0 <= i < r && 0 <= j < SIDE ==> cells[i][j] == (image[i][j] != 0),
        {
            for c in 0..SIDE
                invariant
                    r < SIDE,
                    forall|i: int, j: int|
                        0 <= i < r && 0 <= j < SIDE ==> cells[i][j] == (image[i][j] != 0),
                    forall|j: int| 0 <= j < c ==> cells[r as int][j] == (image[r as int][j] != 0),
            {
                cells[r][c] = image[r][c] != 0;
            }
        }
        let grid = Grid { cells };
        assert(grid@ =~~= lit(*image));
        grid
    }

    /// The image that shows this grid: level 1 where a cell is Alive, 0 where it is Dead.
    pub fn to_image(&self) -> (image: [[u8; SIDE]; SIDE])
        ensures
            forall|r: int, c: int|
                on_grid(r, c) ==> #[trigger] image[r][c] == (if self@[r][c] { 1u8 } else { 0u8 }),
            lit(image) == self@,
    {
        let mut image = [[0u8; SIDE]; SIDE];
        for r in 0..SIDE
            invariant
                forall|i: int, j: int|
                    0 <= i < r && 0 <= j < SIDE ==> #[trigger] image[i][j] == (if self.cells[i][j] {
                        1u8
                    } else {
                        0u8
                    }),
        {
            for c in 0..SIDE
                invariant
                    r < SIDE,
                    forall|i: int, j: int|
                        0 <= i < r && 0 <= j < SIDE ==> #[trigger] image[i][j] == (if self.cells[i][j] {
                            1u8
                        } else {
                            0u8
                        }),
                    forall|j: int|
                        0 <= j < c ==> #[trigger] image[r as int][j] == (if self.cells[r as int][j] {
                            1u8
                        } else {
                            0u8
                        }),
            {
                image[r][c] = if self.cells[r][c] { 1 } else { 0 };
            }
        }
        assert(lit(image) =~~= self@);
        image
    }

    /// What the position `(r, c)`, on the grid or off it, adds to a count of Alive cells.
    fn population(&self, r: isize, c: isize) -> (n: u8)
        ensures
            n == population(self@, r as int, c as int),
    {
        if 0 <= r && r < SIDE as isize && 0 <= c && c < SIDE as isize && self.cells[r as usize][c as usize] {
            1
        } else {
            0
        }
    }

    /// Counts the Alive cells that touch `(r, c)`. A cell on an edge has fewer than eight
    /// neighbors: positions off the grid count for nothing.
    pub fn live_neighbors(&self, r: usize, c: usize) -> (n: u8)
        requires
            on_grid(r as int, c as int),
        ensures
            n == live_neighbors(self@, r as int, c as int),
            n <= 8,
    {
        let r = r as isize;
        let c = c as isize;
        self.population(r - 1, c - 1) + self.population(r - 1, c) + self.population(r - 1, c + 1)
            + self.population(r, c - 1) + self.population(r, c + 1)
            + self.population(r + 1, c - 1) + self.population(r + 1, c) + self.population(r + 1, c + 1)
    }

    /// One generation of the rule, applied to every cell at once: each cell's fate is read off
    /// this grid, never off the one being built.
    pub fn step(&self) -> (next: Grid)
        ensures
            next@ == stepped(self@),
    {
        let mut cells = [[false; SIDE]; SIDE];
        for r in 0..SIDE
            invariant
                forall|i: int, j: int|
                    0 <= i < r && 0 <= j < SIDE ==> cells[i][j] == alive_next(self@, i, j),
        {
            for c in 0..SIDE
                invariant
                    r < SIDE,
                    forall|i: int, j: int|
                        0 <= i < r && 0 <= j < SIDE ==> cells[i][j] == alive_next(self@, i, j),
                    forall|j: int| 0 <= j < c ==> cells[r as int][j] == alive_next(self@, r as int, j),
            {
                let n = self.live_neighbors(r, c);
                cells[r][c] = if self.cells[r][c] {
                    n == 2 || n == 3
                } else {
                    n == 3
                };
            }
        }
        let next = Grid { cells };
        assert(next@ =~~= stepped(self@));
        next
    }

    /// Whether the simulation has run out: no cell is Alive.
    pub fn is_done(&self) -> (done: bool)
        ensures
            done == all_dead(self@),
    {
        for r in 0..SIDE
            invariant
                forall|i: int, j: int| 0 <= i < r && 0 <= j < SIDE ==> !self@[i][j],
        {
            for c in 0..SIDE
                invariant
                    r < SIDE,
                    forall|i: int, j: int| 0 <= i < r && 0 <= j < SIDE ==> !self@[i][j],
                    forall|j: int| 0 <= j < c ==> !self@[r as int][j],
            {
                if self.cells[r][c] {
                    assert(self@[r as int][c as int]);
                    return false;
                }
            }
        }
        true
    }

    /// Flips every cell: Dead becomes Alive and Alive becomes Dead.
    pub fn invert(&self) -> (flipped: Grid)
        ensures
            flipped@ == inverted(self@),
    {
        let mut cells = self.cells;
        for r in 0..SIDE
            invariant
                forall|i: int, j: int| 0 <= i < r && 0 <= j < SIDE ==> cells[i][j] == !self.cells[i][j],
                forall|i: int, j: int| r <= i < SIDE && 0 <= j < SIDE ==> cells[i][j] == self.cells[i][j],
        {
            for c in 0..SIDE
                invariant
                    r < SIDE,
                    forall|i: int, j: int| 0 <= i < r && 0 <= j < SIDE ==> cells[i][j] == !self.cells[i][j],
                    forall|j: int| 0 <= j < c ==> cells[r as int][j] == !self.cells[r as int][j],
                    forall|j: int| c <= j < SIDE ==> cells[r as int][j] == self.cells[r as int][j],
                    forall|i: int, j: int| r < i < SIDE && 0 <= j < SIDE ==> cells[i][j] == self.cells[i][j],
            {
                cells[r][c] = !cells[r][c];
            }
        }
        let flipped = Grid { cells };
        assert(flipped@ =~~= inverted(self@));
        flipped
    }
}

/// The picture of a grid always has the shape of one: five rows of five cells.
pub proof fn lemma_grid_is_board(g: Grid)
    ensures
        is_board(g@),
{
}

/// A grid is what its picture shows: two grids with the same picture are the same grid.
pub proof fn lemma_view_is_faithful(a: Grid, b: Grid)
    requires
        a@ == b@,
    ensures
        a == b,
{
    assert forall|r: int| 0 <= r < SIDE implies a.cells[r] == b.cells[r] by {
        assert forall|c: int| 0 <= c < SIDE implies a.cells[r][c] == b.cells[r][c] by {
            assert(a@[r][c] == a.cells[r][c]);
            assert(b@[r][c] == b.cells[r][c]);
        }
        assert(a.cells[r] =~= b.cells[r]);
    }
    assert(a.cells =~= b.cells);
}

/// A generation is a function of the grid before it: whenever `step` runs on `g`, it ends in
/// the same grid.
pub proof fn lemma_step_is_deterministic(g: Grid, first: Grid, second: Grid)
    requires
        first@ == stepped(g@),
        second@ == stepped(g@),
    ensures
        first == second,
{
    lemma_view_is_faithful(first, second);
}

/// Inverting is an involution: a grid inverted twice is the grid itself.
pub proof fn lemma_invert_involution(g: Grid)
    ensures
        inverted(inverted(g@)) == g@,
{
    assert(inverted(inverted(g@)) =~~= g@);
}

/// So a grid that `invert` has flipped twice is the grid it was.
pub proof fn lemma_invert_twice_is_identity(g: Grid, once: Grid, twice: Grid)
    requires
        once@ == inverted(g@),
        twice@ == inverted(once@),
    ensures
        twice == g,
{
    lemma_invert_involution(g);
    lemma_view_is_faithful(twice, g);
}

/// Birth and starvation. In one generation a Dead cell with exactly three Alive neighbors
/// becomes Alive, and a cell with no Alive neighbor or only one is Dead, whatever it was.
pub proof fn lemma_birth_and_starvation(g: Grid, r: int, c: int)
    requires
        on_grid(r, c),
    ensures
        !alive(g@, r, c) && live_neighbors(g@, r, c) == 3 ==> alive(stepped(g@), r, c),
        live_neighbors(g@, r, c) <= 1 ==> !alive(stepped(g@), r, c),
{
}

} // verus!
