use led_life::grid::{Grid, SIDE};

fn grid(image: [[u8; 5]; 5]) -> Grid {
    Grid::from_image(&image)
}

fn empty() -> Grid {
    grid([[0; 5]; 5])
}

fn block() -> Grid {
    grid([
        [0, 0, 0, 0, 0],
        [0, 1, 1, 0, 0],
        [0, 1, 1, 0, 0],
        [0, 0, 0, 0, 0],
        [0, 0, 0, 0, 0],
    ])
}

#[test]
fn side_is_five() {
    assert_eq!(SIDE, 5);
}

#[test]
fn from_image_reads_cells_by_row_and_column() {
    let g = grid([
        [0, 1, 0, 0, 0],
        [0, 0, 0, 0, 0],
        [0, 0, 0, 0, 0],
        [1, 0, 0, 0, 0],
        [0, 0, 0, 0, 1],
    ]);
    let mut cells = [[false; 5]; 5];
    cells[0][1] = true;
    cells[3][0] = true;
    cells[4][4] = true;
    assert_eq!(g, Grid { cells });
}

#[test]
fn from_image_takes_any_lit_led_for_alive() {
    let mut image = [[0u8; 5]; 5];
    image[2][3] = 9;
    image[4][0] = 255;
    let mut cells = [[false; 5]; 5];
    cells[2][3] = true;
    cells[4][0] = true;
    assert_eq!(grid(image), Grid { cells });
}

#[test]
fn to_image_uses_levels_zero_and_one() {
    let mut image = [[0u8; 5]; 5];
    image[1][2] = 7;
    image[3][4] = 1;
    let mut expected = [[0u8; 5]; 5];
    expected[1][2] = 1;
    expected[3][4] = 1;
    assert_eq!(grid(image).to_image(), expected);
}

#[test]
fn image_of_a_grid_reads_back_as_the_grid() {
    let g = Grid::randomize(42);
    assert_eq!(Grid::from_image(&g.to_image()), g);
}

#[test]
fn isolated_cell_dies() {
    let mut image = [[0u8; 5]; 5];
    image[2][2] = 1;
    assert_eq!(grid(image).step(), empty());
}

#[test]
fn block_is_a_still_life() {
    assert_eq!(block().step(), block());
}

#[test]
fn block_in_a_corner_is_a_still_life() {
    let corner = grid([
        [0, 0, 0, 0, 0],
        [0, 0, 0, 0, 0],
        [0, 0, 0, 0, 0],
        [0, 0, 0, 1, 1],
        [0, 0, 0, 1, 1],
    ]);
    assert_eq!(corner.step(), corner);
}

#[test]
fn blinker_oscillates() {
    let across = grid([
        [0, 0, 0, 0, 0],
        [0, 0, 0, 0, 0],
        [0, 1, 1, 1, 0],
        [0, 0, 0, 0, 0],
        [0, 0, 0, 0, 0],
    ]);
    let upright = grid([
        [0, 0, 0, 0, 0],
        [0, 0, 1, 0, 0],
        [0, 0, 1, 0, 0],
        [0, 0, 1, 0, 0],
        [0, 0, 0, 0, 0],
    ]);
    assert_eq!(across.step(), upright);
    assert_eq!(upright.step(), across);
}

#[test]
fn dead_cell_with_three_neighbors_is_born() {
    let g = grid([
        [1, 1, 0, 0, 0],
        [1, 0, 0, 0, 0],
        [0, 0, 0, 0, 0],
        [0, 0, 0, 0, 0],
        [0, 0, 0, 0, 0],
    ]);
    assert_eq!(g.live_neighbors(1, 1), 3);
    assert!(!g.cells[1][1]);
    assert!(g.step().cells[1][1]);
}

#[test]
fn cell_with_one_neighbor_dies() {
    let g = grid([
        [0, 0, 0, 0, 0],
        [0, 1, 1, 0, 0],
        [0, 0, 0, 0, 0],
        [0, 0, 0, 0, 0],
        [0, 0, 0, 0, 0],
    ]);
    assert_eq!(g.live_neighbors(1, 1), 1);
    assert_eq!(g.step(), empty());
}

#[test]
fn cell_with_two_neighbors_lives_on_but_none_is_born() {
    let g = grid([
        [1, 0, 0, 0, 0],
        [0, 1, 0, 0, 0],
        [0, 0, 1, 0, 0],
        [0, 0, 0, 0, 0],
        [0, 0, 0, 0, 0],
    ]);
    let mut image = [[0u8; 5]; 5];
    image[1][1] = 1;
    assert_eq!(g.live_neighbors(1, 1), 2);
    assert_eq!(g.live_neighbors(0, 1), 2);
    assert_eq!(g.step(), grid(image));
}

#[test]
fn cell_with_four_neighbors_dies() {
    let g = grid([
        [0, 1, 0, 0, 0],
        [1, 1, 1, 0, 0],
        [0, 1, 0, 0, 0],
        [0, 0, 0, 0, 0],
        [0, 0, 0, 0, 0],
    ]);
    let next = grid([
        [1, 1, 1, 0, 0],
        [1, 0, 1, 0, 0],
        [1, 1, 1, 0, 0],
        [0, 0, 0, 0, 0],
        [0, 0, 0, 0, 0],
    ]);
    assert_eq!(g.live_neighbors(1, 1), 4);
    assert_eq!(g.step(), next);
}

#[test]
fn neighbors_are_clipped_at_the_edges() {
    let full = grid([[1; 5]; 5]);
    assert_eq!(full.live_neighbors(0, 0), 3);
    assert_eq!(full.live_neighbors(0, 4), 3);
    assert_eq!(full.live_neighbors(4, 0), 3);
    assert_eq!(full.live_neighbors(4, 4), 3);
    assert_eq!(full.live_neighbors(0, 2), 5);
    assert_eq!(full.live_neighbors(2, 0), 5);
    assert_eq!(full.live_neighbors(4, 3), 5);
    assert_eq!(full.live_neighbors(1, 4), 5);
    assert_eq!(full.live_neighbors(2, 2), 8);
}

#[test]
fn cell_does_not_count_itself() {
    let mut image = [[0u8; 5]; 5];
    image[2][2] = 1;
    let g = grid(image);
    assert_eq!(g.live_neighbors(2, 2), 0);
    assert_eq!(g.live_neighbors(1, 1), 1);
    assert_eq!(g.live_neighbors(3, 2), 1);
    assert_eq!(g.live_neighbors(0, 0), 0);
}

#[test]
fn full_grid_keeps_only_its_corners() {
    let full = grid([[1; 5]; 5]);
    let corners = grid([
        [1, 0, 0, 0, 1],
        [0, 0, 0, 0, 0],
        [0, 0, 0, 0, 0],
        [0, 0, 0, 0, 0],
        [1, 0, 0, 0, 1],
    ]);
    assert_eq!(full.step(), corners);
}

#[test]
fn edges_do_not_wrap_around() {
    let right = grid([
        [0, 0, 0, 0, 1],
        [0, 0, 0, 0, 1],
        [0, 0, 0, 0, 1],
        [0, 0, 0, 0, 0],
        [0, 0, 0, 0, 0],
    ]);
    assert_eq!(right.live_neighbors(1, 0), 0);
    let next = grid([
        [0, 0, 0, 0, 0],
        [0, 0, 0, 1, 1],
        [0, 0, 0, 0, 0],
        [0, 0, 0, 0, 0],
        [0, 0, 0, 0, 0],
    ]);
    assert_eq!(right.step(), next);

    let bottom = grid([
        [0, 0, 0, 0, 0],
        [0, 0, 0, 0, 0],
        [0, 0, 0, 0, 0],
        [0, 0, 0, 0, 0],
        [0, 1, 1, 1, 0],
    ]);
    assert_eq!(bottom.live_neighbors(0, 2), 0);
    let next = grid([
        [0, 0, 0, 0, 0],
        [0, 0, 0, 0, 0],
        [0, 0, 0, 0, 0],
        [0, 0, 1, 0, 0],
        [0, 0, 1, 0, 0],
    ]);
    assert_eq!(bottom.step(), next);
}

#[test]
fn step_reads_the_old_generation_only() {
    // Built in place, row by row, the middle row would see an upper row that is already gone.
    let g = grid([
        [1, 1, 1, 0, 0],
        [0, 0, 1, 1, 1],
        [1, 0, 0, 0, 0],
        [1, 1, 1, 0, 0],
        [0, 1, 1, 1, 0],
    ]);
    let next = grid([
        [0, 1, 1, 0, 0],
        [1, 0, 1, 1, 0],
        [1, 0, 0, 0, 0],
        [1, 0, 0, 1, 0],
        [1, 0, 0, 1, 0],
    ]);
    assert_eq!(g.step(), next);
}

#[test]
fn step_is_repeatable_and_leaves_the_grid_alone() {
    let g = Grid::randomize(7);
    let before = g;
    let once = g.step();
    let again = g.step();
    assert_eq!(once, again);
    assert_eq!(g, before);
}

#[test]
fn empty_grid_stays_empty() {
    assert_eq!(empty().step(), empty());
}

#[test]
fn empty_grid_is_done() {
    assert!(empty().is_done());
}

#[test]
fn grid_with_one_live_cell_is_not_done() {
    for r in 0..5 {
        for c in 0..5 {
            let mut image = [[0u8; 5]; 5];
            image[r][c] = 1;
            assert!(!grid(image).is_done());
        }
    }
}

#[test]
fn still_life_is_not_done() {
    assert!(!block().is_done());
}

#[test]
fn invert_of_empty_grid_is_full() {
    assert_eq!(empty().invert(), grid([[1; 5]; 5]));
}

#[test]
fn invert_flips_each_cell() {
    let g = grid([
        [1, 0, 0, 0, 0],
        [0, 1, 1, 0, 0],
        [0, 0, 0, 0, 0],
        [0, 0, 0, 1, 0],
        [1, 1, 1, 1, 1],
    ]);
    let flipped = grid([
        [0, 1, 1, 1, 1],
        [1, 0, 0, 1, 1],
        [1, 1, 1, 1, 1],
        [1, 1, 1, 0, 1],
        [0, 0, 0, 0, 0],
    ]);
    assert_eq!(g.invert(), flipped);
}

#[test]
fn invert_twice_gives_the_grid_back() {
    for seed in 0..20u128 {
        let g = Grid::randomize(seed);
        assert_eq!(g.invert().invert(), g);
    }
    assert_eq!(block().invert().invert(), block());
    assert_eq!(empty().invert().invert(), empty());
}

#[test]
fn inverting_an_image_lights_exactly_its_dark_leds() {
    let image = [
        [0, 1, 0, 9, 0],
        [1, 1, 1, 1, 1],
        [0, 0, 0, 0, 0],
        [255, 0, 2, 0, 1],
        [0, 0, 0, 0, 3],
    ];
    let flipped = [
        [1, 0, 1, 0, 1],
        [0, 0, 0, 0, 0],
        [1, 1, 1, 1, 1],
        [0, 1, 0, 1, 0],
        [1, 1, 1, 1, 0],
    ];
    assert_eq!(grid(image).invert().to_image(), flipped);
}
