use recreations::conway::{draw, next_state, step, HEIGHT, WIDTH};

fn grid_with(cells: &[(usize, usize)]) -> [[usize; WIDTH]; HEIGHT] {
    let mut grid = [[0; WIDTH]; HEIGHT];
    for &(x, y) in cells {
        grid[x][y] = 1;
    }
    grid
}

#[test]
fn the_grid_is_25_by_25() {
    assert_eq!(25, HEIGHT);
    assert_eq!(25, WIDTH);
}

#[test]
fn a_cell_with_three_neighbours_is_alive() {
    let grid = grid_with(&[(4, 5), (5, 4), (6, 6)]);
    assert_eq!(1, next_state(5, 5, &grid));
    let grid = grid_with(&[(5, 5), (4, 5), (5, 4), (6, 6)]);
    assert_eq!(1, next_state(5, 5, &grid));
}

#[test]
fn a_cell_with_two_neighbours_stays_what_it_is() {
    let grid = grid_with(&[(4, 5), (6, 5)]);
    assert_eq!(0, next_state(5, 5, &grid));
    let grid = grid_with(&[(5, 5), (4, 5), (6, 5)]);
    assert_eq!(1, next_state(5, 5, &grid));
}

#[test]
fn a_cell_with_fewer_than_two_neighbours_dies() {
    let grid = grid_with(&[(5, 5)]);
    assert_eq!(0, next_state(5, 5, &grid));
    let grid = grid_with(&[(5, 5), (5, 6)]);
    assert_eq!(0, next_state(5, 5, &grid));
    assert_eq!(0, next_state(5, 6, &grid));
}

#[test]
fn a_cell_with_more_than_three_neighbours_dies() {
    let grid = grid_with(&[(5, 5), (4, 4), (4, 5), (4, 6), (5, 4)]);
    assert_eq!(0, next_state(5, 5, &grid));
    let all = [[1; WIDTH]; HEIGHT];
    assert_eq!(0, next_state(5, 5, &all));
    assert_eq!(0, next_state(0, 5, &all));
}

#[test]
fn each_of_the_eight_neighbours_counts() {
    let around = [(4, 4), (4, 5), (4, 6), (5, 4), (5, 6), (6, 4), (6, 5), (6, 6)];
    for a in 0..8 {
        for b in (a + 1)..8 {
            for c in (b + 1)..8 {
                let grid = grid_with(&[around[a], around[b], around[c]]);
                assert_eq!(1, next_state(5, 5, &grid));
                let grid = grid_with(&[around[a], around[b]]);
                assert_eq!(0, next_state(5, 5, &grid));
            }
        }
    }
}

#[test]
fn cells_beyond_the_border_are_dead() {
    let all = [[1; WIDTH]; HEIGHT];
    // A corner has three neighbours, an edge cell five
    assert_eq!(1, next_state(0, 0, &all));
    assert_eq!(1, next_state(0, WIDTH - 1, &all));
    assert_eq!(1, next_state(HEIGHT - 1, 0, &all));
    assert_eq!(1, next_state(HEIGHT - 1, WIDTH - 1, &all));
    assert_eq!(0, next_state(0, 7, &all));
    assert_eq!(0, next_state(HEIGHT - 1, 7, &all));
    assert_eq!(0, next_state(7, 0, &all));
    assert_eq!(0, next_state(7, WIDTH - 1, &all));
}

#[test]
fn the_score_is_the_sum_of_the_neighbours() {
    let mut grid = [[0; WIDTH]; HEIGHT];
    grid[4][5] = 3;
    assert_eq!(1, next_state(5, 5, &grid));
    grid[4][5] = 2;
    grid[5][5] = 7;
    assert_eq!(7, next_state(5, 5, &grid));
    grid[6][6] = usize::MAX;
    assert_eq!(0, next_state(5, 5, &grid));
    grid[4][5] = usize::MAX;
    grid[4][4] = usize::MAX;
    grid[5][4] = usize::MAX;
    grid[6][4] = usize::MAX;
    grid[6][5] = usize::MAX;
    grid[4][6] = usize::MAX;
    grid[5][6] = usize::MAX;
    assert_eq!(0, next_state(5, 5, &grid));
}

#[test]
fn step_turns_a_blinker() {
    let upright = grid_with(&[(9, 10), (10, 10), (11, 10)]);
    let flat = grid_with(&[(10, 9), (10, 10), (10, 11)]);
    assert_eq!(flat, step(&upright));
    assert_eq!(upright, step(&flat));
}

#[test]
fn step_keeps_a_block_and_clears_a_lone_cell() {
    let block = grid_with(&[(0, 0), (0, 1), (1, 0), (1, 1), (20, 20)]);
    let expected = grid_with(&[(0, 0), (0, 1), (1, 0), (1, 1)]);
    assert_eq!(expected, step(&block));
    assert_eq!(expected, step(&expected));
}

#[test]
fn step_moves_a_glider() {
    let glider = grid_with(&[(1, 2), (2, 3), (3, 1), (3, 2), (3, 3)]);
    let mut grid = glider;
    for _ in 0..4 {
        grid = step(&grid);
    }
    let moved = grid_with(&[(2, 3), (3, 4), (4, 2), (4, 3), (4, 4)]);
    assert_eq!(moved, grid);
}

#[test]
fn step_agrees_with_next_state_on_every_cell() {
    let mut grid = [[0; WIDTH]; HEIGHT];
    let mut seed: usize = 12345;
    for x in 0..HEIGHT {
        for y in 0..WIDTH {
            seed = seed.wrapping_mul(1103515245).wrapping_add(12345) % 2147483648;
            grid[x][y] = (seed >> 16) % 2;
        }
    }
    let next = step(&grid);
    for x in 0..HEIGHT {
        for y in 0..WIDTH {
            assert_eq!(next_state(x, y, &grid), next[x][y]);
        }
    }
}

#[test]
fn draw_writes_one_line_per_row() {
    let grid = grid_with(&[(0, 0), (0, 24), (1, 1), (24, 12)]);
    let text = draw(&grid);
    let lines: Vec<&str> = text.split('\n').collect();
    assert_eq!(HEIGHT + 1, lines.len());
    assert_eq!("", lines[HEIGHT]);
    let dead = "□ ".repeat(23);
    assert_eq!(format!("■ {}■ ", dead), lines[0]);
    assert_eq!(format!("□ ■ {}", dead), lines[1]);
    assert_eq!("□ ".repeat(25), lines[2]);
    assert_eq!(format!("{}■ {}", "□ ".repeat(12), "□ ".repeat(12)), lines[24]);
}

#[test]
fn draw_shows_only_ones_as_alive() {
    let mut grid = [[0; WIDTH]; HEIGHT];
    grid[0][0] = 2;
    grid[0][1] = 1;
    grid[0][2] = usize::MAX;
    let text = draw(&grid);
    assert!(text.starts_with("□ ■ □ □ "));
}
