//! Conway's Game of Life on a fixed grid whose border is surrounded by dead
//! cells.

use vstd::prelude::*;

verus! {

/// Number of rows of the grid: the range of the first index.
pub const HEIGHT: usize = 25;

/// Number of columns of the grid: the range of the second index.
pub const WIDTH: usize = 25;

/// The value of the cell at `(x, y)`, or 0 where `(x, y)` lies outside the
/// grid.
pub open spec fn cell(grid: [[usize; WIDTH]; HEIGHT], x: int, y: int) -> int {
    if 0 <= x < HEIGHT && 0 <= y < WIDTH {
        grid[x][y] as int
    } else {
        0
    }
}

/// The sum of the eight cells around `(x, y)`.
pub open spec fn neighbour_score(grid: [[usize; WIDTH]; HEIGHT], x: int, y: int) -> int {
    cell(grid, x - 1, y - 1) + cell(grid, x, y - 1) + cell(grid, x + 1, y - 1)
        + cell(grid, x - 1, y) + cell(grid, x + 1, y)
        + cell(grid, x - 1, y + 1) + cell(grid, x, y + 1) + cell(grid, x + 1, y + 1)
}

/// The cell at `(x, y)` one generation later: with three neighbours it is
/// alive, with two it stays what it is, otherwise it is dead.
pub open spec fn next_cell(grid: [[usize; WIDTH]; HEIGHT], x: int, y: int) -> int {
    let score = neighbour_score(grid, x, y);
    if score == 3 {
        1
    } else if score == 2 {
        cell(grid, x, y)
    } else {
        0
    }
}

/// Computes the state of the cell at `(x, y)` in the next generation.
pub fn next_state(x: usize, y: usize, grid: &[[usize; WIDTH]; HEIGHT]) -> (state: usize)
    requires
        x < HEIGHT,
        y < WIDTH,
    ensures
        state == next_cell(*grid, x as int, y as int),
{
    let top_left: u128 = if x > 0 && y > 0 {
        grid[x - 1][y - 1] as u128
    } else {
        0
    };
    let top_center: u128 = if y > 0 {
        grid[x][y - 1] as u128
    } else {
        0
    };
    let top_right: u128 = if x < HEIGHT - 1 && y > 0 {
        grid[x + 1][y - 1] as u128
    } else {
        0
    };
    let center_left: u128 = if x > 0 {
        grid[x - 1][y] as u128
    } else {
        0
    };
    let center_right: u128 = if x < HEIGHT - 1 {
        grid[x + 1][y] as u128
    } else {
        0
    };
    let bottom_center: u128 = if y < WIDTH - 1 {
        grid[x][y + 1] as u128
    } else {
        0
    };
    let bottom_left: u128 = if y < WIDTH - 1 && x > 0 {
        grid[x - 1][y + 1] as u128
    } else {
        0
    };
    let bottom_right: u128 = if y < WIDTH - 1 && x < HEIGHT - 1 {
        grid[x + 1][y + 1] as u128
    } else {
        0
    };

    let score: u128 = top_left + top_center + top_right + center_left + center_right
        + bottom_center + bottom_left + bottom_right;

    if score == 3 {
        1
    } else if score == 2 {
        grid[x][y]
    } else {
        0
    }
}

/// Computes the next generation: each cell of the result is the next state
/// of the same cell of `grid`.
pub fn step(grid: &[[usize; WIDTH]; HEIGHT]) -> (next: [[usize; WIDTH]; HEIGHT])
    ensures
        forall|x: int, y: int|
            0 <= x < HEIGHT && 0 <= y < WIDTH ==> #[trigger] next[x][y] == next_cell(*grid, x, y),
{
    let mut next = [[0usize; WIDTH]; HEIGHT];
    let mut x: usize = 0;
    while x < HEIGHT
        invariant
            x <= HEIGHT,
            forall|i: int, j: int|
                0 <= i < x && 0 <= j < WIDTH ==> #[trigger] next[i][j] == next_cell(*grid, i, j),
        decreases HEIGHT - x,
    {
        let mut y: usize = 0;
        while y < WIDTH
            invariant
                x < HEIGHT,
                y <= WIDTH,
                forall|i: int, j: int|
                    0 <= i < x && 0 <= j < WIDTH ==> #[trigger] next[i][j] == next_cell(
                        *grid,
                        i,
                        j,
                    ),
                forall|j: int| 0 <= j < y ==> #[trigger] next[x as int][j] == next_cell(
                    *grid,
                    x as int,
                    j,
                ),
            decreases WIDTH - y,
        {
            next[x][y] = next_state(x, y, grid);
            y += 1;
        }
        x += 1;
    }
    next
}

/// The glyph of a cell: a filled square for a cell that holds 1, a hollow
/// square for any other.
pub open spec fn cell_glyph(value: usize) -> char {
    if value == 1 {
        '■'
    } else {
        '□'
    }
}

/// The first `n` cells of row `x` as text: each cell's glyph, followed by a
/// blank.
pub open spec fn cells_text(grid: [[usize; WIDTH]; HEIGHT], x: int, n: int) -> Seq<char>
    decreases n,
{
    if n <= 0 {
        Seq::empty()
    } else {
        cells_text(grid, x, n - 1) + seq![cell_glyph(grid[x][n - 1]), ' ']
    }
}

/// The first `n` rows as text, each one closed by a line break.
pub open spec fn grid_text(grid: [[usize; WIDTH]; HEIGHT], n: int) -> Seq<char>
    decreases n,
{
    if n <= 0 {
        Seq::empty()
    } else {
        grid_text(grid, n - 1) + cells_text(grid, n - 1, WIDTH as int) + seq!['\n']
    }
}

/// Draws the grid as text, one line per row.
pub fn draw(grid: &[[usize; WIDTH]; HEIGHT]) -> (text: String)
    ensures
        text@ == grid_text(*grid, HEIGHT as int),
{
    proof {
        reveal_strlit("■ ");
        reveal_strlit("□ ");
        reveal_strlit("\n");
    }
    let mut text = String::new();
    let mut x: usize = 0;
    while x < HEIGHT
        invariant
            x <= HEIGHT,
            "■ "@ == seq!['■', ' '],
            "□ "@ == seq!['□', ' '],
            "\n"@ == seq!['\n'],
            text@ == grid_text(*grid, x as int),
        decreases HEIGHT - x,
    {
        let ghost line_start = text@;
        let mut y: usize = 0;
        while y < WIDTH
            invariant
                x < HEIGHT,
                y <= WIDTH,
                "■ "@ == seq!['■', ' '],
                "□ "@ == seq!['□', ' '],
                text@ == line_start + cells_text(*grid, x as int, y as int),
            decreases WIDTH - y,
        {
            if grid[x][y] == 1 {
                text.append("■ ");
            } else {
                text.append("□ ");
            }
            y += 1;
        }
        text.append("\n");
        x += 1;
    }
    text
}

} // verus!
