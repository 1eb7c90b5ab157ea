//! Board coordinates and their algebraic notation.

use vstd::prelude::*;

verus! {

/// A square of the board: `x` is the column (0 is file `a`), `y` is the row
/// (0 is rank 8, the back rank furthest from White).
#[derive(Copy, Clone, Debug, PartialEq, Eq, Structural)]
pub struct Position {
    pub x: usize,
    pub y: usize,
}

impl Position {
    /// Whether this position names one of the 64 tiles.
    pub open spec fn on_board(self) -> bool {
        !is_off_board(self.x as int, self.y as int)
    }
}

/// Whether the coordinates `(x, y)` lie outside the 8×8 board. Coordinates
/// are unsigned, so only the upper bound can be broken.
pub open spec fn is_off_board(x: int, y: int) -> bool {
    x > 7 || y > 7
}

/// Tells whether `(x, y)` lies outside the 8×8 board.
pub fn off_board(x: usize, y: usize) -> (off: bool)
    ensures
        off == is_off_board(x as int, y as int),
{
    x > 7 || y > 7
}

} // verus!
