//! The board as text: one glyph per tile, with rank and file labels.

use vstd::prelude::*;
use crate::chess::board::{Board, Tile};
use crate::chess::game::Game;
use crate::chess::notation::rank_label;
use crate::chess::piece::{Colour, Piece, PieceKind};

verus! {

/// The glyph that stands for a piece; an empty tile shows as a blank.
pub open spec fn glyph(piece: Piece) -> char {
    match (piece.colour, piece.kind) {
        (_, PieceKind::Empty) => ' ',
        (Colour::White, PieceKind::Pawn) => '♟',
        (Colour::White, PieceKind::Knight) => '♞',
        (Colour::White, PieceKind::Bishop) => '♝',
        (Colour::White, PieceKind::Rook) => '♜',
        (Colour::White, PieceKind::Queen) => '♛',
        (Colour::White, PieceKind::King) => '♚',
        (Colour::Black, PieceKind::Pawn) => '♙',
        (Colour::Black, PieceKind::Knight) => '♘',
        (Colour::Black, PieceKind::Bishop) => '♗',
        (Colour::Black, PieceKind::Rook) => '♖',
        (Colour::Black, PieceKind::Queen) => '♕',
        (Colour::Black, PieceKind::King) => '♔',
    }
}

/// A tile as text: the glyph of its piece between square brackets.
pub open spec fn tile_text(tile: Tile) -> Seq<char> {
    seq!['[', glyph(tile.piece), ']']
}

/// The first `n` tiles of row `y` as text, from left to right.
pub open spec fn tiles_text(board: Board, y: int, n: int) -> Seq<char>
    decreases n,
{
    if n <= 0 {
        Seq::empty()
    } else {
        tiles_text(board, y, n - 1) + tile_text(board.tiles[y][n - 1])
    }
}

/// Row `y` as a line of text: the rank digit, a blank, the eight tiles and a
/// line break.
pub open spec fn row_text(board: Board, y: int) -> Seq<char> {
    seq![rank_label(y as usize), ' '] + tiles_text(board, y, 8) + seq!['\n']
}

/// The first `n` rows as text, from the top.
pub open spec fn rows_text(board: Board, n: int) -> Seq<char>
    decreases n,
{
    if n <= 0 {
        Seq::empty()
    } else {
        rows_text(board, n - 1) + row_text(board, n - 1)
    }
}

/// The line under the board that names the files.
pub open spec fn legend() -> Seq<char> {
    "   a  b  c  d  e  f  g  h\n"@
}

/// The whole board as text: an empty line, the eight rows from rank 8 down
/// to rank 1, and the legend.
pub open spec fn board_text(board: Board) -> Seq<char> {
    seq!['\n'] + rows_text(board, 8) + legend()
}

fn tile_str(tile: &Tile) -> (text: &'static str)
    ensures
        text@ == tile_text(*tile),
{
    proof {
        reveal_strlit("[ ]");
        reveal_strlit("[♟]");
        reveal_strlit("[♞]");
        reveal_strlit("[♝]");
        reveal_strlit("[♜]");
        reveal_strlit("[♛]");
        reveal_strlit("[♚]");
        reveal_strlit("[♙]");
        reveal_strlit("[♘]");
        reveal_strlit("[♗]");
        reveal_strlit("[♖]");
        reveal_strlit("[♕]");
        reveal_strlit("[♔]");
    }
    match tile.piece.colour {
        Colour::White => match tile.piece.kind {
            PieceKind::Pawn => "[♟]",
            PieceKind::Knight => "[♞]",
            PieceKind::Bishop => "[♝]",
            PieceKind::Rook => "[♜]",
            PieceKind::Queen => "[♛]",
            PieceKind::King => "[♚]",
            PieceKind::Empty => "[ ]",
        },
        Colour::Black => match tile.piece.kind {
            PieceKind::Pawn => "[♙]",
            PieceKind::Knight => "[♘]",
            PieceKind::Bishop => "[♗]",
            PieceKind::Rook => "[♖]",
            PieceKind::Queen => "[♕]",
            PieceKind::King => "[♔]",
            PieceKind::Empty => "[ ]",
        },
    }
}

fn rank_str(y: usize) -> (text: &'static str)
    requires
        y < 8,
    ensures
        text@ == seq![rank_label(y), ' '],
{
    proof {
        reveal_strlit("8 ");
        reveal_strlit("7 ");
        reveal_strlit("6 ");
        reveal_strlit("5 ");
        reveal_strlit("4 ");
        reveal_strlit("3 ");
        reveal_strlit("2 ");
        reveal_strlit("1 ");
    }
    match y {
        0 => "8 ",
        1 => "7 ",
        2 => "6 ",
        3 => "5 ",
        4 => "4 ",
        5 => "3 ",
        6 => "2 ",
        _ => "1 ",
    }
}

impl Tile {
    /// The tile as text: the glyph of its piece between square brackets.
    pub fn to_string(&self) -> (text: String)
        ensures
            text@ == tile_text(*self),
    {
        String::from_str(tile_str(self))
    }
}

/// Draws the board as text, row by row.
pub fn draw_board(board: &Board) -> (text: String)
    ensures
        text@ == board_text(*board),
{
    proof {
        reveal_strlit("\n");
    }
    let mut text = String::from_str("\n");
    let mut y: usize = 0;
    while y < 8
        invariant
            y <= 8,
            "\n"@ == seq!['\n'],
            text@ == seq!['\n'] + rows_text(*board, y as int),
        decreases 8 - y,
    {
        text.append(rank_str(y));
        let ghost line_start = text@;
        let mut x: usize = 0;
        while x < 8
            invariant
                x <= 8,
                y < 8,
                text@ == line_start + tiles_text(*board, y as int, x as int),
            decreases 8 - x,
        {
            text.append(tile_str(&board.tiles[y][x]));
            x += 1;
        }
        text.append("\n");
        y += 1;
    }
    text.append("   a  b  c  d  e  f  g  h\n");
    text
}

impl Game {
    /// Draws the game's board as text.
    pub fn draw_board(&self) -> (text: String)
        ensures
            text@ == board_text(self.board),
    {
        draw_board(&self.board)
    }
}

} // verus!
