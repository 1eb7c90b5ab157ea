//! The 8×8 board, its tiles and the starting position.

use vstd::prelude::*;
use crate::chess::piece::{Colour, Piece, PieceKind};
use crate::chess::position::Position;

verus! {

/// One square of the board: the piece on it and the square's own coordinates.
#[derive(Copy, Clone, Debug)]
pub struct Tile {
    pub piece: Piece,
    pub x: usize,
    pub y: usize,
}

/// The board: eight rows of eight tiles. `tiles[y][x]` is the tile in row `y`
/// and column `x`; row 0 is rank 8 and column 0 is file `a`.
#[derive(Copy, Clone, Debug)]
pub struct Board {
    pub tiles: [[Tile; 8]; 8],
}

impl View for Board {
    type V = Map<Position, Piece>;

    /// The piece on each of the 64 tiles.
    open spec fn view(&self) -> Map<Position, Piece> {
        Map::new(|p: Position| p.on_board(), |p: Position| self.tile_at(p).piece)
    }
}

impl Board {
    /// The tile at `position`.
    pub open spec fn tile_at(self, position: Position) -> Tile
        recommends
            position.on_board(),
    {
        self.tiles[position.y as int][position.x as int]
    }

    /// Every tile carries its own coordinates.
    pub open spec fn wf(self) -> bool {
        forall|p: Position|
            p.on_board() ==> (#[trigger] self.tile_at(p)).x == p.x && self.tile_at(p).y == p.y
    }

    /// Whether `other` has the same coordinates stamped on each tile.
    pub open spec fn same_coordinates(self, other: Board) -> bool {
        forall|p: Position|
            p.on_board() ==> (#[trigger] self.tile_at(p)).x == other.tile_at(p).x
                && self.tile_at(p).y == other.tile_at(p).y
    }

    /// Reads the tile at `position`.
    pub fn get(&self, position: Position) -> (tile: Tile)
        requires
            position.on_board(),
        ensures
            tile == self.tile_at(position),
            tile.piece == self@[position],
    {
        self.tiles[position.y][position.x]
    }
}

/// The tiles on which `board` holds a piece of the given colour.
pub open spec fn tiles_of(board: Map<Position, Piece>, colour: Colour) -> Set<Position> {
    Set::new(|p: Position| p.on_board() && !board[p].is_empty() && board[p].colour == colour)
}

/// No two occupied tiles hold the same piece: the pieces on the board differ
/// in their identity.
pub open spec fn distinct_identities(board: Map<Position, Piece>) -> bool {
    forall|p: Position, q: Position|
        #![trigger board[p], board[q]]
        p.on_board() && q.on_board() && p != q && !board[p].is_empty() && !board[q].is_empty()
            ==> !board[p].same_piece(board[q])
}

/// The kind of the piece that starts in column `x` of a back rank.
pub open spec fn back_rank_kind(x: int) -> PieceKind {
    if x == 0 || x == 7 {
        PieceKind::Rook
    } else if x == 1 || x == 6 {
        PieceKind::Knight
    } else if x == 2 || x == 5 {
        PieceKind::Bishop
    } else if x == 3 {
        PieceKind::Queen
    } else {
        PieceKind::King
    }
}

/// The piece that stands on `position` when a game starts. Black holds rows
/// 0 and 1, White rows 6 and 7; the tiles between them are empty. Each piece,
/// and each empty marker, is stamped with the tile it starts on.
pub open spec fn initial_piece(position: Position) -> Piece {
    Piece {
        kind: if position.y == 0 || position.y == 7 {
            back_rank_kind(position.x as int)
        } else if position.y == 1 || position.y == 6 {
            PieceKind::Pawn
        } else {
            PieceKind::Empty
        },
        colour: if position.y <= 1 {
            Colour::Black
        } else {
            Colour::White
        },
        starting_position: position,
    }
}

/// The starting position of a game of chess.
pub open spec fn initial_position() -> Map<Position, Piece> {
    Map::new(|p: Position| p.on_board(), |p: Position| initial_piece(p))
}

fn starting_kind(x: usize, y: usize) -> (kind: PieceKind)
    requires
        x < 8,
        y < 8,
    ensures
        kind == initial_piece(Position { x, y }).kind,
{
    if y == 0 || y == 7 {
        match x {
            0 | 7 => PieceKind::Rook,
            1 | 6 => PieceKind::Knight,
            2 | 5 => PieceKind::Bishop,
            3 => PieceKind::Queen,
            _ => PieceKind::King,
        }
    } else if y == 1 || y == 6 {
        PieceKind::Pawn
    } else {
        PieceKind::Empty
    }
}

/// Puts the 32 pieces on their starting tiles, empties every other tile, and
/// stamps each tile and each piece with the tile's coordinates. What the
/// board held before is overwritten.
pub fn setup_board(board: &mut Board)
    ensures
        final(board)@ == initial_position(),
        final(board).wf(),
        tiles_of(final(board)@, Colour::White).finite(),
        tiles_of(final(board)@, Colour::White).len() == 16,
        tiles_of(final(board)@, Colour::Black).finite(),
        tiles_of(final(board)@, Colour::Black).len() == 16,
        forall|p: Position|
            p.on_board() ==> (#[trigger] final(board)@[p]).starting_position == p,
{
    let mut y: usize = 0;
    while y < 8
        invariant
            y <= 8,
            forall|p: Position|
                p.on_board() && p.y < y ==> #[trigger] board.tile_at(p) == (Tile {
                    piece: initial_piece(p),
                    x: p.x,
                    y: p.y,
                }),
        decreases 8 - y,
    {
        let colour = if y <= 1 {
            Colour::Black
        } else {
            Colour::White
        };
        let mut x: usize = 0;
        while x < 8
            invariant
                x <= 8,
                y < 8,
                colour == initial_piece(Position { x: 0, y }).colour,
                forall|p: Position|
                    p.on_board() && (p.y < y || (p.y == y && p.x < x))
                        ==> #[trigger] board.tile_at(p) == (Tile {
                        piece: initial_piece(p),
                        x: p.x,
                        y: p.y,
                    }),
            decreases 8 - x,
        {
            let kind = starting_kind(x, y);
            let ghost before = *board;
            board.tiles[y][x] = Tile {
                piece: Piece { kind, colour, starting_position: Position { x, y } },
                x,
                y,
            };
            assert forall|p: Position|
                p.on_board() && (p.y < y || (p.y == y && p.x <= x)) implies #[trigger] board.tile_at(
                p,
            ) == (Tile { piece: initial_piece(p), x: p.x, y: p.y }) by {
                if p.y != y || p.x != x {
                    assert(board.tile_at(p) == before.tile_at(p));
                }
            }
            x += 1;
        }
        y += 1;
    }
    proof {
        assert(board@ =~= initial_position());
        lemma_initial_counts();
    }
}

/// The starting position holds 16 pieces of each colour.
pub proof fn lemma_initial_counts()
    ensures
        tiles_of(initial_position(), Colour::White).finite(),
        tiles_of(initial_position(), Colour::White).len() == 16,
        tiles_of(initial_position(), Colour::Black).finite(),
        tiles_of(initial_position(), Colour::Black).len() == 16,
{
    assert(tiles_of(initial_position(), Colour::Black) =~= rows(0, 1));
    assert(tiles_of(initial_position(), Colour::White) =~= rows(6, 7));
    lemma_two_rows(0, 1);
    lemma_two_rows(6, 7);
}

/// In the starting position every piece, and every empty marker, carries the
/// tile it stands on as its identity, so that no two pieces are the same.
pub proof fn lemma_initial_identities()
    ensures
        forall|p: Position|
            p.on_board() ==> (#[trigger] initial_position()[p]).starting_position == p,
        distinct_identities(initial_position()),
{
}

/// The tiles of rows `a` and `b`.
spec fn rows(a: int, b: int) -> Set<Position> {
    Set::new(|p: Position| p.on_board() && (p.y == a || p.y == b))
}

proof fn lemma_two_rows(a: usize, b: usize)
    requires
        a < b < 8,
    ensures
        rows(a as int, b as int).finite(),
        rows(a as int, b as int).len() == 16,
{
    let s = set![
        Position { x: 0, y: a }, Position { x: 1, y: a }, Position { x: 2, y: a }, Position { x: 3, y: a },
        Position { x: 4, y: a }, Position { x: 5, y: a }, Position { x: 6, y: a }, Position { x: 7, y: a },
        Position { x: 0, y: b }, Position { x: 1, y: b }, Position { x: 2, y: b }, Position { x: 3, y: b },
        Position { x: 4, y: b }, Position { x: 5, y: b }, Position { x: 6, y: b }, Position { x: 7, y: b },
    ];
    assert(rows(a as int, b as int) =~= s);
}

} // verus!
