//! Pieces: their kind, their colour and their identity.

use vstd::prelude::*;
use vstd::std_specs::cmp::PartialEqSpecImpl;
use crate::chess::position::Position;

verus! {

/// What stands on a tile. `Empty` marks an unoccupied tile.
#[derive(Copy, Clone, Debug, PartialEq, Eq, Structural)]
pub enum PieceKind {
    Pawn,
    Knight,
    Bishop,
    Rook,
    Queen,
    King,
    Empty,
}

/// The two sides. White pawns advance towards row 0, Black pawns towards row 7.
#[derive(Copy, Clone, Debug, PartialEq, Eq, Structural)]
pub enum Colour {
    White,
    Black,
}

impl Colour {
    /// The other side.
    pub open spec fn opponent(self) -> Colour {
        match self {
            Colour::White => Colour::Black,
            Colour::Black => Colour::White,
        }
    }
}

/// A piece. Its `starting_position` is its identity: it never changes while
/// the piece travels over the board, and two pieces compare equal with `==`
/// exactly when they started on the same tile.
#[derive(Copy, Clone, Debug)]
pub struct Piece {
    pub kind: PieceKind,
    pub colour: Colour,
    pub starting_position: Position,
}

impl Piece {
    /// Whether `self` and `other` are the same physical piece.
    pub open spec fn same_piece(self, other: Piece) -> bool {
        self.starting_position == other.starting_position
    }

    /// What a piece leaves behind on the tile it moves away from: an empty
    /// marker that keeps the piece's colour and identity.
    pub open spec fn vacated(self) -> Piece {
        Piece { kind: PieceKind::Empty, ..self }
    }

    /// The piece that `Piece::default()` returns: an empty marker.
    pub open spec fn default_piece() -> Piece {
        Piece {
            kind: PieceKind::Empty,
            colour: Colour::White,
            starting_position: Position { x: 0, y: 0 },
        }
    }

    /// Whether the tile holding this piece is unoccupied.
    pub open spec fn is_empty(self) -> bool {
        self.kind == PieceKind::Empty
    }
}

impl Default for Piece {
    fn default() -> (piece: Piece)
        ensures
            piece == Piece::default_piece(),
    {
        Piece {
            kind: PieceKind::Empty,
            starting_position: Position { x: 0, y: 0 },
            colour: Colour::White,
        }
    }
}

impl PartialEq for Piece {
    fn eq(&self, other: &Self) -> (same: bool) {
        self.starting_position == other.starting_position
    }
}

impl PartialEqSpecImpl for Piece {
    open spec fn obeys_eq_spec() -> bool {
        true
    }

    open spec fn eq_spec(&self, other: &Self) -> bool {
        self.same_piece(*other)
    }
}

} // verus!
