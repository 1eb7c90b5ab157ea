//! A game: the board, the side to move and the ledger of executed moves.

use vstd::prelude::*;
use crate::chess::board::{initial_position, setup_board, Board, Tile};
use crate::chess::ledger::{has_moved, Ledger, Move};
use crate::chess::piece::{Colour, Piece, PieceKind};
use crate::chess::position::{off_board, Position};
use crate::chess::rules::{
    bishop_rule, king_rule, knight_rule, legal_move, pawn_rule, queen_rule, rook_rule,
};

verus! {

/// One game of chess. It owns its board and its ledger. `current_turn` is
/// the side that may move: `validate_move` rejects a move of the other
/// side's pieces. Executing a move does not pass the turn; whoever runs the
/// game sets `current_turn`.
#[derive(Debug)]
pub struct Game {
    pub board: Board,
    pub current_turn: Colour,
    pub move_history: Ledger,
}

/// The board after the piece on `start` has been moved to `end`: the piece
/// stands on `end`, and `start` holds what the piece leaves behind. Where
/// `start` and `end` are the same tile, the piece is gone.
pub open spec fn board_after(
    board: Map<Position, Piece>,
    start: Position,
    end: Position,
) -> Map<Position, Piece> {
    board.insert(end, board[start]).insert(start, board[start].vacated())
}

/// The ledger after the move from `start` to `end` on `board` has been
/// recorded: one more entry, numbered by the length that the ledger had.
pub open spec fn history_after(
    history: Seq<Move>,
    board: Map<Position, Piece>,
    start: Position,
    end: Position,
) -> Seq<Move> {
    history.push(
        Move {
            piece: board[start],
            captured_piece: board[end],
            number: history.len() as usize,
            start,
            end,
        },
    )
}

impl Game {
    /// Every tile carries its own coordinates and the ledger's numbers count
    /// up from 0.
    pub open spec fn wf(self) -> bool {
        self.board.wf() && self.move_history.wf()
    }

    /// A game at its start: the pieces on their starting tiles, White to
    /// move, nothing recorded.
    pub fn new() -> (game: Game)
        ensures
            game.board@ == initial_position(),
            game.current_turn == Colour::White,
            game.move_history@ == Seq::<Move>::empty(),
            game.wf(),
    {
        let blank = Tile { piece: Piece::default(), x: 0, y: 0 };
        let mut board = Board { tiles: [[blank; 8]; 8] };
        setup_board(&mut board);
        Game { board, current_turn: Colour::White, move_history: Ledger::new() }
    }

    /// Executes the move from `start` to `end` without asking whether it is
    /// legal. The piece on `start` comes to stand on `end`, `start` is left
    /// empty, and the move is recorded with the piece as it was before the
    /// move and with what stood on `end`.
    pub fn move_piece(&mut self, start: Position, end: Position)
        requires
            start.on_board(),
            end.on_board(),
        ensures
            final(self).board@ == board_after(old(self).board@, start, end),
            final(self).board.same_coordinates(old(self).board),
            final(self).current_turn == old(self).current_turn,
            final(self).move_history@ == history_after(
                old(self).move_history@,
                old(self).board@,
                start,
                end,
            ),
            old(self).wf() ==> final(self).wf(),
            start != end ==> final(self).board@[end] == old(self).board@[start],
            final(self).board@[start].is_empty(),
            final(self).move_history@.len() == old(self).move_history@.len() + 1,
            final(self).move_history@.last().number == old(self).move_history@.len(),
            has_moved(final(self).move_history@, old(self).board@[start]),
    {
        let piece = self.board.tiles[start.y][start.x].piece;
        let captured_piece = self.board.tiles[end.y][end.x].piece;
        self.board.tiles[end.y][end.x].piece = piece;
        self.board.tiles[start.y][start.x].piece.kind = PieceKind::Empty;
        self.move_history.append(Move { piece, captured_piece, number: 0, start, end });
        proof {
            if old(self).wf() {
                assert forall|p: Position| p.on_board() implies (#[trigger] self.board.tile_at(
                    p,
                )).x == p.x && self.board.tile_at(p).y == p.y by {
                    assert(old(self).board.tile_at(p).x == p.x);
                }
            }
        }
    }

    /// Decides whether the move from `start` to `end` is legal: both tiles
    /// lie on the board, the piece on `start` belongs to the side whose turn
    /// it is, and the rule of its kind allows the move. No input is refused:
    /// what breaks a rule is answered with `false`. The game is left as it
    /// was.
    pub fn validate_move(&mut self, start: Position, end: Position) -> (legal: bool)
        ensures
            legal == legal_move(
                old(self).board@,
                old(self).move_history@,
                old(self).current_turn,
                start,
                end,
            ),
            *final(self) == *old(self),
    {
        if off_board(end.x, end.y) {
            return false;
        }
        if off_board(start.x, start.y) {
            return false;
        }
        let piece = self.board.tiles[start.y][start.x].piece;
        if piece.colour != self.current_turn {
            return false;
        }
        match piece.kind {
            PieceKind::Pawn => pawn_rule(&self.board, start, end, &self.move_history),
            PieceKind::Knight => knight_rule(&self.board, start, end, &self.move_history),
            PieceKind::Bishop => bishop_rule(&self.board, start, end, &self.move_history),
            PieceKind::Rook => rook_rule(&self.board, start, end, &self.move_history),
            PieceKind::Queen => queen_rule(&self.board, start, end, &self.move_history),
            PieceKind::King => king_rule(&self.board, start, end, &self.move_history),
            PieceKind::Empty => false,
        }
    }

    /// Tells whether `piece` has not moved yet: no entry of the ledger
    /// records a move of it.
    pub fn pieces_first_move(&self, piece: &Piece) -> (first: bool)
        ensures
            first == !has_moved(self.move_history@, *piece),
    {
        self.move_history.first_move_of(piece).is_none()
    }
}

} // verus!
