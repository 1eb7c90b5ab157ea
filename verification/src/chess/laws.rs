//! What follows from the movement rules, stated for every board and every
//! ledger.

use vstd::prelude::*;
use crate::chess::board::{distinct_identities, initial_position};
use crate::chess::game::{board_after, history_after};
use crate::chess::ledger::{has_moved, Move};
use crate::chess::piece::{Colour, Piece, PieceKind};
use crate::chess::position::Position;
use crate::chess::rules::{gap, legal_move, rows_ahead, step_towards};

verus! {

/// No piece may move to a position off the board.
pub proof fn lemma_off_board_is_illegal(
    board: Map<Position, Piece>,
    history: Seq<Move>,
    start: Position,
    end: Position,
)
    requires
        !end.on_board(),
    ensures
        forall|turn| !legal_move(board, history, turn, start, end),
{
}

/// What every legal move has in common: it leads from one tile of the board
/// to another, it moves a piece of the side to move, and it comes to rest on
/// an empty tile or on a piece of the other side.
pub proof fn lemma_legal_move_basics(
    board: Map<Position, Piece>,
    history: Seq<Move>,
    turn: Colour,
    start: Position,
    end: Position,
)
    requires
        legal_move(board, history, turn, start, end),
    ensures
        start.on_board(),
        end.on_board(),
        start != end,
        !board[start].is_empty(),
        board[start].colour == turn,
        board[end].is_empty() || board[end].colour == turn.opponent(),
{
}

/// Nothing moves from an empty tile.
pub proof fn lemma_empty_tile_cannot_move(
    board: Map<Position, Piece>,
    history: Seq<Move>,
    start: Position,
    end: Position,
)
    requires
        board[start].is_empty(),
    ensures
        forall|turn| !legal_move(board, history, turn, start, end),
{
}

/// A pawn of the side to move may step one row ahead in its column onto an
/// empty tile.
pub proof fn lemma_pawn_may_step_ahead(
    board: Map<Position, Piece>,
    history: Seq<Move>,
    start: Position,
    end: Position,
)
    requires
        start.on_board(),
        end.on_board(),
        board[start].kind == PieceKind::Pawn,
        end.x == start.x,
        rows_ahead(board[start].colour, start, end) == 1,
        board[end].is_empty(),
    ensures
        legal_move(board, history, board[start].colour, start, end),
{
}

/// A pawn of the side to move that has never moved may step two rows ahead
/// in its column, where the tile it passes and the tile it reaches are empty.
pub proof fn lemma_unmoved_pawn_may_step_twice(
    board: Map<Position, Piece>,
    history: Seq<Move>,
    start: Position,
    end: Position,
)
    requires
        start.on_board(),
        end.on_board(),
        board[start].kind == PieceKind::Pawn,
        end.x == start.x,
        rows_ahead(board[start].colour, start, end) == 2,
        !has_moved(history, board[start]),
        board[step_towards(start, end, 1)].is_empty(),
        board[end].is_empty(),
    ensures
        legal_move(board, history, board[start].colour, start, end),
{
}

/// At the start of a game every pawn of the side to move may step one row
/// ahead, and two rows ahead as well.
pub proof fn lemma_opening_pawn_moves(start: Position, end: Position)
    requires
        start.on_board(),
        initial_position()[start].kind == PieceKind::Pawn,
        end.x == start.x,
        1 <= rows_ahead(initial_position()[start].colour, start, end) <= 2,
    ensures
        legal_move(
            initial_position(),
            Seq::<Move>::empty(),
            initial_position()[start].colour,
            start,
            end,
        ),
{
}

/// A pawn that has moved before may not step two rows ahead.
pub proof fn lemma_moved_pawn_may_not_step_twice(
    board: Map<Position, Piece>,
    history: Seq<Move>,
    start: Position,
    end: Position,
)
    requires
        board[start].kind == PieceKind::Pawn,
        rows_ahead(board[start].colour, start, end) == 2,
        has_moved(history, board[start]),
    ensures
        forall|turn| !legal_move(board, history, turn, start, end),
{
}

/// A pawn never moves more than two rows, nor backwards, nor sideways.
pub proof fn lemma_pawn_reach(
    board: Map<Position, Piece>,
    history: Seq<Move>,
    start: Position,
    end: Position,
)
    requires
        board[start].kind == PieceKind::Pawn,
        exists|turn| legal_move(board, history, turn, start, end),
    ensures
        1 <= rows_ahead(board[start].colour, start, end) <= 2,
        gap(start.x, end.x) <= 1,
        rows_ahead(board[start].colour, start, end) == 2 ==> end.x == start.x,
{
}

/// A pawn may not move diagonally onto an empty tile, nor onto a piece of
/// its own colour.
pub proof fn lemma_pawn_may_not_move_diagonally_without_capture(
    board: Map<Position, Piece>,
    history: Seq<Move>,
    start: Position,
    end: Position,
)
    requires
        board[start].kind == PieceKind::Pawn,
        end.x != start.x,
        board[end].is_empty() || board[end].colour == board[start].colour,
    ensures
        forall|turn| !legal_move(board, history, turn, start, end),
{
}

/// A pawn of the side to move may capture a piece of the other colour that
/// stands one row ahead in a neighbouring column.
pub proof fn lemma_pawn_may_capture_diagonally(
    board: Map<Position, Piece>,
    history: Seq<Move>,
    start: Position,
    end: Position,
)
    requires
        start.on_board(),
        end.on_board(),
        board[start].kind == PieceKind::Pawn,
        gap(start.x, end.x) == 1,
        rows_ahead(board[start].colour, start, end) == 1,
        !board[end].is_empty(),
        board[end].colour != board[start].colour,
    ensures
        legal_move(board, history, board[start].colour, start, end),
{
}

/// Once a move of a piece is recorded, the piece counts as moved, whatever
/// is recorded after it.
pub proof fn lemma_recorded_piece_has_moved(history: Seq<Move>, record: Move, piece: Piece)
    requires
        has_moved(history, piece) || record.piece.same_piece(piece),
    ensures
        has_moved(history.push(record), piece),
{
    let longer = history.push(record);
    if record.piece.same_piece(piece) {
        assert(longer[history.len() as int].piece.same_piece(piece));
    } else {
        let i = choose|i: int| 0 <= i < history.len() && (#[trigger] history[i]).piece.same_piece(piece);
        assert(longer[i].piece.same_piece(piece));
    }
}

/// After a move, the tile that was reached holds the piece that moved, the
/// tile that was left is empty, every other tile is as it was, and the ledger
/// has grown by one entry, which carries the ledger's earlier length as its
/// number.
pub proof fn lemma_move_effect(
    board: Map<Position, Piece>,
    history: Seq<Move>,
    start: Position,
    end: Position,
)
    requires
        start != end,
        history.len() <= usize::MAX,
    ensures
        board_after(board, start, end)[end] == board[start],
        board_after(board, start, end)[start].is_empty(),
        forall|other: Position|
            other != start && other != end ==> board_after(board, start, end)[other]
                == board[other],
        history_after(history, board, start, end).len() == history.len() + 1,
        history_after(history, board, start, end).last().number == history.len(),
        history_after(history, board, start, end).last().piece == board[start],
        history_after(history, board, start, end).last().captured_piece == board[end],
        history_after(history, board, start, end).drop_last() == history,
{
}

/// A pawn steps two rows ahead at most once: after any move of it, a step
/// of two rows from the tile it reached is illegal.
pub proof fn lemma_pawn_steps_twice_only_once(
    board: Map<Position, Piece>,
    history: Seq<Move>,
    start: Position,
    end: Position,
    target: Position,
)
    requires
        start != end,
        board[start].kind == PieceKind::Pawn,
        rows_ahead(board[start].colour, end, target) == 2,
    ensures
        forall|turn|
            !legal_move(
                board_after(board, start, end),
                history_after(history, board, start, end),
                turn,
                end,
                target,
            ),
{
    let record = history_after(history, board, start, end).last();
    lemma_recorded_piece_has_moved(history, record, board[start]);
}

/// A move keeps the pieces distinct: the piece that moved keeps its
/// identity, and stands on one tile only.
pub proof fn lemma_move_keeps_identities_distinct(
    board: Map<Position, Piece>,
    start: Position,
    end: Position,
)
    requires
        distinct_identities(board),
        start.on_board(),
        end.on_board(),
    ensures
        distinct_identities(board_after(board, start, end)),
{
}

} // verus!
