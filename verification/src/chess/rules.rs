//! The movement rules: for each kind of piece, which tiles it may move to.

use vstd::prelude::*;
use crate::chess::board::Board;
use crate::chess::ledger::{has_moved, Ledger, Move};
use crate::chess::piece::{Colour, Piece, PieceKind};
use crate::chess::position::Position;

verus! {

/// The distance between two coordinates.
pub open spec fn gap(a: usize, b: usize) -> int {
    if a <= b {
        b - a
    } else {
        a - b
    }
}

/// The number of king's steps from `start` to `end`.
pub open spec fn distance(start: Position, end: Position) -> int {
    if gap(start.x, end.x) >= gap(start.y, end.y) {
        gap(start.x, end.x)
    } else {
        gap(start.y, end.y)
    }
}

/// How many rows `end` lies ahead of `start` for a pawn of the given colour:
/// White advances towards row 0, Black towards row 7.
pub open spec fn rows_ahead(colour: Colour, start: Position, end: Position) -> int {
    match colour {
        Colour::White => start.y - end.y,
        Colour::Black => end.y - start.y,
    }
}

/// `start` and `end` differ and share a row or a column.
pub open spec fn straight(start: Position, end: Position) -> bool {
    (start.x == end.x) != (start.y == end.y)
}

/// `start` and `end` differ and lie on a common diagonal.
pub open spec fn diagonal(start: Position, end: Position) -> bool {
    gap(start.x, end.x) == gap(start.y, end.y) && start.x != end.x
}

/// `end` is a knight's jump away from `start`.
pub open spec fn knight_jump(start: Position, end: Position) -> bool {
    ||| gap(start.x, end.x) == 1 && gap(start.y, end.y) == 2
    ||| gap(start.x, end.x) == 2 && gap(start.y, end.y) == 1
}

/// `end` is one of the eight tiles around `start`.
pub open spec fn king_step(start: Position, end: Position) -> bool {
    distance(start, end) == 1
}

/// The coordinate `k` steps from `from` in the direction of `to`.
pub open spec fn towards(from: usize, to: usize, k: int) -> int {
    if to > from {
        from + k
    } else if to < from {
        from - k
    } else {
        from as int
    }
}

/// The tile `k` steps from `start` on the line to `end`.
pub open spec fn step_towards(start: Position, end: Position, k: int) -> Position {
    Position {
        x: towards(start.x, end.x, k) as usize,
        y: towards(start.y, end.y, k) as usize,
    }
}

/// Every tile strictly between `start` and `end` is empty.
pub open spec fn path_clear(board: Map<Position, Piece>, start: Position, end: Position) -> bool {
    forall|k: int|
        0 < k < distance(start, end) ==> board[#[trigger] step_towards(start, end, k)].is_empty()
}

/// `piece` may come to rest on `end`: the tile is empty or holds a piece of
/// the other colour, which is then captured.
pub open spec fn may_land(board: Map<Position, Piece>, piece: Piece, end: Position) -> bool {
    board[end].is_empty() || board[end].colour != piece.colour
}

/// The pawn rule. A pawn steps one row ahead onto an empty tile of its
/// column; or two rows ahead in its column, over an empty tile onto an empty
/// tile, if it has never moved; or one row ahead into a neighbouring column
/// onto a piece of the other colour.
pub open spec fn pawn_move(
    board: Map<Position, Piece>,
    history: Seq<Move>,
    piece: Piece,
    start: Position,
    end: Position,
) -> bool {
    let ahead = rows_ahead(piece.colour, start, end);
    ||| ahead == 1 && end.x == start.x && board[end].is_empty()
    ||| {
        &&& ahead == 2
        &&& end.x == start.x
        &&& !has_moved(history, piece)
        &&& board[step_towards(start, end, 1)].is_empty()
        &&& board[end].is_empty()
    }
    ||| {
        &&& ahead == 1
        &&& gap(start.x, end.x) == 1
        &&& !board[end].is_empty()
        &&& board[end].colour == piece.colour.opponent()
    }
}

/// A knight jumps: nothing between `start` and `end` can block it.
pub open spec fn knight_move(
    board: Map<Position, Piece>,
    piece: Piece,
    start: Position,
    end: Position,
) -> bool {
    knight_jump(start, end) && may_land(board, piece, end)
}

/// A bishop slides along a diagonal over empty tiles.
pub open spec fn bishop_move(
    board: Map<Position, Piece>,
    piece: Piece,
    start: Position,
    end: Position,
) -> bool {
    diagonal(start, end) && path_clear(board, start, end) && may_land(board, piece, end)
}

/// A rook slides along a row or a column over empty tiles.
pub open spec fn rook_move(
    board: Map<Position, Piece>,
    piece: Piece,
    start: Position,
    end: Position,
) -> bool {
    straight(start, end) && path_clear(board, start, end) && may_land(board, piece, end)
}

/// A queen moves as a rook or as a bishop.
pub open spec fn queen_move(
    board: Map<Position, Piece>,
    piece: Piece,
    start: Position,
    end: Position,
) -> bool {
    rook_move(board, piece, start, end) || bishop_move(board, piece, start, end)
}

/// A king takes one step in any direction.
pub open spec fn king_move(
    board: Map<Position, Piece>,
    piece: Piece,
    start: Position,
    end: Position,
) -> bool {
    king_step(start, end) && may_land(board, piece, end)
}

/// Whether the rule of `piece`'s kind lets it move from `start` to `end`.
/// No rule moves an empty tile.
pub open spec fn piece_move(
    board: Map<Position, Piece>,
    history: Seq<Move>,
    piece: Piece,
    start: Position,
    end: Position,
) -> bool {
    match piece.kind {
        PieceKind::Pawn => pawn_move(board, history, piece, start, end),
        PieceKind::Knight => knight_move(board, piece, start, end),
        PieceKind::Bishop => bishop_move(board, piece, start, end),
        PieceKind::Rook => rook_move(board, piece, start, end),
        PieceKind::Queen => queen_move(board, piece, start, end),
        PieceKind::King => king_move(board, piece, start, end),
        PieceKind::Empty => false,
    }
}

/// Whether moving from `start` to `end` is legal: both tiles are on the
/// board, the piece on `start` belongs to the side whose turn it is, and the
/// rule of its kind allows the move.
pub open spec fn legal_move(
    board: Map<Position, Piece>,
    history: Seq<Move>,
    turn: Colour,
    start: Position,
    end: Position,
) -> bool {
    &&& end.on_board()
    &&& start.on_board()
    &&& board[start].colour == turn
    &&& piece_move(board, history, board[start], start, end)
}

fn gap_between(a: usize, b: usize) -> (d: usize)
    ensures
        d == gap(a, b),
{
    if a <= b {
        b - a
    } else {
        a - b
    }
}

fn is_empty_at(board: &Board, position: Position) -> (empty: bool)
    requires
        position.on_board(),
    ensures
        empty == board@[position].is_empty(),
{
    board.tiles[position.y][position.x].piece.kind == PieceKind::Empty
}

fn can_land(board: &Board, colour: Colour, end: Position) -> (free: bool)
    requires
        end.on_board(),
    ensures
        free == (board@[end].is_empty() || board@[end].colour != colour),
{
    let target = board.tiles[end.y][end.x].piece;
    target.kind == PieceKind::Empty || target.colour != colour
}

/// Walks from `start` towards `end` and tells whether every tile strictly
/// between them is empty. The two tiles share a row, a column or a diagonal.
pub fn path_is_clear(board: &Board, start: Position, end: Position) -> (clear: bool)
    requires
        start.on_board(),
        end.on_board(),
        straight(start, end) || diagonal(start, end),
    ensures
        clear == path_clear(board@, start, end),
{
    let across: usize = gap_between(start.x, end.x);
    let along: usize = gap_between(start.y, end.y);
    let steps: usize = if across >= along {
        across
    } else {
        along
    };
    let mut k: usize = 1;
    while k < steps
        invariant
            1 <= k,
            steps == distance(start, end),
            start.on_board(),
            end.on_board(),
            straight(start, end) || diagonal(start, end),
            forall|j: int| 0 < j < k ==> board@[#[trigger] step_towards(start, end, j)].is_empty(),
        decreases steps - k,
    {
        let x: usize = if end.x > start.x {
            start.x + k
        } else if end.x < start.x {
            start.x - k
        } else {
            start.x
        };
        let y: usize = if end.y > start.y {
            start.y + k
        } else if end.y < start.y {
            start.y - k
        } else {
            start.y
        };
        assert(Position { x, y } == step_towards(start, end, k as int));
        if !is_empty_at(board, Position { x, y }) {
            return false;
        }
        k += 1;
    }
    true
}

/// Decides the pawn rule for the piece on `start`.
pub fn pawn_rule(board: &Board, start: Position, end: Position, history: &Ledger) -> (legal: bool)
    requires
        start.on_board(),
        end.on_board(),
    ensures
        legal == pawn_move(board@, history@, board@[start], start, end),
{
    let piece = board.tiles[start.y][start.x].piece;
    let target = board.tiles[end.y][end.x].piece;
    let one_ahead = match piece.colour {
        Colour::White => end.y + 1 == start.y,
        Colour::Black => start.y + 1 == end.y,
    };
    let two_ahead = match piece.colour {
        Colour::White => end.y + 2 == start.y,
        Colour::Black => start.y + 2 == end.y,
    };
    if end.x == start.x {
        if one_ahead {
            target.kind == PieceKind::Empty
        } else if two_ahead {
            let between = Position { x: start.x, y: (start.y + end.y) / 2 };
            target.kind == PieceKind::Empty && is_empty_at(board, between)
                && history.first_move_of(&piece).is_none()
        } else {
            false
        }
    } else if one_ahead && gap_between(start.x, end.x) == 1 {
        target.kind != PieceKind::Empty && target.colour != piece.colour
    } else {
        false
    }
}

/// Decides the knight rule for the piece on `start`.
pub fn knight_rule(board: &Board, start: Position, end: Position, _history: &Ledger) -> (legal:
    bool)
    requires
        start.on_board(),
        end.on_board(),
    ensures
        legal == knight_move(board@, board@[start], start, end),
{
    let across: usize = gap_between(start.x, end.x);
    let along: usize = gap_between(start.y, end.y);
    let piece = board.tiles[start.y][start.x].piece;
    ((across == 1 && along == 2) || (across == 2 && along == 1)) && can_land(
        board,
        piece.colour,
        end,
    )
}

/// Decides the bishop rule for the piece on `start`.
pub fn bishop_rule(board: &Board, start: Position, end: Position, _history: &Ledger) -> (legal:
    bool)
    requires
        start.on_board(),
        end.on_board(),
    ensures
        legal == bishop_move(board@, board@[start], start, end),
{
    let piece = board.tiles[start.y][start.x].piece;
    let on_diagonal = gap_between(start.x, end.x) == gap_between(start.y, end.y) && start.x
        != end.x;
    on_diagonal && path_is_clear(board, start, end) && can_land(board, piece.colour, end)
}

/// Decides the rook rule for the piece on `start`.
pub fn rook_rule(board: &Board, start: Position, end: Position, _history: &Ledger) -> (legal: bool)
    requires
        start.on_board(),
        end.on_board(),
    ensures
        legal == rook_move(board@, board@[start], start, end),
{
    let piece = board.tiles[start.y][start.x].piece;
    let on_line = (start.x == end.x) != (start.y == end.y);
    on_line && path_is_clear(board, start, end) && can_land(board, piece.colour, end)
}

/// Decides the queen rule for the piece on `start`.
pub fn queen_rule(board: &Board, start: Position, end: Position, history: &Ledger) -> (legal:
    bool)
    requires
        start.on_board(),
        end.on_board(),
    ensures
        legal == queen_move(board@, board@[start], start, end),
{
    rook_rule(board, start, end, history) || bishop_rule(board, start, end, history)
}

/// Decides the king rule for the piece on `start`.
pub fn king_rule(board: &Board, start: Position, end: Position, _history: &Ledger) -> (legal: bool)
    requires
        start.on_board(),
        end.on_board(),
    ensures
        legal == king_move(board@, board@[start], start, end),
{
    let across: usize = gap_between(start.x, end.x);
    let along: usize = gap_between(start.y, end.y);
    let piece = board.tiles[start.y][start.x].piece;
    across <= 1 && along <= 1 && (across == 1 || along == 1) && can_land(board, piece.colour, end)
}

} // verus!
