//! The ledger: the append-only record of the moves that were executed.

use vstd::prelude::*;
use crate::chess::piece::Piece;
use crate::chess::position::Position;

verus! {

/// One executed move: the piece as it stood on `start` before it moved, what
/// stood on `end` before the move, and the move's place in the ledger.
#[derive(Copy, Clone, Debug)]
pub struct Move {
    pub piece: Piece,
    pub captured_piece: Piece,
    pub number: usize,
    pub start: Position,
    pub end: Position,
}

/// The moves of a game in the order in which they were executed. Entries are
/// only ever added at the end, and the entry at index `i` carries the number
/// `i`.
#[derive(Debug)]
pub struct Ledger {
    moves: Vec<Move>,
}

impl View for Ledger {
    type V = Seq<Move>;

    closed spec fn view(&self) -> Seq<Move> {
        self.moves@
    }
}

/// Whether some entry of `history` records a move of `piece`, told by the
/// piece's identity.
pub open spec fn has_moved(history: Seq<Move>, piece: Piece) -> bool {
    exists|i: int| 0 <= i < history.len() && (#[trigger] history[i]).piece.same_piece(piece)
}

/// Whether `record` is the earliest entry of `history` that records a move of
/// `piece`.
pub open spec fn is_first_move_of(history: Seq<Move>, piece: Piece, record: Move) -> bool {
    exists|i: int|
        {
            &&& 0 <= i < history.len()
            &&& #[trigger] history[i] == record
            &&& record.piece.same_piece(piece)
            &&& forall|j: int| 0 <= j < i ==> !(#[trigger] history[j]).piece.same_piece(piece)
        }
}

impl Ledger {
    /// The entry at index `i` carries the number `i`.
    pub open spec fn wf(self) -> bool {
        forall|i: int| 0 <= i < self@.len() ==> (#[trigger] self@[i]).number == i
    }

    /// An empty ledger.
    pub fn new() -> (ledger: Ledger)
        ensures
            ledger@ == Seq::<Move>::empty(),
            ledger.wf(),
    {
        Ledger { moves: Vec::new() }
    }

    /// The number of recorded moves.
    pub fn len(&self) -> (n: usize)
        ensures
            n == self@.len(),
    {
        self.moves.len()
    }

    /// The entry at index `i`.
    pub fn get(&self, i: usize) -> (record: Move)
        requires
            i < self@.len(),
        ensures
            record == self@[i as int],
    {
        self.moves[i]
    }

    /// Adds `record` at the end. Its `number` is replaced by the ledger's
    /// length before the call, so that numbers count up from 0 without gaps.
    pub fn append(&mut self, record: Move)
        ensures
            final(self)@ == old(self)@.push(
                Move { number: old(self)@.len() as usize, ..record },
            ),
            final(self)@.last().number == old(self)@.len(),
            old(self).wf() ==> final(self).wf(),
    {
        let number: usize = self.moves.len();
        self.moves.push(Move { number, ..record });
    }

    /// The earliest entry that `predicate` accepts, or `None` where it
    /// accepts no entry.
    pub fn scan<F: Fn(&Move) -> bool>(&self, predicate: F) -> (found: Option<Move>)
        requires
            forall|i: int|
                0 <= i < self@.len() ==> call_requires(predicate, (&#[trigger] self@[i],)),
        ensures
            match found {
                Some(record) => exists|i: int|
                    {
                        &&& 0 <= i < self@.len()
                        &&& #[trigger] self@[i] == record
                        &&& call_ensures(predicate, (&record,), true)
                        &&& forall|j: int|
                            0 <= j < i ==> call_ensures(predicate, (&#[trigger] self@[j],), false)
                    },
                None => forall|i: int|
                    0 <= i < self@.len() ==> call_ensures(
                        predicate,
                        (&#[trigger] self@[i],),
                        false,
                    ),
            },
    {
        let mut i: usize = 0;
        while i < self.moves.len()
            invariant
                i <= self@.len(),
                self@ == self.moves@,
                forall|k: int|
                    0 <= k < self@.len() ==> call_requires(predicate, (&#[trigger] self@[k],)),
                forall|j: int|
                    0 <= j < i ==> call_ensures(predicate, (&#[trigger] self@[j],), false),
            decreases self@.len() - i,
        {
            if predicate(&self.moves[i]) {
                return Some(self.moves[i]);
            }
            i += 1;
        }
        None
    }

    /// The earliest recorded move of `piece`, or `None` where the piece has
    /// not moved yet.
    pub fn first_move_of(&self, piece: &Piece) -> (found: Option<Move>)
        ensures
            found is Some <==> has_moved(self@, *piece),
            found matches Some(record) ==> is_first_move_of(self@, *piece, record),
    {
        let is_move_of_piece = |record: &Move| -> (hit: bool)
            ensures
                hit == record.piece.same_piece(*piece),
            {
                record.piece == *piece
            };
        self.scan(is_move_of_piece)
    }
}

} // verus!
