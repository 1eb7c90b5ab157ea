use recreations::chess::board::{setup_board, Board, Tile};
use recreations::chess::game::Game;
use recreations::chess::ledger::{Ledger, Move};
use recreations::chess::notation::parse_coordinate;
use recreations::chess::piece::{Colour, Piece, PieceKind};
use recreations::chess::position::Position;

fn blank_board() -> Board {
    Board { tiles: [[Tile { piece: Piece::default(), x: 0, y: 0 }; 8]; 8] }
}

fn fresh_game() -> Game {
    let mut game =
        Game { board: blank_board(), current_turn: Colour::White, move_history: Ledger::new() };
    setup_board(&mut game.board);
    game
}

fn at(text: &str) -> Position {
    parse_coordinate(text.to_string()).unwrap()
}

#[test]
fn new_game_starts_in_the_starting_position() {
    let game = Game::new();
    let fresh = fresh_game();
    assert_eq!(Colour::White, game.current_turn);
    assert_eq!(0, game.move_history.len());
    for y in 0..8 {
        for x in 0..8 {
            let tile = game.board.get(Position { x, y });
            let expected = fresh.board.get(Position { x, y });
            assert_eq!(x, tile.x);
            assert_eq!(y, tile.y);
            assert_eq!(expected.piece.kind, tile.piece.kind);
            assert_eq!(expected.piece.colour, tile.piece.colour);
            assert_eq!(Position { x, y }, tile.piece.starting_position);
        }
    }
}

#[test]
fn default_piece_is_an_empty_marker() {
    let piece = Piece::default();
    assert_eq!(PieceKind::Empty, piece.kind);
    assert_eq!(Colour::White, piece.colour);
    assert_eq!(Position { x: 0, y: 0 }, piece.starting_position);
}

#[test]
fn pieces_are_equal_when_they_started_on_the_same_tile() {
    let pawn = Piece { kind: PieceKind::Pawn, colour: Colour::White, starting_position: Position { x: 4, y: 6 } };
    let queen = Piece { kind: PieceKind::Queen, colour: Colour::Black, starting_position: Position { x: 4, y: 6 } };
    let other = Piece { kind: PieceKind::Pawn, colour: Colour::White, starting_position: Position { x: 3, y: 6 } };
    assert!(pawn == queen);
    assert!(pawn == pawn);
    assert!(pawn != other);
    assert!(queen != other);
}

#[test]
fn setup_puts_sixteen_pieces_of_each_colour() {
    let game = fresh_game();
    let mut white = 0;
    let mut black = 0;
    for y in 0..8 {
        for x in 0..8 {
            let piece = game.board.get(Position { x, y }).piece;
            if piece.kind != PieceKind::Empty {
                match piece.colour {
                    Colour::White => white += 1,
                    Colour::Black => black += 1,
                }
            }
        }
    }
    assert_eq!(16, white);
    assert_eq!(16, black);
}

#[test]
fn setup_stamps_every_tile_and_piece_with_its_coordinates() {
    let game = fresh_game();
    for y in 0..8 {
        for x in 0..8 {
            let tile = game.board.get(Position { x, y });
            assert_eq!(x, tile.x);
            assert_eq!(y, tile.y);
            assert_eq!(Position { x, y }, tile.piece.starting_position);
        }
    }
}

#[test]
fn setup_places_the_back_ranks_in_order() {
    let game = fresh_game();
    let order = [
        PieceKind::Rook,
        PieceKind::Knight,
        PieceKind::Bishop,
        PieceKind::Queen,
        PieceKind::King,
        PieceKind::Bishop,
        PieceKind::Knight,
        PieceKind::Rook,
    ];
    for x in 0..8 {
        let black = game.board.get(Position { x, y: 0 }).piece;
        assert_eq!(order[x], black.kind);
        assert_eq!(Colour::Black, black.colour);
        let white = game.board.get(Position { x, y: 7 }).piece;
        assert_eq!(order[x], white.kind);
        assert_eq!(Colour::White, white.colour);
    }
    assert_eq!(PieceKind::Queen, game.board.get(at("d1")).piece.kind);
    assert_eq!(PieceKind::King, game.board.get(at("e8")).piece.kind);
}

#[test]
fn setup_places_the_pawns_and_empties_the_middle() {
    let game = fresh_game();
    for x in 0..8 {
        let black = game.board.get(Position { x, y: 1 }).piece;
        assert_eq!(PieceKind::Pawn, black.kind);
        assert_eq!(Colour::Black, black.colour);
        let white = game.board.get(Position { x, y: 6 }).piece;
        assert_eq!(PieceKind::Pawn, white.kind);
        assert_eq!(Colour::White, white.colour);
        for y in 2..6 {
            let empty = game.board.get(Position { x, y }).piece;
            assert_eq!(PieceKind::Empty, empty.kind);
            assert_eq!(Colour::White, empty.colour);
        }
    }
}

#[test]
fn setup_overwrites_what_the_board_held() {
    let stray = Piece { kind: PieceKind::Queen, colour: Colour::Black, starting_position: Position { x: 9, y: 9 } };
    let mut board = Board { tiles: [[Tile { piece: stray, x: 3, y: 3 }; 8]; 8] };
    setup_board(&mut board);
    let fresh = fresh_game();
    for y in 0..8 {
        for x in 0..8 {
            let tile = board.get(Position { x, y });
            let expected = fresh.board.get(Position { x, y });
            assert_eq!(expected.x, tile.x);
            assert_eq!(expected.y, tile.y);
            assert_eq!(expected.piece.kind, tile.piece.kind);
            assert_eq!(expected.piece.colour, tile.piece.colour);
            assert_eq!(expected.piece.starting_position, tile.piece.starting_position);
        }
    }
}

#[test]
fn move_piece_moves_the_piece_and_records_the_move() {
    let mut game = fresh_game();
    let start = at("e2");
    let end = at("e4");
    let moved = game.board.get(start).piece;
    game.move_piece(start, end);

    let reached = game.board.get(end).piece;
    assert_eq!(PieceKind::Pawn, reached.kind);
    assert_eq!(Colour::White, reached.colour);
    assert_eq!(start, reached.starting_position);
    assert!(reached == moved);

    assert_eq!(PieceKind::Empty, game.board.get(start).piece.kind);

    assert_eq!(1, game.move_history.len());
    let record = game.move_history.get(0);
    assert_eq!(0, record.number);
    assert_eq!(start, record.start);
    assert_eq!(end, record.end);
    assert_eq!(PieceKind::Pawn, record.piece.kind);
    assert_eq!(Colour::White, record.piece.colour);
    assert_eq!(start, record.piece.starting_position);
    assert_eq!(PieceKind::Empty, record.captured_piece.kind);
    assert_eq!(end, record.captured_piece.starting_position);
}

#[test]
fn move_piece_leaves_every_other_tile_alone() {
    let mut game = fresh_game();
    let before = fresh_game();
    let start = at("g1");
    let end = at("f3");
    game.move_piece(start, end);
    for y in 0..8 {
        for x in 0..8 {
            let position = Position { x, y };
            let tile = game.board.get(position);
            assert_eq!(x, tile.x);
            assert_eq!(y, tile.y);
            if position != start && position != end {
                let old = before.board.get(position).piece;
                assert_eq!(old.kind, tile.piece.kind);
                assert_eq!(old.colour, tile.piece.colour);
                assert_eq!(old.starting_position, tile.piece.starting_position);
            }
        }
    }
    assert_eq!(Colour::White, game.current_turn);
}

#[test]
fn move_piece_keeps_colour_and_identity_on_the_tile_it_leaves() {
    let mut game = fresh_game();
    game.move_piece(at("d8"), at("d5"));
    let left = game.board.get(at("d8")).piece;
    assert_eq!(PieceKind::Empty, left.kind);
    assert_eq!(Colour::Black, left.colour);
    assert_eq!(at("d8"), left.starting_position);
}

#[test]
fn move_piece_records_the_captured_piece() {
    let mut game = fresh_game();
    game.move_piece(at("d1"), at("d7"));
    let reached = game.board.get(at("d7")).piece;
    assert_eq!(PieceKind::Queen, reached.kind);
    assert_eq!(Colour::White, reached.colour);
    let record = game.move_history.get(0);
    assert_eq!(PieceKind::Queen, record.piece.kind);
    assert_eq!(PieceKind::Pawn, record.captured_piece.kind);
    assert_eq!(Colour::Black, record.captured_piece.colour);
    assert_eq!(at("d7"), record.captured_piece.starting_position);
}

#[test]
fn move_piece_numbers_the_moves_without_gaps() {
    let mut game = fresh_game();
    let moves = [("e2", "e4"), ("e7", "e5"), ("g1", "f3"), ("b8", "c6"), ("f1", "b5")];
    for (n, (from, to)) in moves.iter().enumerate() {
        assert_eq!(n, game.move_history.len());
        game.move_piece(at(from), at(to));
        assert_eq!(n + 1, game.move_history.len());
        assert_eq!(n, game.move_history.get(n).number);
    }
    for (n, (from, to)) in moves.iter().enumerate() {
        let record = game.move_history.get(n);
        assert_eq!(n, record.number);
        assert_eq!(at(from), record.start);
        assert_eq!(at(to), record.end);
    }
}

#[test]
fn move_piece_onto_its_own_tile_empties_the_tile() {
    let mut game = fresh_game();
    game.move_piece(at("e2"), at("e2"));
    assert_eq!(PieceKind::Empty, game.board.get(at("e2")).piece.kind);
    let record = game.move_history.get(0);
    assert_eq!(PieceKind::Pawn, record.piece.kind);
    assert_eq!(PieceKind::Pawn, record.captured_piece.kind);
}

#[test]
fn pieces_first_move_is_over_once_the_piece_has_moved() {
    let mut game = fresh_game();
    let pawn = game.board.get(at("e2")).piece;
    let other = game.board.get(at("d2")).piece;
    assert_eq!(true, game.pieces_first_move(&pawn));
    assert_eq!(true, game.pieces_first_move(&other));
    game.move_piece(at("e2"), at("e3"));
    assert_eq!(false, game.pieces_first_move(&pawn));
    assert_eq!(true, game.pieces_first_move(&other));
    game.move_piece(at("b8"), at("c6"));
    assert_eq!(false, game.pieces_first_move(&pawn));
    assert_eq!(true, game.pieces_first_move(&other));
    let moved = game.board.get(at("e3")).piece;
    assert_eq!(false, game.pieces_first_move(&moved));
}

fn record(x: usize, number: usize) -> Move {
    let piece = Piece { kind: PieceKind::Pawn, colour: Colour::White, starting_position: Position { x, y: 6 } };
    Move {
        piece,
        captured_piece: Piece::default(),
        number,
        start: Position { x, y: 6 },
        end: Position { x, y: 5 },
    }
}

#[test]
fn ledger_starts_empty() {
    let ledger = Ledger::new();
    assert_eq!(0, ledger.len());
    assert!(ledger.scan(|_| true).is_none());
}

#[test]
fn ledger_append_numbers_the_entries_by_their_place() {
    let mut ledger = Ledger::new();
    ledger.append(record(3, 17));
    ledger.append(record(4, 0));
    ledger.append(record(5, usize::MAX));
    assert_eq!(3, ledger.len());
    for i in 0..3 {
        let entry = ledger.get(i);
        assert_eq!(i, entry.number);
        assert_eq!(3 + i, entry.start.x);
    }
}

#[test]
fn ledger_scan_finds_the_earliest_match() {
    let mut ledger = Ledger::new();
    ledger.append(record(1, 0));
    ledger.append(record(2, 0));
    ledger.append(record(1, 0));
    ledger.append(record(3, 0));
    let found = ledger.scan(|entry| entry.start.x == 1).unwrap();
    assert_eq!(0, found.number);
    let found = ledger.scan(|entry| entry.start.x == 3).unwrap();
    assert_eq!(3, found.number);
    let found = ledger.scan(|entry| entry.start.x >= 2).unwrap();
    assert_eq!(1, found.number);
    assert!(ledger.scan(|entry| entry.start.x == 7).is_none());
}

#[test]
fn ledger_first_move_of_goes_by_identity() {
    let mut ledger = Ledger::new();
    ledger.append(record(1, 0));
    ledger.append(record(2, 0));
    ledger.append(record(2, 0));
    let promoted = Piece { kind: PieceKind::Queen, colour: Colour::White, starting_position: Position { x: 2, y: 6 } };
    let found = ledger.first_move_of(&promoted).unwrap();
    assert_eq!(1, found.number);
    assert_eq!(PieceKind::Pawn, found.piece.kind);
    let unmoved = Piece { kind: PieceKind::Pawn, colour: Colour::White, starting_position: Position { x: 2, y: 1 } };
    assert!(ledger.first_move_of(&unmoved).is_none());
}
