//! Tests of the opening-book records and probes.

use porcupine::book::{BookEntry, PolyglotBook};
use porcupine::position::Position;
use porcupine::interop;
use porcupine::types::{Move, Piece};

fn fen_pos(fen: &str) -> Position {
    let board = chess::Board::from_fen(fen.to_string()).expect("valid test position");
    interop::board_to_position(&board).expect("consistent test position")
}

// The packed polyglot move: to-file, to-rank, from-file, from-rank, promo.
fn raw_move(from: u8, to: u8, promo: u16) -> u16 {
    (to % 8) as u16 | ((to / 8) as u16) << 3 | ((from % 8) as u16) << 6 | ((from / 8) as u16) << 9
        | promo << 12
}

#[test]
fn test_entry_from_bytes() {
    let bytes: [u8; 16] = [
        0x01, 0x02, 0x03, 0x04, 0x05, 0x06, 0x07, 0x08, 0x10, 0x20, 0x00, 0x40, 0x00, 0x00, 0x00,
        0x09,
    ];
    let e = BookEntry::from_bytes(&bytes);
    assert_eq!(e.key, 0x0102030405060708);
    assert_eq!(e.raw_move, 0x1020);
    assert_eq!(e.weight, 0x0040);
    assert_eq!(e.learn, 9);
}

#[test]
fn test_decode_move_bits() {
    let e = BookEntry { key: 0, raw_move: raw_move(12, 28, 0), weight: 1, learn: 0 };
    let (from, to, promo) = e.decode_move();
    assert_eq!(from, 12);
    assert_eq!(to, 28);
    assert_eq!(promo, None);

    let p = BookEntry { key: 0, raw_move: raw_move(52, 60, 4), weight: 1, learn: 0 };
    let (pf, pt, pp) = p.decode_move();
    assert_eq!(pf, 52);
    assert_eq!(pt, 60);
    assert_eq!(pp, Some(Piece::Queen));
}

#[test]
fn test_to_chess_move_castling_convention() {
    // The book writes white's short castle as king e1 to rook h1; it must
    // match the legal king move e1 to g1.
    let pos = fen_pos("4k3/8/8/8/8/8/8/4K2R w K - 0 1");
    let legal = vec![Move::new(4, 6, None), Move::new(4, 5, None)];
    let e = BookEntry { key: 0, raw_move: raw_move(4, 7, 0), weight: 1, learn: 0 };
    let m = e.to_chess_move(&pos, &legal).expect("castle matched");
    assert_eq!(m.from(), 4);
    assert_eq!(m.to(), 6);
}

#[test]
fn test_book_probe_run() {
    let e = |key: u64, from: u8, to: u8, weight: u16| BookEntry {
        key,
        raw_move: raw_move(from, to, 0),
        weight,
        learn: 0,
    };
    let entries = vec![e(3, 8, 16, 1), e(5, 12, 28, 10), e(5, 11, 27, 4), e(9, 6, 21, 2)];
    let book = PolyglotBook::from_entries(entries).expect("sorted records");
    assert_eq!(book.len(), 4);
    assert!(!book.is_empty());

    let run = book.probe(5);
    assert_eq!(run.len(), 2);
    assert_eq!(run[0].weight, 10);
    assert_eq!(run[1].weight, 4);
    assert_eq!(book.probe(4).len(), 0);
    assert_eq!(book.probe(3).len(), 1);

    // Unsorted records are refused.
    let unsorted = vec![e(9, 8, 16, 1), e(3, 12, 28, 1)];
    assert!(PolyglotBook::from_entries(unsorted).is_none());
}

#[test]
fn test_book_from_bytes_and_moves() {
    // Two records with the same key: e2e4 heavy, d2d4 light.
    let mut data: Vec<u8> = Vec::new();
    for (mv, w) in [(raw_move(12, 28, 0), 200u16), (raw_move(11, 27, 0), 1u16)] {
        data.extend_from_slice(&7u64.to_be_bytes());
        data.extend_from_slice(&mv.to_be_bytes());
        data.extend_from_slice(&w.to_be_bytes());
        data.extend_from_slice(&0u32.to_be_bytes());
    }
    let book = PolyglotBook::from_bytes(&data).expect("well-formed book bytes");
    assert_eq!(book.len(), 2);

    let pos = fen_pos("rnbqkbnr/pppppppp/8/8/8/8/PPPPPPPP/RNBQKBNR w KQkq - 0 1");
    let legal = vec![Move::new(12, 28, None), Move::new(11, 27, None)];
    let best = book.probe_best_move(7, &pos, &legal).expect("book move");
    assert_eq!(best, Move::new(12, 28, None));

    // The weighted probe is reproducible for a fixed seed.
    let a = book.probe_move(7, &pos, &legal, 12345);
    let b = book.probe_move(7, &pos, &legal, 12345);
    assert_eq!(a, b);
    assert!(a.is_some());
    assert!(book.probe_move(999, &pos, &legal, 12345).is_none());

    // A byte count that is no whole number of records is refused.
    let odd = vec![0u8; 17];
    assert!(PolyglotBook::from_bytes(&odd).is_none());
}

#[test]
fn test_probe_move_zero_weights_takes_first() {
    let e = |from: u8, to: u8| BookEntry {
        key: 11,
        raw_move: raw_move(from, to, 0),
        weight: 0,
        learn: 0,
    };
    let book = PolyglotBook::from_entries(vec![e(12, 28), e(11, 27)]).expect("sorted records");
    let pos = fen_pos("rnbqkbnr/pppppppp/8/8/8/8/PPPPPPPP/RNBQKBNR w KQkq - 0 1");
    let legal = vec![Move::new(12, 28, None), Move::new(11, 27, None)];
    // All weights zero: the first record's move is taken, whatever the seed.
    assert_eq!(book.probe_move(11, &pos, &legal, 1), Some(Move::new(12, 28, None)));
    assert_eq!(book.probe_move(11, &pos, &legal, 999), Some(Move::new(12, 28, None)));
}
