//! Tests of the transposition table: storing, probing, replacement, the
//! move encoding and the fill measure.

use porcupine::tt::{TranspositionTable, BoundType, encode_move, decode_move};
use porcupine::types::{Move, Piece, Depth};
use porcupine::score::Score;

#[test]
fn test_tt_basic() {
    let mut tt = TranspositionTable::new(1);
    let hash: u64 = 0x123456789ABCDEF0;

    // Initially empty
    assert!(tt.probe(hash).is_none());

    // Store and retrieve
    tt.store(hash, None, Score::cp(100), Depth::new(5), BoundType::Exact);

    let entry = tt.probe(hash).expect("Entry should exist");
    assert_eq!(entry.score().raw(), 100);
    assert_eq!(entry.depth().raw(), 5);
    assert_eq!(entry.bound(), BoundType::Exact);
}

#[test]
fn test_move_encoding() {
    let mv = Move::new(12, 28, None); // e2e4
    let encoded = encode_move(Some(mv));
    let decoded = decode_move(encoded).unwrap();
    assert_eq!(mv.from(), decoded.from());
    assert_eq!(mv.to(), decoded.to());
}

#[test]
fn test_move_encoding_promotion() {
    let mv = Move::new(52, 60, Some(Piece::Queen)); // e7e8q
    let encoded = encode_move(Some(mv));
    let decoded = decode_move(encoded).unwrap();
    assert_eq!(decoded.from(), 52);
    assert_eq!(decoded.to(), 60);
    assert_eq!(decoded.flag().promotion_piece(), Some(Piece::Queen));
    assert_eq!(encode_move(None), 0);
    assert!(decode_move(0).is_none());
}

#[test]
fn test_tt_store_then_probe_same_generation() {
    let mut tt = TranspositionTable::new(1);
    let h1: u64 = 0x1111_0000_0000_0001;
    let h2: u64 = 0x2222_0000_0000_0002; // a different slot and key
    tt.store(h1, Some(Move::new(12, 28, None)), Score::cp(33), Depth::new(3), BoundType::LowerBound);
    tt.store(h2, None, Score::cp(-44), Depth::new(2), BoundType::UpperBound);

    // The first entry is still there after the non-colliding store.
    let e1 = tt.probe(h1).expect("first entry kept");
    assert_eq!(e1.score().raw(), 33);
    assert_eq!(e1.bound(), BoundType::LowerBound);
    let bm = e1.best_move().expect("stored move kept");
    assert_eq!(bm.from(), 12);
    assert_eq!(bm.to(), 28);

    let e2 = tt.probe(h2).expect("second entry kept");
    assert_eq!(e2.score().raw(), -44);
    assert_eq!(e2.bound(), BoundType::UpperBound);
}

#[test]
fn test_tt_depth_preferred_replacement() {
    let mut tt = TranspositionTable::new(1);
    let h: u64 = 0x9999_0000_0000_0009;
    tt.store(h, None, Score::cp(10), Depth::new(7), BoundType::Exact);
    // A shallower store in the same generation does not replace.
    tt.store(h, None, Score::cp(20), Depth::new(2), BoundType::Exact);
    assert_eq!(tt.probe(h).unwrap().score().raw(), 10);
    // An equal-depth store does replace.
    tt.store(h, None, Score::cp(30), Depth::new(7), BoundType::Exact);
    assert_eq!(tt.probe(h).unwrap().score().raw(), 30);
}

#[test]
fn test_tt_hashfull_and_clear() {
    let mut tt = TranspositionTable::new(1);
    assert_eq!(tt.hashfull(), 0);
    assert!(tt.len() >= 1024);
    assert!(!tt.is_empty());
    assert_eq!(tt.size_mb(), 1);
    let before = tt.hashfull();
    tt.store(5, None, Score::cp(1), Depth::new(1), BoundType::Exact);
    assert!(tt.hashfull() >= before);
    tt.clear();
    assert_eq!(tt.hashfull(), 0);
    assert!(tt.probe(5).is_none());
    tt.new_search();
    tt.resize(2);
    assert_eq!(tt.size_mb(), 2);
    // A zero request still yields the minimum table.
    let small = TranspositionTable::new(0);
    assert_eq!(small.len(), 1024);
}
