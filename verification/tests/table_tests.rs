//! Tests of the killer and history tables.

use porcupine::killers::KillerTable;
use porcupine::history::{HistoryTable, HISTORY_MAX};
use porcupine::types::{Move, Ply, Color};

#[test]
fn test_killer_store_and_get() {
    let mut table = KillerTable::new();
    let ply = Ply::new(5);

    // Create test moves
    let mv1 = Move::new(12, 28, None); // e2e4
    let mv2 = Move::new(11, 27, None); // d2d4
    let mv3 = Move::new(6, 21, None); // g1f3

    // Store first killer
    table.store(ply, mv1);
    assert_eq!(table.get(ply).s0, Some(mv1));
    assert_eq!(table.get(ply).s1, None);

    // Store second killer (different move)
    table.store(ply, mv2);
    assert_eq!(table.get(ply).s0, Some(mv2));
    assert_eq!(table.get(ply).s1, Some(mv1));

    // Store third killer (shifts again)
    table.store(ply, mv3);
    assert_eq!(table.get(ply).s0, Some(mv3));
    assert_eq!(table.get(ply).s1, Some(mv2));

    // Storing same killer again shouldn't change anything
    table.store(ply, mv3);
    assert_eq!(table.get(ply).s0, Some(mv3));
    assert_eq!(table.get(ply).s1, Some(mv2));
}

#[test]
fn test_killer_is_killer_and_clear() {
    let mut table = KillerTable::new();
    let ply = Ply::new(3);
    let mv1 = Move::new(12, 28, None);
    let mv2 = Move::new(11, 27, None);
    table.store(ply, mv1);
    table.store(ply, mv2);
    assert_eq!(table.is_killer(ply, mv2), Some(0));
    assert_eq!(table.is_killer(ply, mv1), Some(1));
    assert_eq!(table.is_killer(ply, Move::new(6, 21, None)), None);
    // A ply outside the table holds nothing.
    assert_eq!(table.get(Ply::new(4096)).s0, None);
    table.clear();
    assert_eq!(table.get(ply).s0, None);
    assert_eq!(table.get(ply).s1, None);
}

#[test]
fn test_history_update_and_bounds() {
    let mut h = HistoryTable::new();
    let mv = Move::new(12, 28, None);
    assert_eq!(h.get(Color::White, mv), 0);
    h.update(Color::White, mv, 100);
    assert_eq!(h.get(Color::White, mv), 100);
    assert_eq!(h.get(Color::Black, mv), 0);

    // Repeated large bonuses stay within the bound.
    for _ in 0..100 {
        h.update(Color::White, mv, 1_000_000);
    }
    assert!(h.get(Color::White, mv) <= HISTORY_MAX);
    for _ in 0..100 {
        h.update(Color::White, mv, -1_000_000);
    }
    assert!(h.get(Color::White, mv) >= -HISTORY_MAX);
}

#[test]
fn test_history_cutoff_and_age() {
    let mut h = HistoryTable::new();
    let best = Move::new(12, 28, None);
    let other = Move::new(11, 27, None);
    let quiets = vec![other, best];
    h.update_on_cutoff(Color::White, best, 4, &quiets);
    assert_eq!(h.get(Color::White, best), 16);
    assert_eq!(h.get(Color::White, other), -16);
    h.age();
    assert_eq!(h.get(Color::White, best), 8);
    assert_eq!(h.get(Color::White, other), -8);
    h.clear();
    assert_eq!(h.get(Color::White, best), 0);
}
