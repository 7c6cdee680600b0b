//! Tests of UCI move text and search parameters.

use porcupine::uci::{SearchParams, parse_move, format_move};
use porcupine::types::{Move, Piece};

#[test]
fn test_parse_move_plain_and_case() {
    let moves = vec![Move::new(12, 28, None), Move::new(11, 27, None)];
    assert_eq!(parse_move(&moves, "e2e4"), Some(Move::new(12, 28, None)));
    assert_eq!(parse_move(&moves, "  E2E4  "), Some(Move::new(12, 28, None)));
    assert_eq!(parse_move(&moves, "d2d4"), Some(Move::new(11, 27, None)));
    assert_eq!(parse_move(&moves, "e2e5"), None);
    assert_eq!(parse_move(&moves, "e2"), None);
    assert_eq!(parse_move(&moves, "z9z9"), None);
}

#[test]
fn test_parse_move_promotion() {
    let moves = vec![
        Move::new(52, 60, Some(Piece::Queen)),
        Move::new(52, 60, Some(Piece::Knight)),
    ];
    assert_eq!(parse_move(&moves, "e7e8q"), Some(Move::new(52, 60, Some(Piece::Queen))));
    assert_eq!(parse_move(&moves, "e7e8n"), Some(Move::new(52, 60, Some(Piece::Knight))));
    // Without a promotion letter no promoting move matches.
    assert_eq!(parse_move(&moves, "e7e8"), None);
}

#[test]
fn test_format_move_text() {
    assert_eq!(format_move(Move::new(12, 28, None)), "e2e4");
    assert_eq!(format_move(Move::new(52, 60, Some(Piece::Queen))), "e7e8q");
    assert_eq!(format_move(Move::new(6, 21, None)), "g1f3");
    // Formatting and parsing agree.
    let m = Move::new(52, 60, Some(Piece::Knight));
    let text = format_move(m);
    assert_eq!(parse_move(&vec![m], &text), Some(m));
}

#[test]
fn test_search_params() {
    let p = SearchParams::new();
    assert!(p.depth.is_none());
    assert!(!p.infinite);
    let d = SearchParams::fixed_depth(7);
    assert_eq!(d.depth.map(|x| x.raw()), Some(7));
    let t = SearchParams::fixed_time(300);
    assert_eq!(t.movetime, Some(300));
}
