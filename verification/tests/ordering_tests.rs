//! Tests of move ordering: scores and the sorted order.

use porcupine::position::Position;
use porcupine::interop;
use porcupine::types::{Move, Piece};
use porcupine::killers::KillerSlots;
use porcupine::ordering::{
    mvv_lva_score, score_move, order_moves, order_moves_with_tt, order_moves_with_tt_and_killers,
    order_captures, TT_MOVE_BONUS, CAPTURE_BONUS, KILLER_0_BONUS, KILLER_1_BONUS,
};

fn fen_pos(fen: &str) -> Position {
    let board = chess::Board::from_fen(fen.to_string()).expect("valid test position");
    interop::board_to_position(&board).expect("consistent test position")
}

#[test]
fn test_move_scores() {
    // A knight can capture a queen; a rook can capture a pawn.
    let pos = fen_pos("4k3/3q4/8/4N3/7p/7R/8/4K3 w - - 0 1");
    let nxd7 = Move::new(36, 51, None);
    let rxh4 = Move::new(23, 31, None);
    let quiet = Move::new(23, 22, None); // rook to g3

    // MVV-LVA prefers the queen capture by the knight.
    assert_eq!(mvv_lva_score(&pos, nxd7), 900 * 10 - 320);
    assert_eq!(mvv_lva_score(&pos, rxh4), 100 * 10 - 500);
    assert_eq!(mvv_lva_score(&pos, quiet), 0);

    let none = KillerSlots { s0: None, s1: None };
    assert_eq!(score_move(&pos, nxd7, Some(nxd7), none), TT_MOVE_BONUS);
    assert_eq!(score_move(&pos, nxd7, None, none), 900 * 10 - 320 + CAPTURE_BONUS);
    let killers = KillerSlots { s0: Some(quiet), s1: Some(rxh4) };
    assert_eq!(score_move(&pos, quiet, None, killers), KILLER_0_BONUS);
    // A capture in a killer slot still scores as a capture.
    assert_eq!(score_move(&pos, rxh4, None, killers), 100 * 10 - 500 + CAPTURE_BONUS);
    let killers2 = KillerSlots { s0: Some(rxh4), s1: Some(quiet) };
    assert_eq!(score_move(&pos, quiet, None, killers2), KILLER_1_BONUS);
}

#[test]
fn test_order_moves_sorts_descending() {
    let pos = fen_pos("4k3/3q4/8/4N3/7p/7R/8/4K3 w - - 0 1");
    let nxd7 = Move::new(36, 51, None);
    let rxh4 = Move::new(23, 31, None);
    let quiet = Move::new(23, 22, None);
    let mut moves = vec![quiet, rxh4, nxd7];
    order_moves(&pos, &mut moves);
    assert_eq!(moves, vec![nxd7, rxh4, quiet]);

    // The table move goes first whatever its own score.
    let mut moves2 = vec![quiet, rxh4, nxd7];
    order_moves_with_tt(&pos, &mut moves2, Some(quiet));
    assert_eq!(moves2[0], quiet);

    // A killer outranks a plain quiet move but not a capture.
    let quiet2 = Move::new(36, 30, None); // knight retreat
    let killers = KillerSlots { s0: Some(quiet2), s1: None };
    let mut moves3 = vec![quiet, quiet2, rxh4];
    order_moves_with_tt_and_killers(&pos, &mut moves3, None, killers);
    assert_eq!(moves3, vec![rxh4, quiet2, quiet]);
}

#[test]
fn test_order_captures_mvv_lva() {
    let pos = fen_pos("4k3/3q4/8/4N3/7p/7R/8/4K3 w - - 0 1");
    let nxd7 = Move::new(36, 51, None);
    let rxh4 = Move::new(23, 31, None);
    let mut caps = vec![rxh4, nxd7];
    order_captures(&pos, &mut caps);
    assert_eq!(caps, vec![nxd7, rxh4]);

    // A promotion scores its piece value on top of the promotion bonus.
    let promo_pos = fen_pos("4k3/6P1/8/8/8/8/8/4K3 w - - 0 1");
    let g8q = Move::new(54, 62, Some(Piece::Queen));
    let g8n = Move::new(54, 62, Some(Piece::Knight));
    let none = KillerSlots { s0: None, s1: None };
    assert!(score_move(&promo_pos, g8q, None, none) > score_move(&promo_pos, g8n, None, none));
}

#[test]
fn test_order_moves_stable_on_ties() {
    // Two quiet moves score equally; the sort keeps their input order.
    let pos = fen_pos("4k3/3q4/8/4N3/7p/7R/8/4K3 w - - 0 1");
    let quiet_a = Move::new(23, 22, None); // rook to g3
    let quiet_b = Move::new(23, 21, None); // rook to f3
    let mut moves = vec![quiet_a, quiet_b];
    order_moves(&pos, &mut moves);
    assert_eq!(moves, vec![quiet_a, quiet_b]);
    let mut moves2 = vec![quiet_b, quiet_a];
    order_moves(&pos, &mut moves2);
    assert_eq!(moves2, vec![quiet_b, quiet_a]);
}
