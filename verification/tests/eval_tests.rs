//! Tests of the evaluators and the exchange evaluation, on positions read
//! from FEN through the board collaborator.

use porcupine::position::Position;
use porcupine::interop;
use porcupine::types::{Move, Piece, Color};
use porcupine::eval::{SearchEvaluator, material_eval_wrapper};
use porcupine::endgame::{should_use_endgame, corner_distance, king_distance, center_distance};
use porcupine::see::{see, see_captured, is_good_capture};
use porcupine::nnue::NnueEvaluator;
use porcupine::{hce, endgame};

fn fen_pos(fen: &str) -> Position {
    let board = chess::Board::from_fen(fen.to_string()).expect("valid test position");
    interop::board_to_position(&board).expect("consistent test position")
}

fn startpos() -> Position {
    interop::board_to_position(&chess::Board::default()).expect("consistent start position")
}

#[test]
fn test_starting_position() {
    let pos = startpos();
    let score = hce::evaluate(&pos);
    assert!(score.raw().abs() < 50);
    // The start position is mirror-symmetric, so the tapered terms cancel
    // exactly.
    assert_eq!(score.raw(), 0);
}

#[test]
fn test_material_advantage() {
    let pos = fen_pos("rnb1kbnr/pppppppp/8/8/8/8/PPPPPPPP/RNBQKBNR w KQkq - 0 1");
    let score = hce::evaluate(&pos);
    assert!(score.raw() > 800);
}

#[test]
fn test_starting_position_material() {
    let pos = startpos();
    let score = material_eval_wrapper(&pos);
    assert!(score.raw().abs() < 50);
}

#[test]
fn test_endgame_auto_switch() {
    // KRK endgame should trigger endgame eval
    let pos = fen_pos("8/8/8/4k3/8/8/4K3/4R3 w - - 0 1");
    assert!(should_use_endgame(&pos));
}

#[test]
fn test_opening_no_switch() {
    // Starting position should NOT use endgame eval
    let pos = startpos();
    assert!(!should_use_endgame(&pos));
}

#[test]
fn test_krk_endgame() {
    // KRK endgame - white should win
    let pos = fen_pos("8/8/8/4k3/8/8/4K3/4R3 w - - 0 1");
    assert!(should_use_endgame(&pos));

    let score = endgame::evaluate(&pos);
    // White has rook advantage, should be positive
    assert!(score.raw() > 400);
}

#[test]
fn test_king_in_corner_bonus() {
    // Enemy king in corner should give bonus
    let pos1 = fen_pos("k7/8/8/8/8/8/4K3/4R3 w - - 0 1");
    let pos2 = fen_pos("4k3/8/8/8/8/8/4K3/4R3 w - - 0 1");

    let score1 = endgame::evaluate(&pos1); // King in corner
    let score2 = endgame::evaluate(&pos2); // King in center

    // Corner position should score higher
    assert!(score1.raw() > score2.raw());
}

#[test]
fn test_corner_distance() {
    assert_eq!(corner_distance(0), 0); // a1, a corner
    assert_eq!(corner_distance(63), 0); // h8, a corner
    assert_eq!(corner_distance(56), 0); // a8, a corner
    assert_eq!(corner_distance(28), 6); // e4, near the center
    assert_eq!(corner_distance(27), 6); // d4, the center
}

#[test]
fn test_king_distance() {
    assert_eq!(king_distance(4, 60), 7); // e1 to e8
    assert_eq!(king_distance(0, 9), 1); // a1 to b2
    assert_eq!(king_distance(0, 63), 7); // a1 to h8
}

#[test]
fn test_center_distance() {
    assert_eq!(center_distance(27), 0); // d4 is central
    assert_eq!(center_distance(36), 0); // e5 is central
    assert_eq!(center_distance(0), 6); // a1 is not
}

#[test]
fn test_see_plain_capture() {
    // A pawn takes an undefended pawn: the exchange wins the pawn.
    let pos = fen_pos("4k3/8/8/3p4/4P3/8/8/4K3 w - - 0 1");
    let exd5 = Move::new(28, 35, None);
    assert_eq!(see(&pos, exd5), 100);
    assert!(is_good_capture(&pos, exd5));
    assert_eq!(see_captured(&pos, exd5, Some(Piece::Pawn)), 100);
    // A quiet move by a non-pawn is no capture and evaluates to zero.
    let ke2 = Move::new(4, 12, None);
    assert_eq!(see_captured(&pos, ke2, None), 0);
}

#[test]
fn test_see_defended_capture() {
    // The captured pawn is defended by another pawn; the swap-off value of
    // the exchange never drops below the first gain.
    let pos = fen_pos("4k3/8/4p3/3p4/4P3/8/8/4K3 w - - 0 1");
    let exd5 = Move::new(28, 35, None);
    assert!(see(&pos, exd5) >= 0);
}

#[test]
fn test_evaluator_variants_agree_on_accumulated_features() {
    let pos = startpos();
    let mut hce_eval = SearchEvaluator::new(false, &pos);
    let mut inc_eval = SearchEvaluator::new(true, &pos);
    // The incremental evaluator scores its accumulated features with the
    // same tapered evaluation, so on a fresh accumulator the two agree.
    assert_eq!(hce_eval.evaluate(&pos).raw(), inc_eval.evaluate(&pos).raw());

    // A quiet move keeps the accumulator in step; a king move asks for a
    // refresh instead.
    let mut n = NnueEvaluator::new(&pos);
    let e2e4 = Move::new(12, 28, None);
    assert!(n.update_move(&pos, e2e4));
    let after = fen_pos("rnbqkbnr/pppppppp/8/8/4P3/8/PPPP1PPP/RNBQKBNR b KQkq e3 0 1");
    let mut refreshed = NnueEvaluator::new(&after);
    assert_eq!(
        n.evaluate(Color::Black).raw(),
        refreshed.evaluate(Color::Black).raw()
    );
    let king_pos = fen_pos("4k3/8/8/8/8/8/8/4K3 w - - 0 1");
    let mut k = NnueEvaluator::new(&king_pos);
    assert!(!k.update_move(&king_pos, Move::new(4, 12, None)));
    k.refresh(&king_pos);
}
