//! Tests of the quiescence search over the board collaborator.

use porcupine::qsearch::{quiescence, in_check, attackers_to, SearchStats};
use porcupine::types::Color;
use porcupine::eval::SearchEvaluator;
use porcupine::limits::TimeManager;
use porcupine::interop;
use porcupine::position::Position;
use porcupine::score::Score;
use porcupine::types::Ply;

fn fen_board(fen: &str) -> chess::Board {
    chess::Board::from_fen(fen.to_string()).expect("valid test position")
}

fn pos_of(board: &chess::Board) -> Position {
    interop::board_to_position(board).expect("consistent test position")
}

#[test]
fn test_quiescence_quiet_position_stands_pat() {
    let board = chess::Board::default();
    let pos = pos_of(&board);
    let eval = SearchEvaluator::new(false, &pos);
    let tm = TimeManager::new();
    let mut stats = SearchStats::new();
    let r = quiescence(
        &board,
        &eval,
        &tm,
        &mut stats,
        Ply::new(0),
        0,
        Score::neg_infinity(),
        Score::infinity(),
    );
    // No captures exist: the start position stands pat near equality.
    assert!(r.score.raw().abs() < 50);
    assert!(r.best_move.is_none());
    assert!(r.pv.is_empty());
    assert_eq!(stats.nodes, 1);
}

#[test]
fn test_quiescence_wins_a_pawn() {
    let board = fen_board("4k3/8/8/3p4/4P3/8/8/4K3 w - - 0 1");
    let pos = pos_of(&board);
    assert!(!in_check(&pos));
    let eval = SearchEvaluator::new(false, &pos);
    let tm = TimeManager::new();
    let mut stats = SearchStats::new();
    let r = quiescence(
        &board,
        &eval,
        &tm,
        &mut stats,
        Ply::new(0),
        0,
        Score::neg_infinity(),
        Score::infinity(),
    );
    // Taking the free pawn is clearly better than standing pat.
    assert!(r.score.raw() > 50);
    assert!(stats.nodes >= 2);
    assert_eq!(r.pv.first().map(|m| (m.from(), m.to())), Some((28, 35)));
}

#[test]
fn test_quiescence_stand_pat_cutoff() {
    let board = chess::Board::default();
    let pos = pos_of(&board);
    let eval = SearchEvaluator::new(false, &pos);
    let tm = TimeManager::new();
    let mut stats = SearchStats::new();
    // With the window far below the static evaluation, the node fails high
    // at once and returns the window's upper edge.
    let r = quiescence(
        &board,
        &eval,
        &tm,
        &mut stats,
        Ply::new(0),
        0,
        Score::cp(-29001),
        Score::cp(-29000),
    );
    assert_eq!(r.score.raw(), -29000);
}

#[test]
fn test_quiescence_deterministic() {
    let board = fen_board("4k3/8/4p3/3p4/4P3/8/8/4K3 w - - 0 1");
    let pos = pos_of(&board);
    let eval = SearchEvaluator::new(false, &pos);
    let tm = TimeManager::new();
    let mut s1 = SearchStats::new();
    let r1 = quiescence(
        &board,
        &eval,
        &tm,
        &mut s1,
        Ply::new(0),
        0,
        Score::neg_infinity(),
        Score::infinity(),
    );
    let mut s2 = SearchStats::new();
    let r2 = quiescence(
        &board,
        &eval,
        &tm,
        &mut s2,
        Ply::new(0),
        0,
        Score::neg_infinity(),
        Score::infinity(),
    );
    // Same board, same evaluator, fresh counters: the same score, the same
    // line, the same node count.
    assert_eq!(r1.score, r2.score);
    assert_eq!(r1.pv, r2.pv);
    assert_eq!(s1.nodes, s2.nodes);
}

#[test]
fn test_in_check_detection() {
    let checked = fen_board("4k3/8/8/8/8/8/4r3/4K3 w - - 0 1");
    assert!(in_check(&pos_of(&checked)));
    let quiet = chess::Board::default();
    assert!(!in_check(&pos_of(&quiet)));
}

#[test]
fn test_attackers_to_exact() {
    // Knight c5, pawn d4, rook a2, bishop b2, kings e1 and e8.
    let board = fen_board("4k3/8/8/2n5/3P4/8/RB6/4K3 w - - 0 1");
    let pos = pos_of(&board);
    let occ = pos.occupied();
    // The black knight on c5 is the one black attacker of e4.
    assert_eq!(attackers_to(&pos, 28, Color::Black, occ), 1u64 << 34);
    // The white pawn on d4 is the one white attacker of c5.
    assert_eq!(attackers_to(&pos, 34, Color::White, occ), 1u64 << 27);
    // The white bishop on b2 sees d4 through the empty c3.
    assert_eq!(attackers_to(&pos, 27, Color::White, occ), 1u64 << 9);
    // The white rook on a2 sees a5 up the open file.
    assert_eq!(attackers_to(&pos, 32, Color::White, occ), 1u64 << 8);
    // The white king on e1 is the one white attacker of d1.
    assert_eq!(attackers_to(&pos, 3, Color::White, occ), 1u64 << 4);
}

#[test]
fn test_position_from_parts_refuses_inconsistency() {
    // Overlapping color boards are not a position.
    assert!(Position::from_parts(0, 0, 0, 0, 0, 0x11, 0x1, 0x1, Color::White, 0).is_none());
    // A side without a king is not a position.
    assert!(Position::from_parts(0, 0, 0, 0, 0, 0x1, 0x1, 0x2, Color::White, 0).is_none());
}

#[test]
fn test_quiescence_qply_cap_stands_pat() {
    let board = fen_board("4k3/8/8/3p4/4P3/8/8/4K3 w - - 0 1");
    let pos = pos_of(&board);
    let mut eval = SearchEvaluator::new(false, &pos);
    let expected = eval.evaluate(&pos);
    let tm = TimeManager::new();
    let mut stats = SearchStats::new();
    // At the quiescence depth cap and not in check, the node returns the
    // static evaluation without trying the capture.
    let r = quiescence(
        &board,
        &eval,
        &tm,
        &mut stats,
        Ply::new(8),
        8,
        Score::neg_infinity(),
        Score::infinity(),
    );
    assert_eq!(r.score, expected);
}

#[test]
fn test_quiescence_big_delta_returns_alpha() {
    let board = fen_board("4k3/8/8/3p4/4P3/8/8/4K3 w - - 0 1");
    let pos = pos_of(&board);
    let eval = SearchEvaluator::new(false, &pos);
    let tm = TimeManager::new();
    let mut stats = SearchStats::new();
    // The window floor sits far above anything a capture can recover: the
    // node fails low at the window's lower edge at once.
    let r = quiescence(
        &board,
        &eval,
        &tm,
        &mut stats,
        Ply::new(0),
        0,
        Score::cp(25000),
        Score::cp(26000),
    );
    assert_eq!(r.score.raw(), 25000);
}
