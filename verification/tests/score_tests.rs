//! Tests of the score type: mate encoding and transposition-table shifts.

use porcupine::score::Score;

#[test]
fn test_mate_scores() {
    let mate_in_3 = Score::mate_in(5); // 5 ply = mate in 3 moves
    assert!(mate_in_3.is_mate());
    assert!(!mate_in_3.is_mated());
    assert_eq!(mate_in_3.mate_distance(), Some(5));

    let mated_in_2 = Score::mated_in(3); // 3 ply = mated in 2 moves
    assert!(!mated_in_2.is_mate());
    assert!(mated_in_2.is_mated());
    assert_eq!(mated_in_2.mate_distance(), Some(3));
}

#[test]
fn test_tt_adjustment() {
    let mate = Score::mate_in(5);
    let tt_score = mate.to_tt(2);
    let restored = tt_score.from_tt(2);
    assert_eq!(mate, restored);
}

#[test]
fn test_tt_round_trip_ordinary_and_mated() {
    let cp = Score::cp(137);
    assert_eq!(cp.to_tt(9).from_tt(9), cp);
    assert_eq!(cp.to_tt(9).raw(), 137);

    let mated = Score::mated_in(7);
    let stored = mated.to_tt(4);
    assert_eq!(stored.raw(), -31000 + 7 - 4);
    assert_eq!(stored.from_tt(4), mated);
}

#[test]
fn test_special_values() {
    assert_eq!(Score::draw().raw(), 0);
    assert_eq!(Score::infinity().raw(), 32000);
    assert_eq!(Score::neg_infinity().raw(), -32000);
    assert_eq!(Score::none().raw(), -32001);
    assert!(!Score::cp(500).is_mate_score());
    assert!(Score::mate_in(1).is_mate_score());
    assert_eq!(Score::cp(250).negate().raw(), -250);
    assert_eq!(Score::cp(250).add_const(50).raw(), 300);
    assert_eq!(Score::cp(250).sub_const(50).raw(), 200);
}

#[test]
fn test_score_text() {
    assert_eq!(Score::cp(42).uci_string(), "cp 42");
    assert_eq!(Score::cp(-7).uci_string(), "cp -7");
    assert_eq!(Score::draw().uci_string(), "cp 0");
    // Mate in 5 plies is mate in 3 moves; mated in 3 plies is mate in 2 for
    // the opponent.
    assert_eq!(Score::mate_in(5).uci_string(), "mate 3");
    assert_eq!(Score::mated_in(3).uci_string(), "mate -2");
    assert_eq!(Score::mate_in(1).uci_string(), "mate 1");
}

#[test]
fn test_mate_threshold_boundary() {
    // Mate scores begin exactly MAX_PLY plies from the mate base: an
    // ordinary large score is no mate score.
    assert!(!Score::cp(30500).is_mate());
    assert!(!Score::cp(-30500).is_mated());
    assert!(Score::cp(31000 - 128).is_mate());
    assert!(Score::cp(-(31000 - 128)).is_mated());
    assert!(Score::mate_in(128).is_mate());
    assert!(Score::mated_in(128).is_mated());
}
