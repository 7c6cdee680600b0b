//! Tests of the search limits and the time manager's budgets.

use porcupine::limits::{SearchLimits, TimeManager};
use porcupine::types::Color;
use porcupine::uci::SearchParams;

#[test]
fn test_fixed_movetime() {
    let mut limits = SearchLimits::new();
    limits.movetime = Some(1000);
    limits.move_overhead = 50;
    let tm = TimeManager::from_limits(&limits, Color::White);

    assert!(!tm.is_infinite());
    // 1000 - 50 overhead = 950 available
    // soft = 950 * 92% = 874
    // hard = 950 * 98% = 931
    assert_eq!(tm.soft_limit_ms(), 874);
    assert_eq!(tm.hard_limit_ms(), 931);
}

#[test]
fn test_time_control() {
    let mut limits = SearchLimits::new();
    limits.wtime = Some(60000);
    limits.btime = Some(60000);
    limits.winc = Some(1000);
    limits.binc = Some(1000);
    limits.move_overhead = 10;
    let tm = TimeManager::from_limits(&limits, Color::White);

    assert!(!tm.is_infinite());
    assert!(tm.soft_limit_ms() > 2000);
    assert!(tm.soft_limit_ms() < 4000);
    assert!(tm.hard_limit_ms() >= tm.soft_limit_ms());
}

#[test]
fn test_infinite() {
    let mut limits = SearchLimits::new();
    limits.infinite = true;
    let tm = TimeManager::from_limits(&limits, Color::White);

    assert!(tm.is_infinite());
    assert!(tm.can_start_iteration());
    assert!(!tm.should_stop());
}

#[test]
fn test_limits_from_params() {
    let params = SearchParams::fixed_time(200);
    let limits = SearchLimits::from_params(&params);
    assert_eq!(limits.movetime, Some(200));
    assert_eq!(limits.move_overhead, 50);
    let limits2 = limits.with_move_overhead(25);
    assert_eq!(limits2.move_overhead, 25);
    assert_eq!(limits2.movetime, Some(200));

    let dp = SearchParams::fixed_depth(9);
    let dl = SearchLimits::from_params(&dp);
    assert_eq!(dl.depth.map(|d| d.raw()), Some(9));

    let by_depth = SearchLimits::depth(6);
    assert_eq!(by_depth.depth.map(|d| d.raw()), Some(6));

    // A started timer reports elapsed time and never refuses an unbounded
    // search.
    let mut tm = TimeManager::new();
    tm.start();
    assert!(!tm.soft_limit_exceeded());
    assert!(!tm.hard_limit_exceeded());
    let _ = tm.elapsed();
}

#[test]
fn test_time_control_exact() {
    // 59990 ms available puts the estimate at 20 moves: an even share of
    // 2999 ms plus 85 percent of the increment, and three times that as the
    // hard budget.
    let mut limits = SearchLimits::new();
    limits.wtime = Some(60000);
    limits.winc = Some(1000);
    limits.move_overhead = 10;
    let tm = TimeManager::from_limits(&limits, Color::White);
    assert_eq!(tm.soft_limit_ms(), 2999 + 850);
    assert_eq!(tm.hard_limit_ms(), 3 * (2999 + 850));

    // An explicit moves-to-go splits the time evenly across it.
    let mut l2 = SearchLimits::new();
    l2.btime = Some(10000);
    l2.movestogo = Some(10);
    l2.move_overhead = 0;
    let tm2 = TimeManager::from_limits(&l2, Color::Black);
    // 1000 base, no increment, capped by a third of the remaining time.
    assert_eq!(tm2.soft_limit_ms(), 1000);
    assert_eq!(tm2.hard_limit_ms(), 3000);
}
