//! Search limits and time management.
//!
//! From the UCI time-control parameters the time manager derives a soft
//! budget (whether to start another iteration) and a hard budget (when to
//! abandon the search), both in milliseconds. The derivations are exact;
//! only the clock readings are taken on trust.

use vstd::prelude::*;
use crate::types::{Depth, Color};
use crate::uci::SearchParams;

verus! {

/// Default safety buffer for network and GUI delay, in milliseconds.
pub const DEFAULT_MOVE_OVERHEAD: u64 = 50;

/// Search limits configuration from a `go` command.
#[derive(Debug, Clone)]
pub struct SearchLimits {
    /// Maximum depth to search.
    pub depth: Option<Depth>,
    /// Maximum time in milliseconds.
    pub movetime: Option<u64>,
    /// Maximum nodes to search.
    pub nodes: Option<u64>,
    /// White time remaining (ms).
    pub wtime: Option<u64>,
    /// Black time remaining (ms).
    pub btime: Option<u64>,
    /// White increment (ms).
    pub winc: Option<u64>,
    /// Black increment (ms).
    pub binc: Option<u64>,
    /// Moves until the next time control.
    pub movestogo: Option<u32>,
    /// Infinite search.
    pub infinite: bool,
    /// Safety buffer for network and GUI delay (ms).
    pub move_overhead: u64,
}

impl SearchLimits {
    /// Limits with nothing set but the default overhead.
    pub open spec fn spec_blank(self) -> bool {
        &&& self.depth is None
        &&& self.movetime is None
        &&& self.nodes is None
        &&& self.wtime is None
        &&& self.btime is None
        &&& self.winc is None
        &&& self.binc is None
        &&& self.movestogo is None
        &&& !self.infinite
        &&& self.move_overhead == DEFAULT_MOVE_OVERHEAD
    }

    /// Limits with nothing set but the default overhead.
    pub fn new() -> (r: SearchLimits)
        ensures
            r.spec_blank(),
    {
        SearchLimits {
            depth: None,
            movetime: None,
            nodes: None,
            wtime: None,
            btime: None,
            winc: None,
            binc: None,
            movestogo: None,
            infinite: false,
            move_overhead: DEFAULT_MOVE_OVERHEAD,
        }
    }

    /// Limits for a fixed-depth search.
    pub fn depth(depth: i32) -> (r: SearchLimits)
        ensures
            r.depth == Some(Depth(depth)),
            r.movetime is None,
            r.wtime is None,
            r.btime is None,
            !r.infinite,
            r.move_overhead == DEFAULT_MOVE_OVERHEAD,
    {
        let mut l = SearchLimits::new();
        l.depth = Some(Depth::new(depth));
        l
    }

    /// Carry the fields of a `go` command over, with the default overhead.
    pub fn from_params(params: &SearchParams) -> (r: SearchLimits)
        ensures
            r.depth == params.depth,
            r.movetime == params.movetime,
            r.nodes == params.nodes,
            r.wtime == params.wtime,
            r.btime == params.btime,
            r.winc == params.winc,
            r.binc == params.binc,
            r.movestogo == params.movestogo,
            r.infinite == params.infinite,
            r.move_overhead == DEFAULT_MOVE_OVERHEAD,
    {
        SearchLimits {
            depth: params.depth,
            movetime: params.movetime,
            nodes: params.nodes,
            wtime: params.wtime,
            btime: params.btime,
            winc: params.winc,
            binc: params.binc,
            movestogo: params.movestogo,
            infinite: params.infinite,
            move_overhead: DEFAULT_MOVE_OVERHEAD,
        }
    }

    /// The same limits with another overhead (from the UCI option).
    pub fn with_move_overhead(self, overhead: u64) -> (r: SearchLimits)
        ensures
            r.move_overhead == overhead,
            r.depth == self.depth,
            r.movetime == self.movetime,
            r.nodes == self.nodes,
            r.wtime == self.wtime,
            r.btime == self.btime,
            r.winc == self.winc,
            r.binc == self.binc,
            r.movestogo == self.movestogo,
            r.infinite == self.infinite,
    {
        let mut l = self;
        l.move_overhead = overhead;
        l
    }
}

impl Default for SearchLimits {
    /// Limits with nothing set but the default overhead.
    fn default() -> (r: SearchLimits)
        ensures
            r.spec_blank(),
    {
        SearchLimits::new()
    }
}

/// The larger of two mathematical integers.
pub open spec fn spec_max(a: int, b: int) -> int {
    if a >= b {
        a
    } else {
        b
    }
}

/// The smaller of two mathematical integers.
pub open spec fn spec_min(a: int, b: int) -> int {
    if a <= b {
        a
    } else {
        b
    }
}

/// Soft budget for a fixed movetime: 92 percent of what is left after the
/// overhead, at least one millisecond.
pub open spec fn spec_movetime_soft(mt: int, overhead: int) -> int {
    spec_max(spec_max(mt - overhead, 0) * 92 / 100, 1)
}

/// Hard budget for a fixed movetime: 98 percent of what is left after the
/// overhead, at least one millisecond.
pub open spec fn spec_movetime_hard(mt: int, overhead: int) -> int {
    spec_max(spec_max(mt - overhead, 0) * 98 / 100, 1)
}

/// Moves assumed to remain: the explicit count when given, otherwise a tier
/// by how much time is left, from 40 moves above five minutes down to 10 in
/// the final seconds.
pub open spec fn spec_moves_to_go(movestogo: Option<u32>, avail: int) -> int {
    match movestogo {
        Some(m) => spec_max(m as int, 1),
        None => if avail > 300000 {
            40
        } else if avail > 120000 {
            30
        } else if avail > 60000 {
            25
        } else if avail > 30000 {
            20
        } else if avail > 10000 {
            15
        } else {
            10
        },
    }
}

/// Soft budget under a time control: an even share of the remaining time
/// plus most of the increment, at most a third of the remaining time, and
/// at least 100 ms.
pub open spec fn spec_tc_soft(avail: int, inc: int, mtg: int) -> int {
    spec_max(spec_min(avail / mtg + inc * 85 / 100, avail / 3), 100)
}

/// Hard budget under a time control: up to three times the uncapped soft
/// budget but at most half the remaining time, never below the uncapped
/// soft budget, and at least 200 ms.
pub open spec fn spec_tc_hard(avail: int, inc: int, mtg: int) -> int {
    let soft = spec_min(avail / mtg + inc * 85 / 100, avail / 3);
    spec_max(spec_max(spec_min(soft * 3, avail / 2), soft), 200)
}

/// A percentage of a 64-bit quantity, exact over the integers.
fn percent_of(a: u64, p: u64) -> (r: u64)
    requires
        p <= 100,
    ensures
        r == a * p / 100,
{
    proof {
        assert(a * p <= a * 100) by (nonlinear_arith)
            requires
                p <= 100,
                0 <= a,
        ;
    }
    let wide: u128 = (a as u128) * (p as u128) / 100;
    proof {
        vstd::arithmetic::div_mod::lemma_div_is_ordered(a * p, a * 100, 100);
        vstd::arithmetic::div_mod::lemma_div_multiples_vanish(a as int, 100);
    }
    wide as u64
}

/// The stop decision on a clock reading: whether the elapsed time has
/// reached a budget. The clock itself cannot be specified, so the searches
/// route every reading through this comparison, which is exact for every
/// value the clock may return.
pub fn limit_reached(elapsed_ms: u64, limit_ms: u64) -> (r: bool)
    ensures
        r == (elapsed_ms >= limit_ms),
{
    elapsed_ms >= limit_ms
}

/// Time manager with a soft and a hard budget.
#[derive(Debug)]
pub struct TimeManager {
    soft_limit: u64,
    hard_limit: u64,
    move_overhead: u64,
    infinite: bool,
    start_time: Option<std::time::Instant>,
}

/// A moment of the monotonic clock.
#[verifier::external_type_specification]
#[verifier::external_body]
pub struct ExInstant(std::time::Instant);

/// Relies on `std::time::Instant::now`: a reading of the monotonic clock.
/// Nothing is promised of its value.
#[verifier::external_body]
fn instant_now() -> std::time::Instant {
    std::time::Instant::now()
}

/// Relies on `std::time::Instant::elapsed`: the time since this instant.
/// Nothing is promised of its value.
#[verifier::external_body]
fn instant_elapsed(t: &std::time::Instant) -> std::time::Duration {
    t.elapsed()
}

/// Relies on `std::time::Duration::as_millis`: the duration in whole
/// milliseconds.
#[verifier::external_body]
fn duration_as_millis(d: &std::time::Duration) -> u128 {
    d.as_millis()
}

impl TimeManager {
    /// The soft budget in milliseconds.
    pub closed spec fn spec_soft_limit(self) -> int {
        self.soft_limit as int
    }

    /// The hard budget in milliseconds.
    pub closed spec fn spec_hard_limit(self) -> int {
        self.hard_limit as int
    }

    /// Whether the search runs until told to stop.
    pub closed spec fn spec_infinite(self) -> bool {
        self.infinite
    }

    /// A manager for an unbounded search, its timer started.
    pub fn new() -> (r: TimeManager)
        ensures
            r.spec_infinite(),
            r.spec_soft_limit() == u64::MAX,
            r.spec_hard_limit() == u64::MAX,
    {
        TimeManager {
            soft_limit: u64::MAX,
            hard_limit: u64::MAX,
            move_overhead: 10,
            infinite: true,
            start_time: Some(instant_now()),
        }
    }

    /// Derive the budgets from the limits for the side to move.
    ///
    /// An infinite search gets no budgets. A fixed movetime yields 92 and
    /// 98 percent of the time left after the overhead. A time control
    /// yields an even share of the remaining time plus most of the
    /// increment, with the caps and floors of `spec_tc_soft` and
    /// `spec_tc_hard`. With no time given at all, the search is unbounded.
    pub fn from_limits(limits: &SearchLimits, side: Color) -> (r: TimeManager)
        ensures
            limits.infinite ==> r.spec_infinite(),
            ({
                let time_left = if side == Color::White {
                    limits.wtime
                } else {
                    limits.btime
                };
                let inc = if side == Color::White {
                    limits.winc
                } else {
                    limits.binc
                };
                &&& limits.movetime matches Some(mt) ==> !limits.infinite ==> {
                    &&& !r.spec_infinite()
                    &&& r.spec_soft_limit() == spec_movetime_soft(
                        mt as int,
                        limits.move_overhead as int,
                    )
                    &&& r.spec_hard_limit() == spec_movetime_hard(
                        mt as int,
                        limits.move_overhead as int,
                    )
                }
                &&& time_left matches Some(time) ==> (!limits.infinite && limits.movetime is None)
                    ==> {
                    let avail = spec_max(time - limits.move_overhead, 0);
                    let i = match inc {
                        Some(v) => v as int,
                        None => 0,
                    };
                    let mtg = spec_moves_to_go(limits.movestogo, avail);
                    &&& !r.spec_infinite()
                    &&& r.spec_soft_limit() == spec_tc_soft(avail, i, mtg)
                    &&& r.spec_hard_limit() == spec_tc_hard(avail, i, mtg)
                }
                &&& (!limits.infinite && limits.movetime is None && time_left is None)
                    ==> r.spec_infinite()
            }),
            r.spec_soft_limit() <= r.spec_hard_limit(),
    {
        if limits.infinite {
            return TimeManager::new();
        }
        let move_overhead = limits.move_overhead;
        if let Some(mt) = limits.movetime {
            let available = if mt >= move_overhead {
                mt - move_overhead
            } else {
                0
            };
            let soft = percent_of(available, 92);
            let hard = percent_of(available, 98);
            proof {
                vstd::arithmetic::div_mod::lemma_div_is_ordered(
                    available * 92,
                    available * 98,
                    100,
                );
            }
            return TimeManager {
                soft_limit: if soft >= 1 {
                    soft
                } else {
                    1
                },
                hard_limit: if hard >= 1 {
                    hard
                } else {
                    1
                },
                move_overhead,
                infinite: false,
                start_time: Some(instant_now()),
            };
        }
        let is_white = match side {
            Color::White => true,
            Color::Black => false,
        };
        let time_left = if is_white {
            limits.wtime
        } else {
            limits.btime
        };
        let increment = if is_white {
            limits.winc
        } else {
            limits.binc
        };
        if let Some(time) = time_left {
            let inc = match increment {
                Some(v) => v,
                None => 0,
            };
            let available = if time >= move_overhead {
                time - move_overhead
            } else {
                0
            };
            let mtg: u64 = match limits.movestogo {
                Some(movestogo) => {
                    let m = movestogo as u64;
                    if m >= 1 {
                        m
                    } else {
                        1
                    }
                },
                None => {
                    if available > 300000 {
                        40
                    } else if available > 120000 {
                        30
                    } else if available > 60000 {
                        25
                    } else if available > 30000 {
                        20
                    } else if available > 10000 {
                        15
                    } else {
                        10
                    }
                },
            };
            let base_time = available / mtg;
            let inc_bonus = percent_of(inc, 85);
            let third = available / 3;
            let soft_sum: u128 = base_time as u128 + inc_bonus as u128;
            let soft0: u64 = if soft_sum <= third as u128 {
                soft_sum as u64
            } else {
                third
            };
            let half = available / 2;
            let tripled: u128 = (soft0 as u128) * 3;
            let hard_capped: u64 = if tripled <= half as u128 {
                tripled as u64
            } else {
                half
            };
            let hard0: u64 = if hard_capped >= soft0 {
                hard_capped
            } else {
                soft0
            };
            let soft: u64 = if soft0 >= 100 {
                soft0
            } else {
                100
            };
            let hard: u64 = if hard0 >= 200 {
                hard0
            } else {
                200
            };
            return TimeManager {
                soft_limit: soft,
                hard_limit: hard,
                move_overhead,
                infinite: false,
                start_time: Some(instant_now()),
            };
        }
        TimeManager {
            soft_limit: u64::MAX,
            hard_limit: u64::MAX,
            move_overhead,
            infinite: true,
            start_time: Some(instant_now()),
        }
    }

    /// Restart the timer; the budgets stay as they are.
    pub fn start(&mut self)
        ensures
            final(self).spec_soft_limit() == old(self).spec_soft_limit(),
            final(self).spec_hard_limit() == old(self).spec_hard_limit(),
            final(self).spec_infinite() == old(self).spec_infinite(),
    {
        self.start_time = Some(instant_now());
    }

    /// Milliseconds since the timer was started; zero when it never was.
    /// The reading comes from the clock, so nothing is promised of it.
    pub fn elapsed(&self) -> u64 {
        match &self.start_time {
            Some(t) => {
                let d = instant_elapsed(t);
                let ms = duration_as_millis(&d);
                if ms > u64::MAX as u128 {
                    u64::MAX
                } else {
                    ms as u64
                }
            },
            None => 0,
        }
    }

    /// Whether the search must stop now: the hard budget is spent. Never
    /// true for an unbounded search.
    pub fn should_stop(&self) -> (r: bool)
        ensures
            self.spec_infinite() ==> !r,
    {
        if self.infinite {
            return false;
        }
        limit_reached(self.elapsed(), self.hard_limit)
    }

    /// Whether another iteration may start: the soft budget is not spent.
    /// Always true for an unbounded search.
    pub fn can_start_iteration(&self) -> (r: bool)
        ensures
            self.spec_infinite() ==> r,
    {
        if self.infinite {
            return true;
        }
        !limit_reached(self.elapsed(), self.soft_limit)
    }

    /// Whether the soft budget is spent. Never true for an unbounded
    /// search.
    pub fn soft_limit_exceeded(&self) -> (r: bool)
        ensures
            self.spec_infinite() ==> !r,
    {
        if self.infinite {
            return false;
        }
        limit_reached(self.elapsed(), self.soft_limit)
    }

    /// Whether the hard budget is spent. Never true for an unbounded
    /// search.
    pub fn hard_limit_exceeded(&self) -> (r: bool)
        ensures
            self.spec_infinite() ==> !r,
    {
        if self.infinite {
            return false;
        }
        limit_reached(self.elapsed(), self.hard_limit)
    }

    /// The soft budget in milliseconds.
    pub fn soft_limit_ms(&self) -> (r: u64)
        ensures
            r == self.spec_soft_limit(),
    {
        self.soft_limit
    }

    /// The hard budget in milliseconds.
    pub fn hard_limit_ms(&self) -> (r: u64)
        ensures
            r == self.spec_hard_limit(),
    {
        self.hard_limit
    }

    /// Whether the search is unbounded.
    pub fn is_infinite(&self) -> (r: bool)
        ensures
            r == self.spec_infinite(),
    {
        self.infinite
    }
}

impl Default for TimeManager {
    /// A manager for an unbounded search.
    fn default() -> (r: TimeManager)
        ensures
            r.spec_infinite(),
    {
        TimeManager::new()
    }
}

} // verus!
