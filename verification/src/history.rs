//! History heuristic for move ordering.
//!
//! Tracks which quiet moves cause beta cutoffs. Scores are updated with a
//! gravity formula that keeps every entry within `HISTORY_MAX` in absolute
//! value.

use vstd::prelude::*;
use vstd::arithmetic::div_mod::lemma_fundamental_div_mod;
use crate::types::{Move, Color, valid_move};

verus! {

/// Bound on the absolute value of every history score.
pub const HISTORY_MAX: i32 = 16384;

/// Clamp a bonus into the `[-HISTORY_MAX, HISTORY_MAX]` band.
pub open spec fn spec_clamp_bonus(b: int) -> int {
    if b < -HISTORY_MAX {
        -HISTORY_MAX as int
    } else if b > HISTORY_MAX {
        HISTORY_MAX as int
    } else {
        b
    }
}

/// The gravity update: the old score decays in proportion to the size of
/// the clamped bonus, then the bonus is added. The decay divides magnitudes,
/// so it rounds toward zero as the executable update does.
pub open spec fn spec_gravity(old: int, bonus: int) -> int {
    let cb = spec_clamp_bonus(bonus);
    let ca = if cb < 0 {
        -cb
    } else {
        cb
    };
    if old >= 0 {
        old + cb - (old * ca) / (HISTORY_MAX as int)
    } else {
        old + cb + ((-old) * ca) / (HISTORY_MAX as int)
    }
}

/// Halving toward zero, as the aging step applies it.
pub open spec fn spec_halve(v: int) -> int {
    if v >= 0 {
        v / 2
    } else {
        -((-v) / 2)
    }
}

/// The flat index of a color/from/to cell.
pub open spec fn spec_history_index(c: Color, from: int, to: int) -> int {
    c.spec_index() * 4096 + from * 64 + to
}

/// The gravity update keeps scores within the band: from a score within
/// `HISTORY_MAX` and any bonus, the updated score is within `HISTORY_MAX`.
pub proof fn lemma_gravity_bounded(old: int, bonus: int)
    requires
        -HISTORY_MAX <= old <= HISTORY_MAX,
    ensures
        -HISTORY_MAX <= spec_gravity(old, bonus) <= HISTORY_MAX,
{
    let m = HISTORY_MAX as int;
    let cb = spec_clamp_bonus(bonus);
    let ca = if cb < 0 {
        -cb
    } else {
        cb
    };
    if old >= 0 {
        let q = (old * ca) / m;
        lemma_fundamental_div_mod(old * ca, m);
        vstd::arithmetic::div_mod::lemma_mod_bound(old * ca, m);
        assert(q * m <= old * ca < q * m + m);
        assert(-m <= old + cb - q <= m) by (nonlinear_arith)
            requires
                0 <= old <= m,
                -m <= cb <= m,
                ca == if cb < 0 { -cb } else { cb },
                q * m <= old * ca < q * m + m,
                m == 16384,
        ;
    } else {
        let q = ((-old) * ca) / m;
        lemma_fundamental_div_mod((-old) * ca, m);
        vstd::arithmetic::div_mod::lemma_mod_bound((-old) * ca, m);
        assert(q * m <= (-old) * ca < q * m + m);
        assert(-m <= old + cb + q <= m) by (nonlinear_arith)
            requires
                -m <= old < 0,
                -m <= cb <= m,
                ca == if cb < 0 { -cb } else { cb },
                q * m <= (-old) * ca < q * m + m,
                m == 16384,
        ;
    }
}

/// The table after one cutoff: the best move gets the bonus and every other
/// listed quiet move gets the penalty, in list order.
pub open spec fn spec_apply_penalties(
    t: Seq<i32>,
    c: Color,
    best: Move,
    quiets: Seq<Move>,
    bonus: int,
) -> Seq<i32>
    decreases quiets.len(),
{
    if quiets.len() == 0 {
        t
    } else {
        let m = quiets[0];
        let rest = quiets.subrange(1, quiets.len() as int);
        if m == best {
            spec_apply_penalties(t, c, best, rest, bonus)
        } else {
            let i = spec_history_index(c, m.from as int, m.to as int);
            let t2 = t.update(i, spec_gravity(t[i] as int, -bonus) as i32);
            spec_apply_penalties(t2, c, best, rest, bonus)
        }
    }
}

/// History table: a score for every color/from-square/to-square cell.
#[derive(Clone)]
pub struct HistoryTable {
    table: Vec<i32>,
}

impl HistoryTable {
    /// The scores as one flat sequence indexed by `spec_history_index`.
    pub closed spec fn scores(self) -> Seq<i32> {
        self.table@
    }

    /// The table has a cell for both colors and all square pairs, and every
    /// score stays within `HISTORY_MAX` in absolute value.
    pub open spec fn wf(self) -> bool {
        &&& self.scores().len() == 8192
        &&& forall|i: int|
            0 <= i < 8192 ==> -HISTORY_MAX <= #[trigger] self.scores()[i] <= HISTORY_MAX
    }

    /// A fresh table with every score zero.
    pub fn new() -> (r: HistoryTable)
        ensures
            r.wf(),
            forall|i: int| 0 <= i < 8192 ==> r.scores()[i] == 0i32,
    {
        let mut table: Vec<i32> = Vec::new();
        let mut i: usize = 0;
        while i < 8192
            invariant
                i <= 8192,
                table@.len() == i,
                forall|j: int| 0 <= j < i ==> table@[j] == 0i32,
            decreases 8192 - i,
        {
            table.push(0);
            i = i + 1;
        }
        HistoryTable { table }
    }

    /// History score of a move for the given color.
    pub fn get(&self, color: Color, mv: Move) -> (r: i32)
        requires
            self.wf(),
            valid_move(mv),
        ensures
            r == self.scores()[spec_history_index(color, mv.from as int, mv.to as int)],
    {
        let idx = color.index() * 4096 + (mv.from as usize) * 64 + (mv.to as usize);
        self.table[idx]
    }

    /// Apply the gravity update with the given bonus to the move's cell.
    pub fn update(&mut self, color: Color, mv: Move, bonus: i32)
        requires
            old(self).wf(),
            valid_move(mv),
        ensures
            final(self).wf(),
            ({
                let i = spec_history_index(color, mv.from as int, mv.to as int);
                final(self).scores() == old(self).scores().update(
                    i,
                    spec_gravity(old(self).scores()[i] as int, bonus as int) as i32,
                )
            }),
    {
        let idx = color.index() * 4096 + (mv.from as usize) * 64 + (mv.to as usize);
        let old_score = self.table[idx];
        assert(-HISTORY_MAX <= old_score <= HISTORY_MAX);
        let cb = if bonus < -HISTORY_MAX {
            -HISTORY_MAX
        } else if bonus > HISTORY_MAX {
            HISTORY_MAX
        } else {
            bonus
        };
        let ca = if cb < 0 {
            -cb
        } else {
            cb
        };
        assert(old_score as int * ca as int <= 16384 * 16384 && (-old_score) as int * ca as int
            <= 16384 * 16384) by (nonlinear_arith)
            requires
                -16384 <= old_score <= 16384,
                0 <= ca <= 16384,
        ;
        let new_score = if old_score >= 0 {
            let decay = ((old_score as u32) * (ca as u32) / (HISTORY_MAX as u32)) as i32;
            old_score + cb - decay
        } else {
            let decay = (((-old_score) as u32) * (ca as u32) / (HISTORY_MAX as u32)) as i32;
            old_score + cb + decay
        };
        proof {
            lemma_gravity_bounded(old_score as int, bonus as int);
        }
        self.table.set(idx, new_score);
    }

    /// Apply the cutoff bonus of `depth * depth` to the best move and the
    /// matching penalty to every other quiet move that was tried.
    pub fn update_on_cutoff(&mut self, color: Color, best_move: Move, depth: i32, other_quiets: &Vec<Move>)
        requires
            old(self).wf(),
            valid_move(best_move),
            0 <= depth <= crate::types::MAX_PLY,
            forall|i: int| 0 <= i < other_quiets@.len() ==> valid_move(#[trigger] other_quiets@[i]),
        ensures
            final(self).wf(),
            ({
                let b = spec_history_index(color, best_move.from as int, best_move.to as int);
                let after_best = old(self).scores().update(
                    b,
                    spec_gravity(old(self).scores()[b] as int, depth * depth) as i32,
                );
                final(self).scores() == spec_apply_penalties(
                    after_best,
                    color,
                    best_move,
                    other_quiets@,
                    depth * depth,
                )
            }),
    {
        assert(depth * depth <= 16384) by (nonlinear_arith)
            requires
                0 <= depth <= 128,
        ;
        let bonus = depth * depth;
        self.update(color, best_move, bonus);
        proof {
            assert(other_quiets@.subrange(0, other_quiets@.len() as int) == other_quiets@);
        }
        let n = other_quiets.len();
        let mut i: usize = 0;
        while i < n
            invariant
                self.wf(),
                n == other_quiets@.len(),
                i <= n,
                valid_move(best_move),
                forall|j: int| 0 <= j < n ==> valid_move(#[trigger] other_quiets@[j]),
                -HISTORY_MAX <= bonus <= HISTORY_MAX,
                spec_apply_penalties(
                    self.scores(),
                    color,
                    best_move,
                    other_quiets@.subrange(i as int, n as int),
                    bonus as int,
                ) == spec_apply_penalties(
                    old(self).scores().update(
                        spec_history_index(color, best_move.from as int, best_move.to as int),
                        spec_gravity(
                            old(self).scores()[spec_history_index(
                                color,
                                best_move.from as int,
                                best_move.to as int,
                            )] as int,
                            bonus as int,
                        ) as i32,
                    ),
                    color,
                    best_move,
                    other_quiets@,
                    bonus as int,
                ),
            decreases n - i,
        {
            let m = other_quiets[i];
            proof {
                assert(other_quiets@.subrange(i as int, n as int).subrange(
                    1,
                    (n - i) as int,
                ) == other_quiets@.subrange(i as int + 1, n as int));
            }
            if !(m == best_move) {
                self.update(color, m, -bonus);
            }
            i = i + 1;
        }
        proof {
            assert(other_quiets@.subrange(n as int, n as int).len() == 0);
        }
    }

    /// Reset every score to zero.
    pub fn clear(&mut self)
        requires
            old(self).wf(),
        ensures
            final(self).wf(),
            forall|i: int| 0 <= i < 8192 ==> final(self).scores()[i] == 0i32,
    {
        let n = self.table.len();
        let mut i: usize = 0;
        while i < n
            invariant
                n == self.table@.len(),
                i <= n,
                forall|j: int| 0 <= j < i ==> self.table@[j] == 0i32,
            decreases n - i,
        {
            self.table.set(i, 0);
            i = i + 1;
        }
    }

    /// Halve every score toward zero, so that older information weighs less
    /// in the next search.
    pub fn age(&mut self)
        requires
            old(self).wf(),
        ensures
            final(self).wf(),
            final(self).scores().len() == 8192,
            forall|i: int|
                0 <= i < 8192 ==> final(self).scores()[i] == spec_halve(
                    old(self).scores()[i] as int,
                ) as i32,
    {
        let n = self.table.len();
        let mut i: usize = 0;
        while i < n
            invariant
                old(self).wf(),
                n == self.table@.len(),
                n == 8192,
                i <= n,
                forall|j: int|
                    i <= j < n ==> self.table@[j] == old(self).scores()[j],
                forall|j: int|
                    0 <= j < i ==> self.table@[j] == spec_halve(old(self).scores()[j] as int) as i32,
                forall|j: int|
                    0 <= j < n ==> -HISTORY_MAX <= #[trigger] self.table@[j] <= HISTORY_MAX,
            decreases n - i,
        {
            let v = self.table[i];
            let halved = if v >= 0 {
                v / 2
            } else {
                -((-v) / 2)
            };
            self.table.set(i, halved);
            i = i + 1;
        }
    }
}

impl Default for HistoryTable {
    /// A fresh table with every score zero.
    fn default() -> (r: HistoryTable)
        ensures
            r.wf(),
    {
        HistoryTable::new()
    }
}

} // verus!
