//! Score type for the search.
//!
//! Handles regular centipawn scores, mate scores, draws and the special
//! values. Mate in N plies is encoded as `SCORE_MATE - N`, mated in N as
//! `-SCORE_MATE + N`. The underlying storage is an `i16`.

use vstd::prelude::*;
use crate::types::{MAX_PLY, string_push, string_push_str};

verus! {

/// Marker for an absent score.
pub const SCORE_NONE: i32 = -32001;

/// Bound for alpha-beta windows; no real score reaches it.
pub const SCORE_INFINITY: i32 = 32000;

/// Base of the mate encoding: mate in N plies is `SCORE_MATE - N`.
pub const SCORE_MATE: i32 = 31000;

/// The draw score.
pub const SCORE_DRAW: i32 = 0;

/// Scores at or above this are mate scores: a mate at most `MAX_PLY` plies
/// away.
pub const SCORE_MATE_IN_MAX: i32 = SCORE_MATE - MAX_PLY;

/// Scores at or below this are mated scores.
pub const SCORE_MATED_IN_MAX: i32 = -SCORE_MATE + MAX_PLY;

/// A search score: centipawns, or a mate distance, or a special value.
#[derive(Clone, Copy, PartialEq, Eq, Structural, Debug, Hash)]
pub struct Score(pub i16);

impl Score {
    /// The integer carried by the score.
    pub open spec fn value(self) -> int {
        self.0 as int
    }

    /// An ordinary or mate score that alpha-beta can produce: strictly
    /// inside the infinity bounds or equal to them.
    pub open spec fn spec_valid(self) -> bool {
        -SCORE_INFINITY <= self.value() <= SCORE_INFINITY
    }

    /// A score as it may come out of `to_tt`: a valid score whose mate part
    /// was shifted by at most `MAX_PLY`.
    pub open spec fn spec_tt_encodable(self) -> bool {
        -(SCORE_INFINITY + MAX_PLY) <= self.value() <= SCORE_INFINITY + MAX_PLY
    }

    /// Whether the score is a winning mate score.
    pub open spec fn spec_is_mate(self) -> bool {
        self.value() >= SCORE_MATE_IN_MAX
    }

    /// Whether the score is a losing mate score.
    pub open spec fn spec_is_mated(self) -> bool {
        self.value() <= SCORE_MATED_IN_MAX
    }

    /// A score from centipawns.
    pub fn cp(centipawns: i32) -> (r: Score)
        requires
            i16::MIN <= centipawns <= i16::MAX,
        ensures
            r.value() == centipawns,
    {
        Score(centipawns as i16)
    }

    /// The score of delivering mate in `ply` plies from the root.
    pub fn mate_in(ply: i32) -> (r: Score)
        requires
            0 <= ply <= MAX_PLY,
        ensures
            r.value() == SCORE_MATE - ply,
            r.spec_is_mate(),
            r.spec_valid(),
    {
        Score((SCORE_MATE - ply) as i16)
    }

    /// The score of being mated in `ply` plies from the root.
    pub fn mated_in(ply: i32) -> (r: Score)
        requires
            0 <= ply <= MAX_PLY,
        ensures
            r.value() == -SCORE_MATE + ply,
            r.spec_is_mated(),
            r.spec_valid(),
    {
        Score((-SCORE_MATE + ply) as i16)
    }

    /// The draw score.
    pub fn draw() -> (r: Score)
        ensures
            r.value() == SCORE_DRAW,
    {
        Score(SCORE_DRAW as i16)
    }

    /// Upper bound for alpha-beta windows.
    pub fn infinity() -> (r: Score)
        ensures
            r.value() == SCORE_INFINITY,
    {
        Score(SCORE_INFINITY as i16)
    }

    /// Lower bound for alpha-beta windows.
    pub fn neg_infinity() -> (r: Score)
        ensures
            r.value() == -SCORE_INFINITY,
    {
        Score((-SCORE_INFINITY) as i16)
    }

    /// The absent score.
    pub fn none() -> (r: Score)
        ensures
            r.value() == SCORE_NONE,
    {
        Score(SCORE_NONE as i16)
    }

    /// The raw value.
    pub fn raw(self) -> (r: i32)
        ensures
            r == self.value(),
    {
        self.0 as i32
    }

    /// Whether this is a winning mate score.
    pub fn is_mate(self) -> (r: bool)
        ensures
            r == self.spec_is_mate(),
    {
        self.0 as i32 >= SCORE_MATE_IN_MAX
    }

    /// Whether this is a losing mate score.
    pub fn is_mated(self) -> (r: bool)
        ensures
            r == self.spec_is_mated(),
    {
        self.0 as i32 <= SCORE_MATED_IN_MAX
    }

    /// Whether this is any kind of mate score.
    pub fn is_mate_score(self) -> (r: bool)
        ensures
            r == (self.spec_is_mate() || self.spec_is_mated()),
    {
        self.is_mate() || self.is_mated()
    }

    /// Mate distance in plies, if this is a mate score: plies to mate for a
    /// winning score, plies to being mated for a losing one.
    pub fn mate_distance(self) -> (r: Option<i32>)
        ensures
            r == if self.spec_is_mate() {
                Some((SCORE_MATE - self.value()) as i32)
            } else if self.spec_is_mated() {
                Some((self.value() + SCORE_MATE) as i32)
            } else {
                None::<i32>
            },
    {
        if self.is_mate() {
            Some(SCORE_MATE - self.0 as i32)
        } else if self.is_mated() {
            Some(self.0 as i32 + SCORE_MATE)
        } else {
            None
        }
    }

    /// What `to_tt` yields: the mate part of a score moved from
    /// root-relative to position-relative by `ply`.
    pub open spec fn spec_to_tt(self, ply: int) -> int {
        if self.spec_is_mate() {
            self.value() + ply
        } else if self.spec_is_mated() {
            self.value() - ply
        } else {
            self.value()
        }
    }

    /// What `from_tt` yields: the exact inverse shift of `spec_to_tt`.
    pub open spec fn spec_from_tt(self, ply: int) -> int {
        if self.spec_is_mate() {
            self.value() - ply
        } else if self.spec_is_mated() {
            self.value() + ply
        } else {
            self.value()
        }
    }

    /// Re-express a mate score relative to the current position before
    /// storing it in the transposition table: mate scores gain `ply`,
    /// mated scores lose `ply`, other scores pass unchanged.
    pub fn to_tt(self, ply: i32) -> (r: Score)
        requires
            0 <= ply < MAX_PLY,
            self.spec_valid(),
        ensures
            r.value() == self.spec_to_tt(ply as int),
            r.spec_tt_encodable(),
    {
        if self.is_mate() {
            Score((self.0 as i32 + ply) as i16)
        } else if self.is_mated() {
            Score((self.0 as i32 - ply) as i16)
        } else {
            self
        }
    }

    /// Turn a stored position-relative score back into a root-relative one;
    /// the exact inverse of `to_tt` at the same ply.
    pub fn from_tt(self, ply: i32) -> (r: Score)
        requires
            0 <= ply < MAX_PLY,
            self.spec_tt_encodable(),
        ensures
            r.value() == self.spec_from_tt(ply as int),
    {
        if self.is_mate() {
            Score((self.0 as i32 - ply) as i16)
        } else if self.is_mated() {
            Score((self.0 as i32 + ply) as i16)
        } else {
            self
        }
    }

    /// Add a plain centipawn amount.
    pub fn add_const(self, rhs: i32) -> (r: Score)
        requires
            i16::MIN <= rhs <= i16::MAX,
            i16::MIN <= self.value() + rhs <= i16::MAX,
        ensures
            r.value() == self.value() + rhs,
    {
        Score(self.0 + rhs as i16)
    }

    /// Subtract a plain centipawn amount.
    pub fn sub_const(self, rhs: i32) -> (r: Score)
        requires
            i16::MIN <= rhs <= i16::MAX,
            i16::MIN <= self.value() - rhs <= i16::MAX,
        ensures
            r.value() == self.value() - rhs,
    {
        Score(self.0 - rhs as i16)
    }

    /// The score seen from the other side.
    pub fn negate(self) -> (r: Score)
        requires
            self.value() != i16::MIN,
        ensures
            r.value() == -self.value(),
    {
        Score(-self.0)
    }
}

/// Score round trip through the transposition-table adjustment: for every
/// ply below `MAX_PLY` and every valid score, shifting into the table and
/// back returns the original score.
pub proof fn lemma_tt_round_trip(s: Score, ply: int)
    requires
        0 <= ply < MAX_PLY,
        s.spec_valid(),
    ensures
        ({
            let stored = Score((s.spec_to_tt(ply)) as i16);
            stored.spec_from_tt(ply) == s.value()
        }),
{
}

/// Mate-distance accounting in the score encoding: a mate in `k` plies
/// carries distance `k`; seen from the other side it is being mated in `k`;
/// and the same mate found one ply later scores exactly one point closer to
/// zero, so the root score of a forced mate shortens by one per ply played
/// toward it.
pub proof fn lemma_mate_distance_steps(k: int)
    requires
        0 <= k < MAX_PLY,
    ensures
        SCORE_MATE - (SCORE_MATE - k) == k,
        -(SCORE_MATE - k) == -SCORE_MATE + k,
        (SCORE_MATE - (k + 1)) == (SCORE_MATE - k) - 1,
        SCORE_MATE - (k + 1) < SCORE_MATE - k,
        SCORE_MATE - k >= SCORE_MATE_IN_MAX,
        -SCORE_MATE + k <= SCORE_MATED_IN_MAX,
{
}

/// The decimal digits of a nonnegative number, most significant first;
/// empty for zero.
pub open spec fn spec_decimal_digits(n: int) -> Seq<char>
    decreases n,
{
    if n <= 0 {
        Seq::empty()
    } else {
        spec_decimal_digits(n / 10).push(((48 + n % 10) as u8) as char)
    }
}

/// A number in decimal notation: a minus sign for negatives, `0` for zero.
pub open spec fn spec_decimal(n: int) -> Seq<char> {
    if n == 0 {
        seq!['0']
    } else if n < 0 {
        seq!['-'] + spec_decimal_digits(-n)
    } else {
        spec_decimal_digits(n)
    }
}

/// Append the decimal digits of a nonnegative number.
fn push_digits(s: &mut String, n: u32)
    ensures
        final(s)@ == old(s)@ + spec_decimal_digits(n as int),
    decreases n,
{
    if n == 0 {
        proof {
            assert(old(s)@ + spec_decimal_digits(0) =~= old(s)@);
        }
        return ;
    }
    push_digits(s, n / 10);
    let d = (48 + (n % 10) as u8) as char;
    string_push(s, d);
    proof {
        assert((old(s)@ + spec_decimal_digits(n as int / 10)).push(d) =~= old(s)@
            + spec_decimal_digits(n as int / 10).push(d));
    }
}

/// Append a number in decimal notation.
fn push_decimal(s: &mut String, n: i32)
    requires
        -1000000 <= n <= 1000000,
    ensures
        final(s)@ == old(s)@ + spec_decimal(n as int),
{
    if n == 0 {
        string_push(s, '0');
        proof {
            assert(old(s)@.push('0') =~= old(s)@ + spec_decimal(0));
        }
    } else if n < 0 {
        string_push(s, '-');
        push_digits(s, (-n) as u32);
        proof {
            assert(old(s)@.push('-') =~= old(s)@ + seq!['-']);
            assert((old(s)@ + seq!['-']) + spec_decimal_digits(-n as int) =~= old(s)@ + (seq![
                '-',
            ] + spec_decimal_digits(-n as int)));
        }
    } else {
        push_digits(s, n as u32);
    }
}

/// Division by two rounding toward zero.
pub open spec fn spec_half_trunc(n: int) -> int {
    if n >= 0 {
        n / 2
    } else {
        -((-n) / 2)
    }
}

/// A score in the wire form of the protocol: `mate M` with the full moves
/// to mate, rounded away from zero and negative when being mated, or
/// `cp N` in plain centipawns.
pub open spec fn spec_score_text(s: Score) -> Seq<char> {
    if s.spec_is_mate() {
        "mate "@ + spec_decimal(spec_half_trunc(SCORE_MATE - s.value() + 1))
    } else if s.spec_is_mated() {
        "mate -"@ + spec_decimal(spec_half_trunc(s.value() + SCORE_MATE + 1))
    } else {
        "cp "@ + spec_decimal(s.value())
    }
}

impl Score {
    /// The score as protocol text: `cp N`, or `mate M` in full moves.
    pub fn uci_string(self) -> (r: String)
        ensures
            r@ == spec_score_text(self),
    {
        let mut s = String::new();
        if self.is_mate() {
            string_push_str(&mut s, "mate ");
            let num = SCORE_MATE - self.0 as i32 + 1;
            let moves = if num >= 0 {
                num / 2
            } else {
                -((-num) / 2)
            };
            push_decimal(&mut s, moves);
        } else if self.is_mated() {
            string_push_str(&mut s, "mate -");
            let num = self.0 as i32 + SCORE_MATE + 1;
            let moves = if num >= 0 {
                num / 2
            } else {
                -((-num) / 2)
            };
            push_decimal(&mut s, moves);
        } else {
            string_push_str(&mut s, "cp ");
            push_decimal(&mut s, self.0 as i32);
        }
        proof {
            assert(s@ =~= spec_score_text(self));
        }
        s
    }
}

} // verus!
