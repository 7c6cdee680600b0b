//! Move ordering heuristics.
//!
//! A node's move list is sorted in descending heuristic score: the
//! transposition-table move first, then promotions, captures by
//! most-valuable-victim / least-valuable-attacker, then killer moves.
//! Quiescence orders captures by MVV-LVA alone.

use vstd::prelude::*;
use vstd::seq_lib::group_to_multiset_ensures;
use crate::types::{Move, MoveFlag, spec_piece_value, piece_value, valid_move};
use crate::position::Position;
use crate::killers::KillerSlots;

verus! {

/// Ordering bonus of the transposition-table move.
pub const TT_MOVE_BONUS: i32 = 1_000_000;

/// Ordering bonus of a promotion.
pub const PROMOTION_BONUS: i32 = 100_000;

/// Ordering bonus of a capture, on top of its MVV-LVA score.
pub const CAPTURE_BONUS: i32 = 50_000;

/// Ordering bonus of the first killer slot.
pub const KILLER_0_BONUS: i32 = 40_000;

/// Ordering bonus of the second killer slot.
pub const KILLER_1_BONUS: i32 = 35_000;

/// MVV-LVA score of a move: ten times the victim's value minus the
/// attacker's; zero unless both squares hold a piece.
pub open spec fn spec_mvv_lva(pos: Position, m: Move) -> int {
    match (pos.spec_piece_at(m.to), pos.spec_piece_at(m.from)) {
        (Some(v), Some(a)) => spec_piece_value(v.0) * 10 - spec_piece_value(a.0),
        _ => 0,
    }
}

/// Heuristic score of a move: the table move outranks everything; then
/// promotion and capture bonuses add up; a quiet move scores by its killer
/// slot.
pub open spec fn spec_move_score(
    pos: Position,
    m: Move,
    tt_move: Option<Move>,
    killers: KillerSlots,
) -> int {
    if tt_move == Some(m) {
        TT_MOVE_BONUS as int
    } else {
        let promo = match m.flag {
            MoveFlag::Promotion(p) => spec_piece_value(p) + PROMOTION_BONUS,
            _ => 0,
        };
        if pos.spec_piece_at(m.to) is Some {
            promo + spec_mvv_lva(pos, m) + CAPTURE_BONUS
        } else if killers.s0 == Some(m) {
            promo + KILLER_0_BONUS
        } else if killers.s1 == Some(m) {
            promo + KILLER_1_BONUS
        } else {
            promo
        }
    }
}

/// MVV-LVA score of a move.
pub fn mvv_lva_score(pos: &Position, m: Move) -> (r: i32)
    requires
        valid_move(m),
    ensures
        r == spec_mvv_lva(*pos, m),
{
    let victim = pos.piece_at(m.to);
    let attacker = pos.piece_at(m.from);
    match (victim, attacker) {
        (Some(v), Some(a)) => piece_value(v.0) * 10 - piece_value(a.0),
        _ => 0,
    }
}

/// Heuristic score of a move for ordering; higher is searched first.
pub fn score_move(pos: &Position, m: Move, tt_move: Option<Move>, killers: KillerSlots) -> (r:
    i32)
    requires
        valid_move(m),
    ensures
        r == spec_move_score(*pos, m, tt_move, killers),
{
    let is_tt = match tt_move {
        Some(t) => t == m,
        None => false,
    };
    if is_tt {
        return TT_MOVE_BONUS;
    }
    let promo = match m.flag {
        MoveFlag::Promotion(p) => piece_value(p) + PROMOTION_BONUS,
        _ => 0,
    };
    if pos.piece_at(m.to).is_some() {
        promo + mvv_lva_score(pos, m) + CAPTURE_BONUS
    } else {
        let k0 = match killers.s0 {
            Some(k) => k == m,
            None => false,
        };
        let k1 = match killers.s1 {
            Some(k) => k == m,
            None => false,
        };
        if k0 {
            promo + KILLER_0_BONUS
        } else if k1 {
            promo + KILLER_1_BONUS
        } else {
            promo
        }
    }
}

/// Every move of the list is valid.
pub open spec fn all_valid(s: Seq<Move>) -> bool {
    forall|i: int| 0 <= i < s.len() ==> valid_move(#[trigger] s[i])
}

/// The list is sorted in descending heuristic score.
pub open spec fn sorted_desc(
    pos: Position,
    tt_move: Option<Move>,
    killers: KillerSlots,
    s: Seq<Move>,
) -> bool {
    forall|i: int, j: int|
        0 <= i < j < s.len() ==> spec_move_score(pos, #[trigger] s[i], tt_move, killers)
            >= spec_move_score(pos, #[trigger] s[j], tt_move, killers)
}

/// The index of the first move of maximal heuristic score among the first
/// `n` of the list.
pub open spec fn spec_first_max_upto(
    pos: Position,
    tt_move: Option<Move>,
    killers: KillerSlots,
    s: Seq<Move>,
    n: int,
) -> int
    decreases n,
{
    if n <= 1 {
        0
    } else {
        let b = spec_first_max_upto(pos, tt_move, killers, s, n - 1);
        if spec_move_score(pos, s[n - 1], tt_move, killers) > spec_move_score(
            pos,
            s[b],
            tt_move,
            killers,
        ) {
            n - 1
        } else {
            b
        }
    }
}

/// The first maximum lies among the moves it was taken over.
proof fn lemma_first_max_in_range(
    pos: Position,
    tt_move: Option<Move>,
    killers: KillerSlots,
    s: Seq<Move>,
    n: int,
)
    requires
        1 <= n,
    ensures
        0 <= spec_first_max_upto(pos, tt_move, killers, s, n) < n,
    decreases n,
{
    if n > 1 {
        lemma_first_max_in_range(pos, tt_move, killers, s, n - 1);
    }
}

/// The list in search order: the first highest-scoring move, then the rest
/// ordered likewise. A stable selection, so moves of equal score keep their
/// input order, and the output is a function of the inputs alone.
pub open spec fn spec_ordered(
    pos: Position,
    tt_move: Option<Move>,
    killers: KillerSlots,
    s: Seq<Move>,
) -> Seq<Move>
    decreases s.len(),
{
    if s.len() == 0 {
        s
    } else {
        let b = spec_first_max_upto(pos, tt_move, killers, s, s.len() as int);
        let bb: int = if 0 <= b < s.len() {
            b
        } else {
            0
        };
        seq![s[bb]] + spec_ordered(pos, tt_move, killers, s.remove(bb))
    }
}

/// Sort the moves in descending heuristic score: exactly the stable
/// selection order of the input, hence a permutation of it.
pub fn order_moves_with_tt_and_killers(
    pos: &Position,
    moves: &mut Vec<Move>,
    tt_move: Option<Move>,
    killers: KillerSlots,
)
    requires
        all_valid(old(moves)@),
    ensures
        final(moves)@ == spec_ordered(*pos, tt_move, killers, old(moves)@),
        final(moves)@.to_multiset() == old(moves)@.to_multiset(),
        final(moves)@.len() == old(moves)@.len(),
        all_valid(final(moves)@),
        sorted_desc(*pos, tt_move, killers, final(moves)@),
{
    broadcast use group_to_multiset_ensures;

    let ghost orig = moves@;
    let mut src: Vec<Move> = Vec::new();
    std::mem::swap(moves, &mut src);
    let mut out: Vec<Move> = Vec::new();
    proof {
        assert(Seq::<Move>::empty() + spec_ordered(*pos, tt_move, killers, src@) =~= spec_ordered(
            *pos,
            tt_move,
            killers,
            orig,
        ));
    }
    while src.len() > 0
        invariant
            all_valid(src@),
            all_valid(out@),
            out@.to_multiset().add(src@.to_multiset()) =~= orig.to_multiset(),
            out@.len() + src@.len() == orig.len(),
            out@ + spec_ordered(*pos, tt_move, killers, src@) =~= spec_ordered(
                *pos,
                tt_move,
                killers,
                orig,
            ),
            sorted_desc(*pos, tt_move, killers, out@),
            forall|i: int, j: int|
                0 <= i < out@.len() && 0 <= j < src@.len() ==> spec_move_score(
                    *pos,
                    #[trigger] out@[i],
                    tt_move,
                    killers,
                ) >= spec_move_score(*pos, #[trigger] src@[j], tt_move, killers),
        decreases src@.len(),
    {
        let mut best: usize = 0;
        let mut best_score: i32 = score_move(pos, src[0], tt_move, killers);
        let mut j: usize = 1;
        while j < src.len()
            invariant
                all_valid(src@),
                src@.len() > 0,
                best < j || (best == 0 && j == 0),
                best < src@.len(),
                1 <= j <= src@.len(),
                best_score == spec_move_score(*pos, src@[best as int], tt_move, killers),
                best as int == spec_first_max_upto(*pos, tt_move, killers, src@, j as int),
                forall|k: int|
                    0 <= k < j ==> best_score >= spec_move_score(
                        *pos,
                        #[trigger] src@[k],
                        tt_move,
                        killers,
                    ),
            decreases src@.len() - j,
        {
            let s = score_move(pos, src[j], tt_move, killers);
            if s > best_score {
                best = j;
                best_score = s;
            }
            j = j + 1;
        }
        let ghost src0 = src@;
        let ghost out0 = out@;
        proof {
            lemma_first_max_in_range(*pos, tt_move, killers, src0, src0.len() as int);
            assert(spec_ordered(*pos, tt_move, killers, src0) =~= seq![src0[best as int]]
                + spec_ordered(*pos, tt_move, killers, src0.remove(best as int)));
        }
        let m = src.remove(best);
        out.push(m);
        proof {
            assert((out0 + seq![m]) + spec_ordered(*pos, tt_move, killers, src@) =~= out0 + (seq![
                m,
            ] + spec_ordered(*pos, tt_move, killers, src@)));
            assert(out@ =~= out0 + seq![m]);
            broadcast use vstd::multiset::group_multiset_axioms;

            src0.to_multiset_ensures();
            out0.to_multiset_ensures();
            assert(src0[best as int] == m);
            assert(src0.contains(m)) by {
                assert(src0[best as int] == m);
            }
            assert(src0.to_multiset().count(m) > 0);
            assert(src@ == src0.remove(best as int));
            assert(src0.remove(best as int).to_multiset() =~= src0.to_multiset().remove(m));
            assert(src@.to_multiset() =~= src0.to_multiset().remove(m));
            assert(out@.to_multiset() =~= out0.to_multiset().insert(m));
            assert(out@.to_multiset().add(src@.to_multiset()) =~= out0.to_multiset().add(
                src0.to_multiset(),
            ));
        }
    }
    std::mem::swap(moves, &mut out);
}

/// Sort the moves in descending heuristic score, with a table move but no
/// killers.
pub fn order_moves_with_tt(pos: &Position, moves: &mut Vec<Move>, tt_move: Option<Move>)
    requires
        all_valid(old(moves)@),
    ensures
        final(moves)@ == spec_ordered(
            *pos,
            tt_move,
            KillerSlots { s0: None, s1: None },
            old(moves)@,
        ),
        final(moves)@.to_multiset() == old(moves)@.to_multiset(),
        final(moves)@.len() == old(moves)@.len(),
        all_valid(final(moves)@),
        sorted_desc(*pos, tt_move, KillerSlots { s0: None, s1: None }, final(moves)@),
{
    order_moves_with_tt_and_killers(pos, moves, tt_move, KillerSlots { s0: None, s1: None });
}

/// Sort the moves in descending heuristic score, with no table move and no
/// killers.
pub fn order_moves(pos: &Position, moves: &mut Vec<Move>)
    requires
        all_valid(old(moves)@),
    ensures
        final(moves)@ == spec_ordered(*pos, None, KillerSlots { s0: None, s1: None }, old(moves)@),
        final(moves)@.to_multiset() == old(moves)@.to_multiset(),
        final(moves)@.len() == old(moves)@.len(),
        all_valid(final(moves)@),
        sorted_desc(*pos, None, KillerSlots { s0: None, s1: None }, final(moves)@),
{
    order_moves_with_tt_and_killers(pos, moves, None, KillerSlots { s0: None, s1: None });
}

/// The list is sorted in descending MVV-LVA score.
pub open spec fn sorted_desc_mvv(pos: Position, s: Seq<Move>) -> bool {
    forall|i: int, j: int|
        0 <= i < j < s.len() ==> spec_mvv_lva(pos, #[trigger] s[i]) >= spec_mvv_lva(
            pos,
            #[trigger] s[j],
        )
}

/// The index of the first move of maximal MVV-LVA score among the first
/// `n` of the list.
pub open spec fn spec_first_max_mvv_upto(pos: Position, s: Seq<Move>, n: int) -> int
    decreases n,
{
    if n <= 1 {
        0
    } else {
        let b = spec_first_max_mvv_upto(pos, s, n - 1);
        if spec_mvv_lva(pos, s[n - 1]) > spec_mvv_lva(pos, s[b]) {
            n - 1
        } else {
            b
        }
    }
}

/// The first MVV-LVA maximum lies among the moves it was taken over.
proof fn lemma_first_max_mvv_in_range(pos: Position, s: Seq<Move>, n: int)
    requires
        1 <= n,
    ensures
        0 <= spec_first_max_mvv_upto(pos, s, n) < n,
    decreases n,
{
    if n > 1 {
        lemma_first_max_mvv_in_range(pos, s, n - 1);
    }
}

/// The capture list in quiescence order: the first capture of maximal
/// MVV-LVA score, then the rest ordered likewise. A stable selection, so
/// equal scores keep input order.
pub open spec fn spec_ordered_mvv(pos: Position, s: Seq<Move>) -> Seq<Move>
    decreases s.len(),
{
    if s.len() == 0 {
        s
    } else {
        let b = spec_first_max_mvv_upto(pos, s, s.len() as int);
        let bb: int = if 0 <= b < s.len() {
            b
        } else {
            0
        };
        seq![s[bb]] + spec_ordered_mvv(pos, s.remove(bb))
    }
}

/// Sort captures for quiescence in descending MVV-LVA score: exactly the
/// stable selection order of the input, hence a permutation of it.
pub fn order_captures(pos: &Position, moves: &mut Vec<Move>)
    requires
        all_valid(old(moves)@),
    ensures
        final(moves)@ == spec_ordered_mvv(*pos, old(moves)@),
        final(moves)@.to_multiset() == old(moves)@.to_multiset(),
        final(moves)@.len() == old(moves)@.len(),
        all_valid(final(moves)@),
        sorted_desc_mvv(*pos, final(moves)@),
{
    broadcast use group_to_multiset_ensures;

    let ghost orig = moves@;
    let mut src: Vec<Move> = Vec::new();
    std::mem::swap(moves, &mut src);
    let mut out: Vec<Move> = Vec::new();
    proof {
        assert(Seq::<Move>::empty() + spec_ordered_mvv(*pos, src@) =~= spec_ordered_mvv(
            *pos,
            orig,
        ));
    }
    while src.len() > 0
        invariant
            all_valid(src@),
            all_valid(out@),
            out@.to_multiset().add(src@.to_multiset()) =~= orig.to_multiset(),
            out@.len() + src@.len() == orig.len(),
            out@ + spec_ordered_mvv(*pos, src@) =~= spec_ordered_mvv(*pos, orig),
            sorted_desc_mvv(*pos, out@),
            forall|i: int, j: int|
                0 <= i < out@.len() && 0 <= j < src@.len() ==> spec_mvv_lva(*pos, #[trigger] out@[i])
                    >= spec_mvv_lva(*pos, #[trigger] src@[j]),
        decreases src@.len(),
    {
        let mut best: usize = 0;
        let mut best_score: i32 = mvv_lva_score(pos, src[0]);
        let mut j: usize = 1;
        while j < src.len()
            invariant
                all_valid(src@),
                src@.len() > 0,
                best < src@.len(),
                1 <= j <= src@.len(),
                best_score == spec_mvv_lva(*pos, src@[best as int]),
                best as int == spec_first_max_mvv_upto(*pos, src@, j as int),
                forall|k: int|
                    0 <= k < j ==> best_score >= spec_mvv_lva(*pos, #[trigger] src@[k]),
            decreases src@.len() - j,
        {
            let s = mvv_lva_score(pos, src[j]);
            if s > best_score {
                best = j;
                best_score = s;
            }
            j = j + 1;
        }
        let ghost src0 = src@;
        let ghost out0 = out@;
        proof {
            lemma_first_max_mvv_in_range(*pos, src0, src0.len() as int);
            assert(spec_ordered_mvv(*pos, src0) =~= seq![src0[best as int]] + spec_ordered_mvv(
                *pos,
                src0.remove(best as int),
            ));
        }
        let m = src.remove(best);
        out.push(m);
        proof {
            assert((out0 + seq![m]) + spec_ordered_mvv(*pos, src@) =~= out0 + (seq![m]
                + spec_ordered_mvv(*pos, src@)));
            assert(out@ =~= out0 + seq![m]);
            broadcast use vstd::multiset::group_multiset_axioms;

            src0.to_multiset_ensures();
            out0.to_multiset_ensures();
            assert(src0[best as int] == m);
            assert(src0.contains(m)) by {
                assert(src0[best as int] == m);
            }
            assert(src0.to_multiset().count(m) > 0);
            assert(src@ == src0.remove(best as int));
            assert(src0.remove(best as int).to_multiset() =~= src0.to_multiset().remove(m));
            assert(src@.to_multiset() =~= src0.to_multiset().remove(m));
            assert(out@.to_multiset() =~= out0.to_multiset().insert(m));
            assert(out@.to_multiset().add(src@.to_multiset()) =~= out0.to_multiset().add(
                src0.to_multiset(),
            ));
        }
    }
    std::mem::swap(moves, &mut out);
}

} // verus!
