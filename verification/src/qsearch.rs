//! Quiescence search: captures only, to settle tactical sequences before
//! the static evaluation is trusted.
//!
//! At each node the side to move may stand pat on the static evaluation;
//! otherwise captures are tried in MVV-LVA order, pruned by the delta
//! margins and by the static exchange evaluation, with the usual
//! alpha-beta window. The board collaborator supplies legal moves and
//! make-move; every decision in between is the library's own.

use vstd::prelude::*;
use vstd::seq_lib::group_to_multiset_ensures;
use crate::types::{Piece, Color, Move, Ply, MAX_PLY, valid_move};
use crate::score::Score;
use crate::position::Position;
use crate::eval::SearchEvaluator;
use crate::limits::TimeManager;
use crate::see::{spec_piece_attacks, get_piece_attacks, see_captured, see_piece_value};
use crate::ordering::{spec_mvv_lva, mvv_lva_score};
use crate::interop;

verus! {

/// Node counters and selective depth of one search.
#[derive(Clone, Copy, PartialEq, Eq, Structural, Debug)]
pub struct SearchStats {
    /// Nodes visited.
    pub nodes: u64,
    /// Quiescence nodes visited.
    pub qnodes: u64,
    /// Deepest ply reached.
    pub seldepth: i32,
}

impl SearchStats {
    /// Fresh counters.
    pub fn new() -> (r: SearchStats)
        ensures
            r.nodes == 0,
            r.qnodes == 0,
            r.seldepth == 0,
    {
        SearchStats { nodes: 0, qnodes: 0, seldepth: 0 }
    }
}

/// What one search call returns: the best move found, its score, and the
/// principal variation.
#[derive(Clone, Debug)]
pub struct SearchResult {
    /// The move judged best; none at a quiescence node.
    pub best_move: Option<Move>,
    /// The score of the node.
    pub score: Score,
    /// The principal variation from this node.
    pub pv: Vec<Move>,
}

/// All attackers of a square for one side through the occupancy `occ`: the
/// union over the piece kinds.
pub open spec fn spec_attackers(pos: Position, sq: u8, side: Color, occ: u64) -> u64 {
    spec_piece_attacks(pos, sq, Piece::Pawn, side, occ) | spec_piece_attacks(
        pos,
        sq,
        Piece::Knight,
        side,
        occ,
    ) | spec_piece_attacks(pos, sq, Piece::Bishop, side, occ) | spec_piece_attacks(
        pos,
        sq,
        Piece::Rook,
        side,
        occ,
    ) | spec_piece_attacks(pos, sq, Piece::Queen, side, occ) | spec_piece_attacks(
        pos,
        sq,
        Piece::King,
        side,
        occ,
    )
}

/// All attackers of a square for one side through the occupancy.
pub fn attackers_to(pos: &Position, sq: u8, side: Color, occ: u64) -> (r: u64)
    requires
        sq < 64,
    ensures
        r == spec_attackers(*pos, sq, side, occ),
{
    get_piece_attacks(pos, sq, Piece::Pawn, side, occ) | get_piece_attacks(
        pos,
        sq,
        Piece::Knight,
        side,
        occ,
    ) | get_piece_attacks(pos, sq, Piece::Bishop, side, occ) | get_piece_attacks(
        pos,
        sq,
        Piece::Rook,
        side,
        occ,
    ) | get_piece_attacks(pos, sq, Piece::Queen, side, occ) | get_piece_attacks(
        pos,
        sq,
        Piece::King,
        side,
        occ,
    )
}

/// Whether the side to move stands in check: the enemy attacks its king's
/// square through the full occupancy.
pub open spec fn spec_in_check(pos: Position) -> bool {
    spec_attackers(
        pos,
        pos.spec_king_square(pos.turn),
        pos.turn.spec_flip(),
        pos.spec_occupied(),
    ) != 0
}

/// Whether the side to move stands in check.
pub fn in_check(pos: &Position) -> (r: bool)
    requires
        pos.wf(),
    ensures
        r == spec_in_check(*pos),
{
    let ksq = pos.king_square(pos.turn());
    attackers_to(pos, ksq, pos.turn().flip(), pos.occupied()) != 0
}

/// A legal move of the collaborator paired with its decoded library form.
struct MovePair {
    raw: chess::ChessMove,
    mv: Move,
}

/// Every pair's library move is valid and lands on an occupied square, and
/// its raw move is legal on the board, so making it is safe.
spec fn capture_pairs_ok(b: chess::Board, pos: Position, s: Seq<MovePair>) -> bool {
    forall|i: int|
        0 <= i < s.len() ==> valid_move(#[trigger] s[i].mv) && pos.spec_piece_at(s[i].mv.to)
            is Some && interop::legal_on(b, s[i].raw)
}

/// The pairs are sorted by descending MVV-LVA score of the library moves.
spec fn pairs_sorted(pos: Position, s: Seq<MovePair>) -> bool {
    forall|i: int, j: int|
        0 <= i < j < s.len() ==> spec_mvv_lva(pos, #[trigger] s[i].mv) >= spec_mvv_lva(
            pos,
            #[trigger] s[j].mv,
        )
}

/// Collect the legal captures of the position: every legal move whose
/// destination square is occupied, at most 64 of them.
fn collect_captures(board: &chess::Board, pos: &Position) -> (r: Vec<MovePair>)
    ensures
        capture_pairs_ok(*board, *pos, r@),
        r@.len() <= 64,
{
    let raw_moves = interop::legal_moves(board);
    let mut pairs: Vec<MovePair> = Vec::new();
    let n = raw_moves.len();
    let mut i: usize = 0;
    while i < n
        invariant
            n == raw_moves@.len(),
            i <= n,
            forall|j: int| 0 <= j < n ==> interop::legal_on(*board, #[trigger] raw_moves@[j]),
            capture_pairs_ok(*board, *pos, pairs@),
            pairs@.len() <= 64,
        decreases n - i,
    {
        if pairs.len() >= 64 {
            break ;
        }
        let raw = raw_moves[i];
        let (from, to, promo) = interop::move_fields(&raw);
        let mv = interop::classify_move(pos, from, to, promo);
        if pos.piece_at(mv.to()).is_some() {
            pairs.push(MovePair { raw, mv });
        }
        i = i + 1;
    }
    pairs
}

/// Sort capture pairs in descending MVV-LVA order of their library moves;
/// the result is a permutation of the input.
fn order_capture_pairs(board: Ghost<chess::Board>, pos: &Position, pairs: &mut Vec<MovePair>)
    requires
        capture_pairs_ok(board@, *pos, old(pairs)@),
    ensures
        capture_pairs_ok(board@, *pos, final(pairs)@),
        final(pairs)@.len() == old(pairs)@.len(),
        final(pairs)@.to_multiset() == old(pairs)@.to_multiset(),
        pairs_sorted(*pos, final(pairs)@),
{
    broadcast use group_to_multiset_ensures;

    let ghost orig = pairs@;
    let mut src: Vec<MovePair> = Vec::new();
    std::mem::swap(pairs, &mut src);
    let mut out: Vec<MovePair> = Vec::new();
    while src.len() > 0
        invariant
            capture_pairs_ok(board@, *pos, src@),
            capture_pairs_ok(board@, *pos, out@),
            out@.to_multiset().add(src@.to_multiset()) =~= orig.to_multiset(),
            out@.len() + src@.len() == orig.len(),
            pairs_sorted(*pos, out@),
            forall|i: int, j: int|
                0 <= i < out@.len() && 0 <= j < src@.len() ==> spec_mvv_lva(
                    *pos,
                    #[trigger] out@[i].mv,
                ) >= spec_mvv_lva(*pos, #[trigger] src@[j].mv),
        decreases src@.len(),
    {
        let mut best: usize = 0;
        let mut best_score: i32 = mvv_lva_score(pos, src[0].mv);
        let mut j: usize = 1;
        while j < src.len()
            invariant
                capture_pairs_ok(board@, *pos, src@),
                src@.len() > 0,
                best < src@.len(),
                j <= src@.len(),
                best_score == spec_mvv_lva(*pos, src@[best as int].mv),
                forall|k: int|
                    0 <= k < j ==> best_score >= spec_mvv_lva(*pos, #[trigger] src@[k].mv),
            decreases src@.len() - j,
        {
            let s = mvv_lva_score(pos, src[j].mv);
            if s > best_score {
                best = j;
                best_score = s;
            }
            j = j + 1;
        }
        let ghost src0 = src@;
        let ghost out0 = out@;
        let m = src.remove(best);
        out.push(m);
        proof {
            broadcast use vstd::multiset::group_multiset_axioms;

            src0.to_multiset_ensures();
            out0.to_multiset_ensures();
            assert(src0[best as int] == m);
            assert(src0.contains(m)) by {
                assert(src0[best as int] == m);
            }
            assert(src0.to_multiset().count(m) > 0);
            assert(src@ == src0.remove(best as int));
            assert(src0.remove(best as int).to_multiset() =~= src0.to_multiset().remove(m));
            assert(src@.to_multiset() =~= src0.to_multiset().remove(m));
            assert(out@.to_multiset() =~= out0.to_multiset().insert(m));
            assert(out@.to_multiset().add(src@.to_multiset()) =~= out0.to_multiset().add(
                src0.to_multiset(),
            ));
        }
    }
    std::mem::swap(pairs, &mut out);
}

/// Null-window bracketing: at any node with an integer window, a fail-high
/// score clears the lower window edge by one, and a fail-low score stays a
/// point under the upper edge.
pub proof fn lemma_null_window_bracketing(alpha: int, beta: int, s: int)
    requires
        alpha < beta,
    ensures
        s >= beta ==> s >= alpha + 1,
        s <= alpha ==> s <= beta - 1,
{
}

/// Quiescence search: search captures only, from the given window, with
/// stand-pat, a depth cap, delta pruning and exchange-evaluation pruning.
/// Cancellation returns whatever partial result is at hand; the caller
/// discards it. When the time manager is unbounded, so that cancellation
/// never fires, the contract pins the node's own decisions: the fail-high
/// return of `beta` when the static evaluation clears it, the stand-pat
/// return at the quiescence depth cap, the window's lower edge under the
/// big-delta margin, and the floor `min(stand-pat, beta)` on every outcome.
pub fn quiescence(
    board: &chess::Board,
    evaluator: &SearchEvaluator,
    tm: &TimeManager,
    stats: &mut SearchStats,
    ply: Ply,
    qply: i32,
    alpha: Score,
    beta: Score,
) -> (r: SearchResult)
    requires
        alpha.spec_valid(),
        beta.spec_valid(),
        alpha.value() < beta.value(),
        0 <= ply.0 < MAX_PLY,
        0 <= qply <= ply.0,
    ensures
        r.score.spec_valid(),
        final(stats).nodes >= old(stats).nodes,
        final(stats).qnodes >= old(stats).qnodes,
        final(stats).seldepth >= old(stats).seldepth,
        r.best_move is None,
        tm.spec_infinite() ==> ({
            let model = interop::spec_board_model(*board);
            let sp = crate::eval::spec_search_eval(*evaluator, model);
            &&& !model.wf() ==> r.score.value() == crate::score::SCORE_DRAW
            &&& model.wf() ==> r.score.value() >= crate::limits::spec_min(sp, beta.value())
            &&& model.wf() && sp >= beta.value() ==> r.score.value() == beta.value()
            &&& model.wf() && sp < beta.value() && qply >= 8 && !spec_in_check(model)
                ==> r.score.value() == sp
            &&& model.wf() && sp < beta.value() && qply < 8 && !spec_in_check(model) && sp + 600
                < alpha.value() ==> r.score.value() == alpha.value()
        }),
    decreases MAX_PLY - ply.0,
{
    stats.nodes = if stats.nodes < u64::MAX {
        stats.nodes + 1
    } else {
        stats.nodes
    };
    stats.qnodes = if stats.qnodes < u64::MAX {
        stats.qnodes + 1
    } else {
        stats.qnodes
    };
    if ply.raw() > stats.seldepth {
        stats.seldepth = ply.raw();
    }
    let mut alpha = alpha;
    if tm.should_stop() {
        // Cancellation: hand back a partial result at once; the caller
        // discards it.
        return SearchResult { best_move: None, score: alpha, pv: Vec::new() };
    }
    let pos = match interop::board_to_position(board) {
        Some(p) => p,
        None => {
            // The collaborator handed back an inconsistent snapshot; score
            // the node as a draw rather than read it further.
            return SearchResult { best_move: None, score: Score::draw(), pv: Vec::new() };
        },
    };
    let mut scratch = *evaluator;
    let stand_pat = scratch.evaluate(&pos);
    if stand_pat.raw() >= beta.raw() {
        return SearchResult { best_move: None, score: beta, pv: Vec::new() };
    }
    let checked = in_check(&pos);
    if qply >= 8 && !checked {
        return SearchResult { best_move: None, score: stand_pat, pv: Vec::new() };
    }
    if !checked && stand_pat.raw() + 600 < alpha.raw() {
        return SearchResult { best_move: None, score: alpha, pv: Vec::new() };
    }
    if stand_pat.raw() > alpha.raw() {
        alpha = stand_pat;
    }
    let mut pairs = collect_captures(board, &pos);
    if pairs.len() == 0 {
        return SearchResult { best_move: None, score: alpha, pv: Vec::new() };
    }
    order_capture_pairs(Ghost(*board), &pos, &mut pairs);
    let mut best_score = stand_pat;
    let mut pv: Vec<Move> = Vec::new();
    let n = pairs.len();
    let mut i: usize = 0;
    while i < n
        invariant
            n == pairs@.len(),
            i <= n,
            capture_pairs_ok(*board, pos, pairs@),
            pos.wf(),
            alpha.spec_valid(),
            beta.spec_valid(),
            alpha.value() < beta.value(),
            best_score.spec_valid(),
            stand_pat.spec_valid(),
            best_score.value() >= stand_pat.value(),
            0 <= ply.0 < MAX_PLY,
            0 <= qply <= ply.0,
            stats.nodes >= old(stats).nodes,
            stats.qnodes >= old(stats).qnodes,
            stats.seldepth >= old(stats).seldepth,
        decreases n - i,
    {
        let m = pairs[i].mv;
        if tm.should_stop() {
            break ;
        }
        if ply.raw() + 1 >= MAX_PLY {
            break ;
        }
        let victim = match pos.piece_at(m.to()) {
            Some(pc) => pc.0,
            None => Piece::Pawn,
        };
        let deltable = !checked && !m.is_promotion();
        if deltable && stand_pat.raw() + see_piece_value(victim) + 100 < alpha.raw() {
            i = i + 1;
            continue ;
        }
        if !checked && see_captured(&pos, m, Some(victim)) < 0 {
            i = i + 1;
            continue ;
        }
        let child_board = interop::make_move(board, &pairs[i].raw);
        let mut child_eval = scratch;
        if !child_eval.update_move(&pos, m) {
            match interop::board_to_position(&child_board) {
                Some(cp) => child_eval.refresh(&cp),
                None => {},
            }
        }
        let result = quiescence(
            &child_board,
            &child_eval,
            tm,
            stats,
            ply.next(),
            qply + 1,
            beta.negate(),
            alpha.negate(),
        );
        let score = result.score.negate();
        if score.raw() > best_score.raw() {
            best_score = score;
            let mut new_pv: Vec<Move> = Vec::new();
            new_pv.push(m);
            let mut rest = result.pv;
            new_pv.append(&mut rest);
            pv = new_pv;
            if score.raw() > alpha.raw() {
                if score.raw() >= beta.raw() {
                    break ;
                }
                alpha = score;
            }
        }
        i = i + 1;
    }
    SearchResult { best_move: None, score: best_score, pv }
}

} // verus!
