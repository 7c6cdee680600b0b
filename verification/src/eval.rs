//! Board evaluation: the polymorphic evaluator the search holds.
//!
//! The evaluator is a tagged variant: the incremental accumulator adapter,
//! the stateless tapered evaluation, the endgame evaluation, or plain
//! material. Whatever the variant, a sparse position with a clear material
//! edge switches to the endgame evaluation automatically.

use vstd::prelude::*;
use crate::types::{Piece, Color, Move, spec_piece_value, piece_value};
use crate::position::{Position, spec_popcount, popcount};
use crate::score::Score;
use crate::nnue::{NnueEvaluator, spec_evaluate_state};
use crate::{hce, endgame};

verus! {

/// Material count in centipawns from white's perspective.
pub open spec fn spec_material_eval(pos: Position) -> int {
    spec_piece_value(Piece::Pawn) * (spec_popcount(pos.pawns & pos.white) - spec_popcount(
        pos.pawns & pos.black,
    )) + spec_piece_value(Piece::Knight) * (spec_popcount(pos.knights & pos.white) - spec_popcount(
        pos.knights & pos.black,
    )) + spec_piece_value(Piece::Bishop) * (spec_popcount(pos.bishops & pos.white) - spec_popcount(
        pos.bishops & pos.black,
    )) + spec_piece_value(Piece::Rook) * (spec_popcount(pos.rooks & pos.white) - spec_popcount(
        pos.rooks & pos.black,
    )) + spec_piece_value(Piece::Queen) * (spec_popcount(pos.queens & pos.white) - spec_popcount(
        pos.queens & pos.black,
    ))
}

/// Simple material evaluation from white's perspective.
pub fn material_eval(pos: &Position) -> (r: i32)
    ensures
        r == spec_material_eval(*pos),
        -160000 <= r <= 160000,
{
    let mut score: i32 = 0;
    score = score + piece_value(Piece::Pawn) * (popcount(pos.pawns & pos.white) as i32 - popcount(
        pos.pawns & pos.black,
    ) as i32);
    score = score + piece_value(Piece::Knight) * (popcount(pos.knights & pos.white) as i32
        - popcount(pos.knights & pos.black) as i32);
    score = score + piece_value(Piece::Bishop) * (popcount(pos.bishops & pos.white) as i32
        - popcount(pos.bishops & pos.black) as i32);
    score = score + piece_value(Piece::Rook) * (popcount(pos.rooks & pos.white) as i32 - popcount(
        pos.rooks & pos.black,
    ) as i32);
    score = score + piece_value(Piece::Queen) * (popcount(pos.queens & pos.white) as i32 - popcount(
        pos.queens & pos.black,
    ) as i32);
    score
}

/// Material evaluation from the side to move's perspective, clamped into
/// the ordinary centipawn range.
pub open spec fn spec_material_eval_stm(pos: Position) -> int {
    let w = spec_material_eval(pos);
    let persp = if pos.turn == Color::White {
        w
    } else {
        -w
    };
    hce::spec_clamp_cp(persp)
}

/// Material evaluation as a score from the side to move's perspective.
pub fn material_eval_wrapper(pos: &Position) -> (r: Score)
    ensures
        r.value() == spec_material_eval_stm(*pos),
        r.spec_valid(),
{
    let eval = material_eval(pos);
    let persp = if matches!(pos.turn, Color::White) {
        eval
    } else {
        -eval
    };
    let clamped = if persp < -20000 {
        -20000
    } else if persp > 20000 {
        20000
    } else {
        persp
    };
    Score::cp(clamped)
}

/// Evaluator wrapper the search holds: incremental accumulator, tapered
/// hand-crafted, endgame, or plain material evaluation.
#[derive(Clone, Copy, PartialEq, Eq, Structural, Debug)]
pub enum SearchEvaluator {
    Nnue(NnueEvaluator),
    Hce,
    Endgame,
    Material,
}

/// What the evaluator returns on a position: the endgame evaluation when
/// the position calls for it, otherwise the variant's own evaluation.
pub open spec fn spec_search_eval(e: SearchEvaluator, pos: Position) -> int {
    if endgame::spec_should_use_endgame(pos) {
        endgame::spec_endgame_eval(pos)
    } else {
        match e {
            SearchEvaluator::Nnue(n) => spec_evaluate_state(n.spec_state(), pos.turn),
            SearchEvaluator::Hce => hce::spec_hce(pos),
            SearchEvaluator::Endgame => endgame::spec_endgame_eval(pos),
            SearchEvaluator::Material => spec_material_eval_stm(pos),
        }
    }
}

impl SearchEvaluator {
    /// A new evaluator: the incremental adapter when asked for, otherwise
    /// the stateless tapered evaluation.
    pub fn new(incremental: bool, pos: &Position) -> (r: SearchEvaluator)
        ensures
            incremental ==> (r matches SearchEvaluator::Nnue(n) && n.spec_state()
                == crate::nnue::NnueState::spec_of_position(*pos)),
            !incremental ==> r == SearchEvaluator::Hce,
    {
        if incremental {
            SearchEvaluator::Nnue(NnueEvaluator::new(pos))
        } else {
            SearchEvaluator::Hce
        }
    }

    /// Evaluate the position, switching to the endgame evaluation when the
    /// position calls for it.
    pub fn evaluate(&mut self, pos: &Position) -> (r: Score)
        requires
            pos.wf(),
        ensures
            *final(self) == *old(self),
            r.value() == spec_search_eval(*old(self), *pos),
            r.spec_valid(),
    {
        if endgame::should_use_endgame(pos) {
            return endgame::evaluate(pos);
        }
        match self {
            SearchEvaluator::Nnue(e) => e.evaluate(pos.turn()),
            SearchEvaluator::Hce => hce::evaluate(pos),
            SearchEvaluator::Endgame => endgame::evaluate(pos),
            SearchEvaluator::Material => material_eval_wrapper(pos),
        }
    }

    /// Feed a move to the evaluator; false asks for a refresh before the
    /// next evaluation. The stateless variants need neither.
    pub fn update_move(&mut self, pos: &Position, m: Move) -> (r: bool)
        requires
            crate::types::valid_move(m),
        ensures
            (*old(self)) matches SearchEvaluator::Nnue(n) ==> {
                &&& r == (pos.spec_piece_at(m.from) matches Some(pc) && pc.0 != Piece::King)
                &&& r ==> ((*final(self)) matches SearchEvaluator::Nnue(n2) && n2.spec_state()
                    == crate::nnue::spec_update_delta(n.spec_state(), *pos, m))
                &&& !r ==> *final(self) == *old(self)
            },
            !((*old(self)) is Nnue) ==> r && *final(self) == *old(self),
    {
        match self {
            SearchEvaluator::Nnue(e) => e.update_move(pos, m),
            SearchEvaluator::Hce => true,
            SearchEvaluator::Endgame => true,
            SearchEvaluator::Material => true,
        }
    }

    /// Rebuild the evaluator's state from a position; the stateless
    /// variants are unchanged.
    pub fn refresh(&mut self, pos: &Position)
        ensures
            (*old(self)) matches SearchEvaluator::Nnue(n) ==> ((*final(self))
                matches SearchEvaluator::Nnue(n2) && n2.spec_state()
                == crate::nnue::NnueState::spec_of_position(*pos)),
            !((*old(self)) is Nnue) ==> *final(self) == *old(self),
    {
        match self {
            SearchEvaluator::Nnue(e) => e.refresh(pos),
            _ => {},
        }
    }
}

/// Evaluate a position: the endgame evaluation when it applies, the
/// accumulator score when an incremental evaluator is at hand, plain
/// material otherwise.
pub fn evaluate(pos: &Position, incremental: Option<&NnueEvaluator>) -> (r: Score)
    requires
        pos.wf(),
    ensures
        r.spec_valid(),
        endgame::spec_should_use_endgame(*pos) ==> r.value() == endgame::spec_endgame_eval(*pos),
        !endgame::spec_should_use_endgame(*pos) ==> r.value() == match incremental {
            Some(n) => spec_evaluate_state(n.spec_state(), pos.turn),
            None => spec_material_eval_stm(*pos),
        },
{
    if endgame::should_use_endgame(pos) {
        return endgame::evaluate(pos);
    }
    match incremental {
        Some(n) => evaluate_nnue_ref(n, pos.turn()),
        None => material_eval_wrapper(pos),
    }
}

/// Determinism of the evaluation: the score is a function of the evaluator
/// and position values alone, so two evaluations of equal inputs agree.
/// Every evaluator's contract pins its result to this function, which is
/// what makes repeated searches over the same position reproducible.
pub proof fn lemma_evaluation_deterministic(e: SearchEvaluator, pos: Position, r1: int, r2: int)
    requires
        r1 == spec_search_eval(e, pos),
        r2 == spec_search_eval(e, pos),
    ensures
        r1 == r2,
{
}

/// Evaluate through a shared reference to the incremental evaluator.
fn evaluate_nnue_ref(n: &NnueEvaluator, side: Color) -> (r: Score)
    ensures
        r.value() == spec_evaluate_state(n.spec_state(), side),
        r.spec_valid(),
{
    let mut copy = *n;
    copy.evaluate(side)
}

} // verus!
