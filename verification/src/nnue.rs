//! Incremental-evaluator adapter: an accumulator updated by feature deltas.
//!
//! The search clones the evaluator at every node and feeds it the move made;
//! the accumulator tracks which piece-on-square features are active, one
//! bitboard per piece kind and side, exactly as a network accumulator
//! tracks its feature sums. King moves signal a full refresh through the
//! return value of `update_move`, as king-indexed feature sets require.
//! Scoring the accumulated features falls back to the tapered hand-crafted
//! evaluation, the engine's evaluator when no network is available.

use vstd::prelude::*;
use crate::types::{Piece, Color, Move, MoveFlag};
use crate::position::{Position, spec_square_bb, square_bb};
use crate::score::Score;
use crate::hce;

verus! {

/// The accumulator: the active piece-on-square features, as bitboards.
#[derive(Clone, Copy, PartialEq, Eq, Structural, Debug)]
pub struct NnueState {
    /// Pawn features of both sides.
    pub pawns: u64,
    /// Knight features of both sides.
    pub knights: u64,
    /// Bishop features of both sides.
    pub bishops: u64,
    /// Rook features of both sides.
    pub rooks: u64,
    /// Queen features of both sides.
    pub queens: u64,
    /// King features of both sides.
    pub kings: u64,
    /// White's features.
    pub white: u64,
    /// Black's features.
    pub black: u64,
}

impl NnueState {
    /// The feature set of a position's placement.
    pub open spec fn spec_of_position(pos: Position) -> NnueState {
        NnueState {
            pawns: pos.pawns,
            knights: pos.knights,
            bishops: pos.bishops,
            rooks: pos.rooks,
            queens: pos.queens,
            kings: pos.kings,
            white: pos.white,
            black: pos.black,
        }
    }

    /// The state with the feature of one piece on one square switched on.
    pub open spec fn spec_add(self, p: Piece, c: Color, sq: u8) -> NnueState {
        let bb = spec_square_bb(sq);
        let st = match p {
            Piece::Pawn => NnueState { pawns: self.pawns | bb, ..self },
            Piece::Knight => NnueState { knights: self.knights | bb, ..self },
            Piece::Bishop => NnueState { bishops: self.bishops | bb, ..self },
            Piece::Rook => NnueState { rooks: self.rooks | bb, ..self },
            Piece::Queen => NnueState { queens: self.queens | bb, ..self },
            Piece::King => NnueState { kings: self.kings | bb, ..self },
        };
        match c {
            Color::White => NnueState { white: st.white | bb, ..st },
            Color::Black => NnueState { black: st.black | bb, ..st },
        }
    }

    /// The state with the feature of one piece on one square switched off.
    pub open spec fn spec_sub(self, p: Piece, c: Color, sq: u8) -> NnueState {
        let mask = !spec_square_bb(sq);
        let st = match p {
            Piece::Pawn => NnueState { pawns: self.pawns & mask, ..self },
            Piece::Knight => NnueState { knights: self.knights & mask, ..self },
            Piece::Bishop => NnueState { bishops: self.bishops & mask, ..self },
            Piece::Rook => NnueState { rooks: self.rooks & mask, ..self },
            Piece::Queen => NnueState { queens: self.queens & mask, ..self },
            Piece::King => NnueState { kings: self.kings & mask, ..self },
        };
        match c {
            Color::White => NnueState { white: st.white & mask, ..st },
            Color::Black => NnueState { black: st.black & mask, ..st },
        }
    }

    /// Switch the feature of one piece on one square on.
    pub fn add(&mut self, p: Piece, c: Color, sq: u8)
        requires
            sq < 64,
        ensures
            *final(self) == old(self).spec_add(p, c, sq),
    {
        let bb = square_bb(sq);
        match p {
            Piece::Pawn => self.pawns = self.pawns | bb,
            Piece::Knight => self.knights = self.knights | bb,
            Piece::Bishop => self.bishops = self.bishops | bb,
            Piece::Rook => self.rooks = self.rooks | bb,
            Piece::Queen => self.queens = self.queens | bb,
            Piece::King => self.kings = self.kings | bb,
        }
        match c {
            Color::White => self.white = self.white | bb,
            Color::Black => self.black = self.black | bb,
        }
    }

    /// Switch the feature of one piece on one square off.
    pub fn sub(&mut self, p: Piece, c: Color, sq: u8)
        requires
            sq < 64,
        ensures
            *final(self) == old(self).spec_sub(p, c, sq),
    {
        let mask = !square_bb(sq);
        match p {
            Piece::Pawn => self.pawns = self.pawns & mask,
            Piece::Knight => self.knights = self.knights & mask,
            Piece::Bishop => self.bishops = self.bishops & mask,
            Piece::Rook => self.rooks = self.rooks & mask,
            Piece::Queen => self.queens = self.queens & mask,
            Piece::King => self.kings = self.kings & mask,
        }
        match c {
            Color::White => self.white = self.white & mask,
            Color::Black => self.black = self.black & mask,
        }
    }

    /// The accumulated features read back as a position with the given side
    /// to move, if they are consistent.
    pub open spec fn spec_as_position(self, side: Color) -> Option<Position> {
        let p = Position {
            pawns: self.pawns,
            knights: self.knights,
            bishops: self.bishops,
            rooks: self.rooks,
            queens: self.queens,
            kings: self.kings,
            white: self.white,
            black: self.black,
            turn: side,
            hash: 0,
        };
        if p.wf() {
            Some(p)
        } else {
            None
        }
    }
}

/// A fresh accumulator holding exactly the position's features.
pub fn create_state(pos: &Position) -> (r: NnueState)
    ensures
        r == NnueState::spec_of_position(*pos),
{
    NnueState {
        pawns: pos.pawns,
        knights: pos.knights,
        bishops: pos.bishops,
        rooks: pos.rooks,
        queens: pos.queens,
        kings: pos.kings,
        white: pos.white,
        black: pos.black,
    }
}

/// What the evaluation of an accumulator yields: the tapered score of the
/// accumulated position, or the draw score when the features are not a
/// consistent position.
pub open spec fn spec_evaluate_state(st: NnueState, side: Color) -> int {
    match st.spec_as_position(side) {
        Some(p) => hce::spec_hce(p),
        None => 0,
    }
}

/// Evaluate an accumulator from the given side's perspective.
pub fn evaluate_state(state: &NnueState, side_to_move: Color) -> (r: Score)
    ensures
        r.value() == spec_evaluate_state(*state, side_to_move),
        r.spec_valid(),
{
    match Position::from_parts(
        state.pawns,
        state.knights,
        state.bishops,
        state.rooks,
        state.queens,
        state.kings,
        state.white,
        state.black,
        side_to_move,
        0,
    ) {
        Some(p) => hce::evaluate(&p),
        None => Score::draw(),
    }
}

/// Evaluate a position from scratch: build an accumulator and score it.
pub fn evaluate_scratch(pos: &Position) -> (r: Score)
    ensures
        r.value() == spec_evaluate_state(NnueState::spec_of_position(*pos), pos.turn),
        r.spec_valid(),
{
    let state = create_state(pos);
    evaluate_state(&state, pos.turn())
}

/// The square of the pawn removed by an en-passant capture: the fifth rank
/// when white captures, the fourth when black does, on the destination
/// file.
pub open spec fn spec_ep_victim(c: Color, to: u8) -> u8 {
    if c == Color::White {
        (32 + (to as int % 8)) as u8
    } else {
        (24 + (to as int % 8)) as u8
    }
}

/// The feature delta of a move, per the adapter protocol: the mover leaves
/// its source; a victim leaves the destination (the en-passant square for
/// an en-passant capture); the mover, or its promotion piece, lands on the
/// destination; a castle moves the rook from the corner file to its castled
/// file on the same rank.
pub open spec fn spec_update_delta(st: NnueState, pos: Position, mv: Move) -> NnueState {
    let mover = pos.spec_piece_at(mv.from);
    match mover {
        None => st,
        Some(pc) => {
            let p = pc.0;
            let c = pc.1;
            let st1 = st.spec_sub(p, c, mv.from);
            let st2 = match pos.spec_piece_at(mv.to) {
                Some(vic) => if vic.0 != Piece::King {
                    st1.spec_sub(vic.0, c.spec_flip(), mv.to)
                } else {
                    st1
                },
                None => st1,
            };
            let st3 = if p == Piece::Pawn && mv.flag == MoveFlag::EnPassant {
                st2.spec_sub(Piece::Pawn, c.spec_flip(), spec_ep_victim(c, mv.to))
            } else {
                st2
            };
            let landed = match mv.flag.spec_promotion_piece() {
                Some(promo) => promo,
                None => p,
            };
            let st4 = st3.spec_add(landed, c, mv.to);
            let rank0 = (mv.from as int / 8) * 8;
            if mv.flag == MoveFlag::KingCastle {
                st4.spec_sub(Piece::Rook, c, (rank0 + 7) as u8).spec_add(
                    Piece::Rook,
                    c,
                    (rank0 + 5) as u8,
                )
            } else if mv.flag == MoveFlag::QueenCastle {
                st4.spec_sub(Piece::Rook, c, rank0 as u8).spec_add(Piece::Rook, c, (rank0 + 3) as u8)
            } else {
                st4
            }
        },
    }
}

/// Apply the feature delta of a move to the accumulator. Returns false,
/// leaving the accumulator unchanged, when the move has no piece on its
/// source square or moves the king: a king move changes every king-indexed
/// feature, so the caller must refresh instead.
pub fn update_state_for_move(state: &mut NnueState, pos: &Position, mv: Move) -> (r: bool)
    requires
        crate::types::valid_move(mv),
    ensures
        r == (pos.spec_piece_at(mv.from) matches Some(pc) && pc.0 != Piece::King),
        r ==> *final(state) == spec_update_delta(*old(state), *pos, mv),
        !r ==> *final(state) == *old(state),
{
    let from = mv.from;
    let to = mv.to;
    let (moving_piece, moving_color) = match pos.piece_at(from) {
        Some(pc) => pc,
        None => {
            return false;
        },
    };
    if moving_piece == Piece::King {
        return false;
    }
    state.sub(moving_piece, moving_color, from);
    match pos.piece_at(to) {
        Some(vic) => {
            if !(vic.0 == Piece::King) {
                state.sub(vic.0, moving_color.flip(), to);
            }
        },
        None => {},
    }
    let is_ep = match mv.flag {
        MoveFlag::EnPassant => true,
        _ => false,
    };
    if moving_piece == Piece::Pawn && is_ep {
        let ep_sq = if matches!(moving_color, Color::White) {
            32 + to % 8
        } else {
            24 + to % 8
        };
        state.sub(Piece::Pawn, moving_color.flip(), ep_sq);
    }
    let landed = match mv.flag.promotion_piece() {
        Some(promo) => promo,
        None => moving_piece,
    };
    state.add(landed, moving_color, to);
    let rank0 = from / 8 * 8;
    match mv.flag {
        MoveFlag::KingCastle => {
            state.sub(Piece::Rook, moving_color, rank0 + 7);
            state.add(Piece::Rook, moving_color, rank0 + 5);
        },
        MoveFlag::QueenCastle => {
            state.sub(Piece::Rook, moving_color, rank0);
            state.add(Piece::Rook, moving_color, rank0 + 3);
        },
        _ => {},
    }
    true
}

/// Rebuild an accumulator from a position.
pub fn refresh_state(state: &mut NnueState, pos: &Position)
    ensures
        *final(state) == NnueState::spec_of_position(*pos),
{
    *state = create_state(pos);
}

/// The incremental evaluator the search holds: an accumulator kept in step
/// with the board by feature deltas.
#[derive(Clone, Copy, PartialEq, Eq, Structural, Debug)]
pub struct NnueEvaluator {
    state: NnueState,
}

impl NnueEvaluator {
    /// The accumulator.
    pub closed spec fn spec_state(self) -> NnueState {
        self.state
    }

    /// A fresh evaluator for a position.
    pub fn new(pos: &Position) -> (r: NnueEvaluator)
        ensures
            r.spec_state() == NnueState::spec_of_position(*pos),
    {
        NnueEvaluator { state: create_state(pos) }
    }

    /// Evaluate the accumulated position for the given side.
    pub fn evaluate(&mut self, side_to_move: Color) -> (r: Score)
        ensures
            *final(self) == *old(self),
            r.value() == spec_evaluate_state(old(self).spec_state(), side_to_move),
            r.spec_valid(),
    {
        evaluate_state(&self.state, side_to_move)
    }

    /// Apply a move's feature delta; false asks the caller to refresh.
    pub fn update_move(&mut self, pos: &Position, mv: Move) -> (r: bool)
        requires
            crate::types::valid_move(mv),
        ensures
            r == (pos.spec_piece_at(mv.from) matches Some(pc) && pc.0 != Piece::King),
            r ==> final(self).spec_state() == spec_update_delta(old(self).spec_state(), *pos, mv),
            !r ==> *final(self) == *old(self),
    {
        update_state_for_move(&mut self.state, pos, mv)
    }

    /// Rebuild the accumulator from a position.
    pub fn refresh(&mut self, pos: &Position)
        ensures
            final(self).spec_state() == NnueState::spec_of_position(*pos),
    {
        refresh_state(&mut self.state, pos);
    }

    /// A copy of the accumulator, for the search to descend with.
    pub fn clone_state(&self) -> (r: NnueState)
        ensures
            r == self.spec_state(),
    {
        self.state
    }

    /// Put a saved accumulator back.
    pub fn restore_state(&mut self, state: NnueState)
        ensures
            final(self).spec_state() == state,
    {
        self.state = state;
    }
}

} // verus!
