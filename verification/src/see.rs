//! Static exchange evaluation (SEE).
//!
//! Given a capture, the exchange on the destination square is played out:
//! each side in turn recaptures with its least valuable attacker, the
//! attacker leaves the occupancy, and a king capture ends the sequence.
//! The gain stack is then folded back, each side keeping the better of
//! stopping or continuing.

use vstd::prelude::*;
use crate::types::{Piece, Color, Move, MoveFlag};
use crate::position::{
    Position,
    spec_square_bb,
    square_bb,
    spec_knight_attacks,
    spec_king_attacks,
    spec_pawn_attacks,
    knight_attacks,
    king_attacks,
    pawn_attacks,
};
use crate::interop::{bishop_attacks_of, rook_attacks_of, bishop_attacks, rook_attacks};

verus! {

/// Piece values for the exchange: pawn through king.
pub open spec fn spec_see_value(p: Piece) -> int {
    match p {
        Piece::Pawn => 100,
        Piece::Knight => 300,
        Piece::Bishop => 300,
        Piece::Rook => 500,
        Piece::Queen => 900,
        Piece::King => 20000,
    }
}

/// Piece value used by the exchange evaluation.
pub fn see_piece_value(p: Piece) -> (r: i32)
    ensures
        r == spec_see_value(p),
{
    match p {
        Piece::Pawn => 100,
        Piece::Knight => 300,
        Piece::Bishop => 300,
        Piece::Rook => 500,
        Piece::Queen => 900,
        Piece::King => 20000,
    }
}

/// The pieces of one kind and side, still on the board under `occ`, that
/// attack `target` through `occ`.
pub open spec fn spec_piece_attacks(
    pos: Position,
    target: u8,
    p: Piece,
    side: Color,
    occ: u64,
) -> u64 {
    let ours = pos.spec_piece_bb(p) & pos.spec_color_bb(side) & occ;
    match p {
        Piece::Pawn => ours & spec_pawn_attacks(side.spec_flip(), target),
        Piece::Knight => ours & spec_knight_attacks(target),
        Piece::Bishop => ours & bishop_attacks_of(target, occ),
        Piece::Rook => ours & rook_attacks_of(target, occ),
        Piece::Queen => ours & (bishop_attacks_of(target, occ) | rook_attacks_of(target, occ)),
        Piece::King => ours & spec_king_attacks(target),
    }
}

/// The attackers of one kind and side through the current occupancy.
pub fn get_piece_attacks(pos: &Position, target: u8, p: Piece, side: Color, occ: u64) -> (r: u64)
    requires
        target < 64,
    ensures
        r == spec_piece_attacks(*pos, target, p, side, occ),
{
    let ours = pos.piece_bb(p) & pos.color_bb(side) & occ;
    match p {
        Piece::Pawn => {
            let enemy = side.flip();
            ours & pawn_attacks(enemy, target)
        },
        Piece::Knight => ours & knight_attacks(target),
        Piece::Bishop => ours & bishop_attacks(target, occ),
        Piece::Rook => ours & rook_attacks(target, occ),
        Piece::Queen => ours & (bishop_attacks(target, occ) | rook_attacks(target, occ)),
        Piece::King => ours & king_attacks(target),
    }
}

/// The least valuable attacker of `target` for `side` through `occ`: its
/// square (the lowest such) and kind, pawns first, king last.
pub open spec fn spec_lva(pos: Position, target: u8, side: Color, occ: u64) -> Option<(u8, Piece)> {
    let pawn_bb = spec_piece_attacks(pos, target, Piece::Pawn, side, occ);
    let knight_bb = spec_piece_attacks(pos, target, Piece::Knight, side, occ);
    let bishop_bb = spec_piece_attacks(pos, target, Piece::Bishop, side, occ);
    let rook_bb = spec_piece_attacks(pos, target, Piece::Rook, side, occ);
    let queen_bb = spec_piece_attacks(pos, target, Piece::Queen, side, occ);
    let king_bb = spec_piece_attacks(pos, target, Piece::King, side, occ);
    if pawn_bb != 0 {
        Some((vstd::std_specs::bits::u64_trailing_zeros(pawn_bb) as u8, Piece::Pawn))
    } else if knight_bb != 0 {
        Some((vstd::std_specs::bits::u64_trailing_zeros(knight_bb) as u8, Piece::Knight))
    } else if bishop_bb != 0 {
        Some((vstd::std_specs::bits::u64_trailing_zeros(bishop_bb) as u8, Piece::Bishop))
    } else if rook_bb != 0 {
        Some((vstd::std_specs::bits::u64_trailing_zeros(rook_bb) as u8, Piece::Rook))
    } else if queen_bb != 0 {
        Some((vstd::std_specs::bits::u64_trailing_zeros(queen_bb) as u8, Piece::Queen))
    } else if king_bb != 0 {
        Some((vstd::std_specs::bits::u64_trailing_zeros(king_bb) as u8, Piece::King))
    } else {
        None
    }
}

/// The least valuable attacker of `target` for `side` through `occ`.
pub fn get_lva(pos: &Position, target: u8, side: Color, occ: u64) -> (r: Option<(u8, Piece)>)
    requires
        target < 64,
    ensures
        r == spec_lva(*pos, target, side, occ),
        r matches Some(x) ==> x.0 < 64,
{
    let pawn_bb = get_piece_attacks(pos, target, Piece::Pawn, side, occ);
    if pawn_bb != 0 {
        return Some((crate::position::lsb(pawn_bb), Piece::Pawn));
    }
    let knight_bb = get_piece_attacks(pos, target, Piece::Knight, side, occ);
    if knight_bb != 0 {
        return Some((crate::position::lsb(knight_bb), Piece::Knight));
    }
    let bishop_bb = get_piece_attacks(pos, target, Piece::Bishop, side, occ);
    if bishop_bb != 0 {
        return Some((crate::position::lsb(bishop_bb), Piece::Bishop));
    }
    let rook_bb = get_piece_attacks(pos, target, Piece::Rook, side, occ);
    if rook_bb != 0 {
        return Some((crate::position::lsb(rook_bb), Piece::Rook));
    }
    let queen_bb = get_piece_attacks(pos, target, Piece::Queen, side, occ);
    if queen_bb != 0 {
        return Some((crate::position::lsb(queen_bb), Piece::Queen));
    }
    let king_bb = get_piece_attacks(pos, target, Piece::King, side, occ);
    if king_bb != 0 {
        return Some((crate::position::lsb(king_bb), Piece::King));
    }
    None
}

/// The rest of the gain stack: each step appends the value of the piece
/// standing on the square (captured by the least valuable attacker), takes
/// the attacker out of the occupancy and switches side; a king attacker or
/// an unattacked square ends the stack. The fuel bounds the stack as the
/// fixed-size implementation does.
pub open spec fn spec_gain_stack(
    pos: Position,
    target: u8,
    side: Color,
    occ: u64,
    last_value: int,
    fuel: nat,
) -> Seq<int>
    decreases fuel,
{
    if fuel == 0 {
        Seq::empty()
    } else {
        match spec_lva(pos, target, side, occ) {
            None => Seq::empty(),
            Some(att) => {
                if att.1 == Piece::King {
                    seq![last_value]
                } else {
                    seq![last_value] + spec_gain_stack(
                        pos,
                        target,
                        side.spec_flip(),
                        occ ^ spec_square_bb(att.0),
                        spec_see_value(att.1),
                        (fuel - 1) as nat,
                    )
                }
            },
        }
    }
}

/// The negamax fold of a gain stack: the side to choose keeps the better of
/// the stack's head and refusing the rest.
pub open spec fn spec_fold_gains(g: Seq<int>) -> int
    decreases g.len(),
{
    if g.len() == 0 {
        0
    } else if g.len() == 1 {
        g[0]
    } else {
        let rest = spec_fold_gains(g.drop_first());
        if g[0] >= -rest {
            g[0]
        } else {
            -rest
        }
    }
}

/// The first gain of the exchange: the victim's value, plus the promotion
/// gain when the capture promotes.
pub open spec fn spec_first_gain(m: Move, victim: Piece) -> int {
    spec_see_value(victim) + match m.flag {
        MoveFlag::Promotion(p) => spec_see_value(p) - spec_see_value(Piece::Pawn),
        _ => 0,
    }
}

/// The swap-off value of a capture with a known victim: the folded gain
/// stack of the exchange on the destination square, or zero when the moving
/// piece is missing or the move is no capture.
pub open spec fn spec_see(pos: Position, m: Move, victim: Option<Piece>) -> int {
    let attacker = pos.spec_piece_at(m.from);
    match (attacker, victim) {
        (Some(a), Some(v)) => spec_see_exchange(pos, m, a.0, spec_first_gain(m, v)),
        (Some(a), None) => if a.0 == Piece::Pawn {
            spec_see_exchange(pos, m, Piece::Pawn, spec_first_gain(m, Piece::Pawn))
        } else {
            0
        },
        _ => 0,
    }
}

/// The folded exchange after the first capture: the attacker has left its
/// square and the other side is to recapture.
pub open spec fn spec_see_exchange(pos: Position, m: Move, attacker: Piece, first_gain: int) -> int {
    let occ = pos.spec_occupied() ^ spec_square_bb(m.from);
    let stack = seq![first_gain] + spec_gain_stack(
        pos,
        m.to,
        pos.turn.spec_flip(),
        occ,
        spec_see_value(attacker),
        31,
    );
    spec_fold_gains(stack)
}

/// Every value of a gain stack lies between 0 and 20800.
pub open spec fn gains_bounded(g: Seq<int>) -> bool {
    forall|i: int| 0 <= i < g.len() ==> 0 <= #[trigger] g[i] <= 20800
}

/// A gain stack holds piece values only, so it is bounded.
proof fn lemma_gain_stack_bounded(
    pos: Position,
    target: u8,
    side: Color,
    occ: u64,
    last_value: int,
    fuel: nat,
)
    requires
        0 <= last_value <= 20800,
    ensures
        gains_bounded(spec_gain_stack(pos, target, side, occ, last_value, fuel)),
    decreases fuel,
{
    if fuel > 0 {
        match spec_lva(pos, target, side, occ) {
            None => {},
            Some(att) => {
                if att.1 != Piece::King {
                    lemma_gain_stack_bounded(
                        pos,
                        target,
                        side.spec_flip(),
                        occ ^ spec_square_bb(att.0),
                        spec_see_value(att.1),
                        (fuel - 1) as nat,
                    );
                }
            },
        }
    }
}

/// The fold of a bounded stack is bounded, and never below its first entry.
proof fn lemma_fold_bounded(g: Seq<int>)
    requires
        gains_bounded(g),
    ensures
        -20800 <= spec_fold_gains(g) <= 20800,
        g.len() > 0 ==> spec_fold_gains(g) >= g[0],
    decreases g.len(),
{
    if g.len() > 1 {
        assert(gains_bounded(g.drop_first()));
        lemma_fold_bounded(g.drop_first());
    }
}

/// Static exchange evaluation with a known victim (none for en passant,
/// where the destination square is empty). Returns the folded material
/// balance of the capture sequence; zero when the move is no capture.
pub fn see_captured(pos: &Position, mv: Move, victim: Option<Piece>) -> (r: i32)
    requires
        crate::types::valid_move(mv),
    ensures
        r == spec_see(*pos, mv, victim),
{
    let from = mv.from;
    let to = mv.to;
    let attacker = match pos.piece_at(from) {
        Some(pc) => Some(pc.0),
        None => None,
    };
    let (attacker_piece, first_gain) = match (attacker, victim) {
        (Some(a), Some(v)) => (a, see_piece_value(v)),
        (Some(a), None) => {
            if a == Piece::Pawn {
                (a, see_piece_value(Piece::Pawn))
            } else {
                return 0;
            }
        },
        _ => {
            return 0;
        },
    };
    let gain0 = match mv.flag {
        MoveFlag::Promotion(p) => first_gain + see_piece_value(p) - see_piece_value(Piece::Pawn),
        _ => first_gain,
    };
    let mut gains: Vec<i32> = Vec::new();
    gains.push(gain0);
    let mut occ = pos.occupied() ^ square_bb(from);
    let mut side = pos.turn().flip();
    let mut last_value = see_piece_value(attacker_piece);
    proof {
        assert(gains@.map_values(|x: i32| x as int) =~= seq![gain0 as int]);
    }
    let ghost full_stack = seq![gain0 as int] + spec_gain_stack(
        *pos,
        to,
        pos.turn.spec_flip(),
        pos.spec_occupied() ^ spec_square_bb(mv.from),
        spec_see_value(attacker_piece),
        31,
    );
    loop
        invariant_except_break
            full_stack =~= gains@.map_values(|x: i32| x as int) + spec_gain_stack(
                *pos,
                to,
                side,
                occ,
                last_value as int,
                (32 - gains@.len()) as nat,
            ),
        invariant
            0 <= last_value <= 20800,
            1 <= gains@.len() <= 32,
            to < 64,
            gains_bounded(gains@.map_values(|x: i32| x as int)),
        ensures
            full_stack =~= gains@.map_values(|x: i32| x as int),
            gains@.len() >= 1,
            gains_bounded(gains@.map_values(|x: i32| x as int)),
        decreases 32 - gains@.len(),
    {
        if gains.len() >= 32 {
            proof {
                assert(spec_gain_stack(*pos, to, side, occ, last_value as int, 0nat)
                    =~= Seq::<int>::empty());
                assert(gains@.map_values(|x: i32| x as int) + Seq::<int>::empty()
                    =~= gains@.map_values(|x: i32| x as int));
            }
            break ;
        }
        let ghost pre = gains@.map_values(|x: i32| x as int);
        let ghost side0 = side;
        let ghost occ0 = occ;
        let ghost last0 = last_value as int;
        let ghost fuel0 = (32 - gains@.len()) as nat;
        match get_lva(pos, to, side, occ) {
            Some((sq, piece)) => {
                occ = occ ^ square_bb(sq);
                gains.push(last_value);
                proof {
                    assert(gains@.map_values(|x: i32| x as int) =~= pre + seq![last0]);
                }
                last_value = see_piece_value(piece);
                side = side.flip();
                if piece == Piece::King {
                    proof {
                        assert(spec_gain_stack(*pos, to, side0, occ0, last0, fuel0) =~= seq![
                            last0,
                        ]);
                        assert(pre + spec_gain_stack(*pos, to, side0, occ0, last0, fuel0)
                            =~= gains@.map_values(|x: i32| x as int));
                    }
                    break ;
                }
                proof {
                    assert(spec_gain_stack(*pos, to, side0, occ0, last0, fuel0) =~= seq![last0]
                        + spec_gain_stack(
                        *pos,
                        to,
                        side,
                        occ,
                        last_value as int,
                        (fuel0 - 1) as nat,
                    ));
                    assert(pre + (seq![last0] + spec_gain_stack(
                        *pos,
                        to,
                        side,
                        occ,
                        last_value as int,
                        (fuel0 - 1) as nat,
                    )) =~= (pre + seq![last0]) + spec_gain_stack(
                        *pos,
                        to,
                        side,
                        occ,
                        last_value as int,
                        (fuel0 - 1) as nat,
                    ));
                }
            },
            None => {
                proof {
                    assert(spec_gain_stack(*pos, to, side0, occ0, last0, fuel0)
                        =~= Seq::<int>::empty());
                    assert(pre + Seq::<int>::empty() =~= pre);
                }
                break ;
            },
        }
    }
    let ghost full = gains@.map_values(|x: i32| x as int);
    proof {
        assert(forall|k: int| 0 <= k < full.len() ==> full[k] == gains@[k] as int);
        assert(full.skip(full.len() - 1) =~= seq![full[full.len() - 1]]);
    }
    let mut depth = gains.len();
    while depth > 1
        invariant
            1 <= depth <= gains@.len(),
            gains@.len() == full.len(),
            gains@.len() >= 1,
            gains_bounded(full),
            forall|k: int| 0 <= k < depth ==> gains@[k] == full[k],
            -20800 <= gains@[depth - 1] <= 20800,
            gains@[depth - 1] as int == spec_fold_gains(full.skip(depth - 1)),
        decreases depth,
    {
        depth = depth - 1;
        let g_d = gains[depth];
        let g_prev = gains[depth - 1];
        let folded = if g_prev >= -g_d {
            g_prev
        } else {
            -g_d
        };
        proof {
            assert(gains_bounded(full.skip(depth as int))) by {
                assert(forall|i: int|
                    0 <= i < full.skip(depth as int).len() ==> full.skip(depth as int)[i] == full[i
                        + depth]);
            }
            lemma_fold_bounded(full.skip(depth as int));
            assert(full.skip(depth - 1).drop_first() =~= full.skip(depth as int));
            assert(full.skip(depth - 1)[0] == full[depth - 1]);
            assert(0 <= full[depth - 1] <= 20800);
            assert(g_prev == full[depth - 1]);
            assert(-20800 <= g_d <= 20800);
            assert(-20800 <= folded <= 20800);
            assert(folded as int == spec_fold_gains(full.skip(depth - 1)));
        }
        gains.set(depth - 1, folded);
    }
    proof {
        assert(full.skip(0) =~= full);
        lemma_gain_stack_bounded(
            *pos,
            to,
            pos.turn.spec_flip(),
            pos.spec_occupied() ^ spec_square_bb(mv.from),
            spec_see_value(attacker_piece),
            31,
        );
    }
    gains[0]
}

/// Static exchange evaluation of a move, reading the victim off the
/// destination square.
pub fn see(pos: &Position, mv: Move) -> (r: i32)
    requires
        crate::types::valid_move(mv),
    ensures
        r == spec_see(
            *pos,
            mv,
            match pos.spec_piece_at(mv.to) {
                Some(pc) => Some(pc.0),
                None => None,
            },
        ),
{
    let victim = match pos.piece_at(mv.to) {
        Some(pc) => Some(pc.0),
        None => None,
    };
    see_captured(pos, mv, victim)
}

/// Whether the swap-off value reaches a threshold.
pub fn see_ge(pos: &Position, mv: Move, threshold: i32) -> (r: bool)
    requires
        crate::types::valid_move(mv),
    ensures
        r == (spec_see(
            *pos,
            mv,
            match pos.spec_piece_at(mv.to) {
                Some(pc) => Some(pc.0),
                None => None,
            },
        ) >= threshold),
{
    see(pos, mv) >= threshold
}

/// Whether a capture is good: its swap-off value is not negative.
pub fn is_good_capture(pos: &Position, mv: Move) -> (r: bool)
    requires
        crate::types::valid_move(mv),
    ensures
        r == (spec_see(
            *pos,
            mv,
            match pos.spec_piece_at(mv.to) {
                Some(pc) => Some(pc.0),
                None => None,
            },
        ) >= 0),
{
    see_ge(pos, mv, 0)
}

/// Whether a capture with a known victim is good.
pub fn is_good_capture_with_victim(pos: &Position, mv: Move, victim: Option<Piece>) -> (r: bool)
    requires
        crate::types::valid_move(mv),
    ensures
        r == (spec_see(*pos, mv, victim) >= 0),
{
    see_captured(pos, mv, victim) >= 0
}

/// The swap-off value of a capture is never negative: the fold always keeps
/// at least the first gain, the victim's value. In particular, whenever the
/// side to move has at least as many attackers of the square as the
/// defender has defenders, the exchange evaluates at or above zero.
pub proof fn lemma_see_nonnegative(pos: Position, m: Move, victim: Option<Piece>)
    requires
        crate::types::valid_move(m),
    ensures
        spec_see(pos, m, victim) >= 0,
{
    let attacker = pos.spec_piece_at(m.from);
    match (attacker, victim) {
        (Some(a), Some(v)) => {
            lemma_see_exchange_nonnegative(pos, m, a.0, spec_first_gain(m, v));
        },
        (Some(a), None) => {
            if a.0 == Piece::Pawn {
                lemma_see_exchange_nonnegative(
                    pos,
                    m,
                    Piece::Pawn,
                    spec_first_gain(m, Piece::Pawn),
                );
            }
        },
        _ => {},
    }
}

/// The folded exchange never loses the first gain.
proof fn lemma_see_exchange_nonnegative(pos: Position, m: Move, attacker: Piece, first_gain: int)
    requires
        first_gain >= 0,
        first_gain <= 20800,
    ensures
        spec_see_exchange(pos, m, attacker, first_gain) >= first_gain,
{
    let occ = pos.spec_occupied() ^ spec_square_bb(m.from);
    let tail = spec_gain_stack(pos, m.to, pos.turn.spec_flip(), occ, spec_see_value(attacker), 31);
    let stack = seq![first_gain] + tail;
    lemma_gain_stack_bounded(
        pos,
        m.to,
        pos.turn.spec_flip(),
        occ,
        spec_see_value(attacker),
        31,
    );
    assert(gains_bounded(stack));
    lemma_fold_bounded(stack);
    assert(stack[0] == first_gain);
}

} // verus!
