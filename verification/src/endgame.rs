//! Endgame evaluation aimed at converting won positions.
//!
//! With little material left it drives the losing king toward the corners
//! and edges, brings the winning king closer, rewards passed-pawn
//! advancement, and adds a small hash-derived variety term against
//! repetition-prone play. Near material equality it defers to the tapered
//! hand-crafted evaluation.

use vstd::prelude::*;
use crate::types::{Piece, Color};
use crate::position::{Position, spec_popcount, popcount};
use crate::score::Score;
use crate::hce;

verus! {

/// Piece count at or under which the endgame evaluation always applies.
pub const ENDGAME_PIECE_THRESHOLD: u32 = 6;

/// Material edge, in centipawns, that turns a sparse position into an
/// endgame-evaluated one.
pub const MATERIAL_ADVANTAGE_THRESHOLD: i32 = 150;

/// Distance of a square from its nearest corner: the sum of its distances
/// to the nearest edge file and edge rank.
pub open spec fn spec_corner_distance(sq: u8) -> int {
    let f = sq as int % 8;
    let r = sq as int / 8;
    let fd = if f <= 7 - f {
        f
    } else {
        7 - f
    };
    let rd = if r <= 7 - r {
        r
    } else {
        7 - r
    };
    fd + rd
}

/// Distance of a square from the four center squares.
pub open spec fn spec_center_distance(sq: u8) -> int {
    let f = sq as int % 8;
    let r = sq as int / 8;
    let fd = if f <= 3 {
        3 - f
    } else {
        f - 4
    };
    let rd = if r <= 3 {
        3 - r
    } else {
        r - 4
    };
    fd + rd
}

/// Chebyshev distance between two squares: king moves from one to the
/// other.
pub open spec fn spec_king_distance(a: u8, b: u8) -> int {
    let fd = (a as int % 8) - (b as int % 8);
    let rd = (a as int / 8) - (b as int / 8);
    let fda = if fd >= 0 {
        fd
    } else {
        -fd
    };
    let rda = if rd >= 0 {
        rd
    } else {
        -rd
    };
    if fda >= rda {
        fda
    } else {
        rda
    }
}

/// Distance of a square from its nearest corner; 0 in a corner, 6 in the
/// center.
pub fn corner_distance(sq: u8) -> (r: i32)
    requires
        sq < 64,
    ensures
        r == spec_corner_distance(sq),
        0 <= r <= 6,
{
    let f = (sq % 8) as i32;
    let rk = (sq / 8) as i32;
    let fd = if f <= 7 - f {
        f
    } else {
        7 - f
    };
    let rd = if rk <= 7 - rk {
        rk
    } else {
        7 - rk
    };
    fd + rd
}

/// Distance of a square from the center; 0 on the four center squares.
pub fn center_distance(sq: u8) -> (r: i32)
    requires
        sq < 64,
    ensures
        r == spec_center_distance(sq),
        0 <= r <= 6,
{
    let f = (sq % 8) as i32;
    let rk = (sq / 8) as i32;
    let fd = if f <= 3 {
        3 - f
    } else {
        f - 4
    };
    let rd = if rk <= 3 {
        3 - rk
    } else {
        rk - 4
    };
    fd + rd
}

/// Chebyshev distance between two squares.
pub fn king_distance(a: u8, b: u8) -> (r: i32)
    requires
        a < 64,
        b < 64,
    ensures
        r == spec_king_distance(a, b),
        0 <= r <= 7,
{
    let fd = (a % 8) as i32 - (b % 8) as i32;
    let rd = (a / 8) as i32 - (b / 8) as i32;
    let fda = if fd >= 0 {
        fd
    } else {
        -fd
    };
    let rda = if rd >= 0 {
        rd
    } else {
        -rd
    };
    if fda >= rda {
        fda
    } else {
        rda
    }
}

/// Material balance in this module's piece values, positive when white is
/// ahead.
pub open spec fn spec_material_balance(pos: Position) -> int {
    100 * (spec_popcount(pos.pawns & pos.white) - spec_popcount(pos.pawns & pos.black)) + 320 * (
    spec_popcount(pos.knights & pos.white) - spec_popcount(pos.knights & pos.black)) + 330 * (
    spec_popcount(pos.bishops & pos.white) - spec_popcount(pos.bishops & pos.black)) + 500 * (
    spec_popcount(pos.rooks & pos.white) - spec_popcount(pos.rooks & pos.black)) + 900 * (
    spec_popcount(pos.queens & pos.white) - spec_popcount(pos.queens & pos.black))
}

/// Material balance, positive when white is ahead.
pub fn material_balance(pos: &Position) -> (r: i32)
    ensures
        r == spec_material_balance(*pos),
        -150000 <= r <= 150000,
{
    let mut r: i32 = 0;
    r = r + 100 * (popcount(pos.pawns & pos.white) as i32 - popcount(pos.pawns & pos.black) as i32);
    r = r + 320 * (popcount(pos.knights & pos.white) as i32 - popcount(
        pos.knights & pos.black,
    ) as i32);
    r = r + 330 * (popcount(pos.bishops & pos.white) as i32 - popcount(
        pos.bishops & pos.black,
    ) as i32);
    r = r + 500 * (popcount(pos.rooks & pos.white) as i32 - popcount(pos.rooks & pos.black) as i32);
    r = r + 900 * (popcount(pos.queens & pos.white) as i32 - popcount(
        pos.queens & pos.black,
    ) as i32);
    r
}

/// Whether the endgame evaluation applies: very few minor and major pieces
/// remain, or few remain and one side has a clear material edge.
pub open spec fn spec_should_use_endgame(pos: Position) -> bool {
    let pieces = spec_popcount(pos.knights | pos.bishops | pos.rooks | pos.queens);
    ||| pieces <= 3
    ||| (pieces <= ENDGAME_PIECE_THRESHOLD && (spec_material_balance(pos)
        >= MATERIAL_ADVANTAGE_THRESHOLD || spec_material_balance(pos)
        <= -MATERIAL_ADVANTAGE_THRESHOLD))
}

/// Whether the endgame evaluation applies to this position.
pub fn should_use_endgame(pos: &Position) -> (r: bool)
    ensures
        r == spec_should_use_endgame(*pos),
{
    let non_pawn_king = pos.piece_bb(Piece::Knight) | pos.piece_bb(Piece::Bishop) | pos.piece_bb(
        Piece::Rook,
    ) | pos.piece_bb(Piece::Queen);
    let piece_count = popcount(non_pawn_king);
    if piece_count <= 3 {
        return true;
    }
    if piece_count <= ENDGAME_PIECE_THRESHOLD {
        let material = material_balance(pos);
        if material >= MATERIAL_ADVANTAGE_THRESHOLD || material <= -MATERIAL_ADVANTAGE_THRESHOLD {
            return true;
        }
    }
    false
}

/// Bonus of one square's passed pawn for one side, in this module's single
/// scale: steeply rising with advancement.
pub open spec fn spec_eg_passed_sq(pos: Position, c: Color, sq: u8) -> int {
    if pos.spec_piece_at(sq) == Some((Piece::Pawn, c)) && hce::spec_is_passed(pos, c, sq) {
        let adv = hce::spec_advancement(c, sq);
        if adv == 6 {
            200
        } else if adv == 5 {
            120
        } else if adv == 4 {
            60
        } else if adv == 3 {
            30
        } else if adv == 2 {
            15
        } else {
            5
        }
    } else {
        0
    }
}

/// One side's passed-pawn bonus over the first `n` squares.
pub open spec fn spec_eg_passed(pos: Position, c: Color, n: int) -> int
    decreases n,
{
    if n <= 0 {
        0
    } else {
        spec_eg_passed(pos, c, n - 1) + spec_eg_passed_sq(pos, c, (n - 1) as u8)
    }
}

/// The passed-pawn sum is bounded by the largest bonus per square.
proof fn lemma_eg_passed_bounded(pos: Position, c: Color, n: int)
    requires
        0 <= n <= 64,
    ensures
        0 <= spec_eg_passed(pos, c, n) <= n * 200,
    decreases n,
{
    if n > 0 {
        lemma_eg_passed_bounded(pos, c, n - 1);
    }
}

/// One side's passed pawns, weighted by their advancement.
pub fn passed_pawn_bonus(pos: &Position, c: Color) -> (r: i32)
    ensures
        r == spec_eg_passed(*pos, c, 64),
        0 <= r <= 64 * 200,
{
    let enemy_pawns = pos.piece_bb(Piece::Pawn) & pos.color_bb(c.flip());
    let mut bonus: i32 = 0;
    let mut sq: u8 = 0;
    while sq < 64
        invariant
            sq <= 64,
            bonus == spec_eg_passed(*pos, c, sq as int),
            0 <= bonus <= 64 * 200,
            enemy_pawns == pos.pawns & pos.spec_color_bb(c.spec_flip()),
        decreases 64 - sq,
    {
        proof {
            lemma_eg_passed_bounded(*pos, c, sq as int + 1);
        }
        let own_pawn = match pos.piece_at(sq) {
            Some(pc) => pc.0 == Piece::Pawn && pc.1 == c,
            None => false,
        };
        if own_pawn {
            let mask = hce::passed_mask(c, sq);
            if enemy_pawns & mask == 0 {
                let adv = if matches!(c, Color::White) {
                    (sq / 8) as i32
                } else {
                    7 - (sq / 8) as i32
                };
                bonus = bonus + if adv == 6 {
                    200
                } else if adv == 5 {
                    120
                } else if adv == 4 {
                    60
                } else if adv == 3 {
                    30
                } else if adv == 2 {
                    15
                } else {
                    5
                };
            }
        }
        sq = sq + 1;
    }
    bonus
}

/// The endgame score of a position with a clear material leader, from
/// white's perspective, before the side-to-move sign: scaled material, the
/// king-driving terms, passed pawns, and the hash-derived variety term.
pub open spec fn spec_endgame_core(pos: Position) -> int {
    let material = spec_material_balance(pos);
    let winning = if material > 50 {
        Color::White
    } else {
        Color::Black
    };
    let losing = winning.spec_flip();
    let wk = pos.spec_king_square(winning);
    let lk = pos.spec_king_square(losing);
    let corner_bonus = (6 - spec_corner_distance(lk)) * 40;
    let corner_trap: int = if spec_corner_distance(lk) == 0 {
        100
    } else {
        0
    };
    let proximity_bonus = (7 - spec_king_distance(wk, lk)) * 25;
    let edge_bonus = spec_center_distance(lk) * 20;
    let edge_trap: int = if spec_center_distance(lk) >= 3 {
        50
    } else {
        0
    };
    let centralization = (4 - spec_center_distance(wk)) * 10;
    let endgame_bonus = corner_bonus + corner_trap + proximity_bonus + edge_bonus + edge_trap
        + centralization;
    let signed_bonus = if winning == Color::White {
        endgame_bonus
    } else {
        -endgame_bonus
    };
    let passed_diff = spec_eg_passed(pos, Color::White, 64) - spec_eg_passed(pos, Color::Black, 64);
    let hash_component = (pos.hash % 11) as int - 5;
    let scaled_material: int = if material > 300 || material < -300 {
        material * 2
    } else {
        material
    };
    scaled_material + signed_bonus + passed_diff + (if material > 100 || material < -100 {
        hash_component
    } else {
        0
    })
}

/// The endgame evaluation from the side to move's perspective: near
/// material equality it is the tapered evaluation; otherwise the endgame
/// score, clamped into the ordinary centipawn range.
pub open spec fn spec_endgame_eval(pos: Position) -> int {
    let material = spec_material_balance(pos);
    if -50 <= material <= 50 {
        hce::spec_hce(pos)
    } else {
        let score = spec_endgame_core(pos);
        let persp = if pos.turn == Color::White {
            score
        } else {
            -score
        };
        hce::spec_clamp_cp(persp)
    }
}

/// Evaluate an endgame position from the side to move's perspective.
#[verifier::rlimit(100)]
pub fn evaluate(pos: &Position) -> (r: Score)
    requires
        pos.wf(),
    ensures
        r.value() == spec_endgame_eval(*pos),
        r.spec_valid(),
{
    let material = material_balance(pos);
    if -50 <= material && material <= 50 {
        return hce::evaluate(pos);
    }
    let winning = if material > 50 {
        Color::White
    } else {
        Color::Black
    };
    let losing = winning.flip();
    let winner_king = pos.king_square(winning);
    let loser_king = pos.king_square(losing);
    let material_mult: i32 = if material > 300 || material < -300 {
        2
    } else {
        1
    };
    let mut score: i64 = if material_mult == 2 {
        material as i64 * 2
    } else {
        material as i64
    };
    let loser_corner_dist = corner_distance(loser_king);
    let corner_bonus = (6 - loser_corner_dist) * 40;
    let corner_trap: i32 = if loser_corner_dist == 0 {
        100
    } else {
        0
    };
    let king_dist = king_distance(winner_king, loser_king);
    let proximity_bonus = (7 - king_dist) * 25;
    let loser_center_dist = center_distance(loser_king);
    let edge_bonus = loser_center_dist * 20;
    let edge_trap: i32 = if loser_center_dist >= 3 {
        50
    } else {
        0
    };
    let winner_center_dist = center_distance(winner_king);
    let centralization = (4 - winner_center_dist) * 10;
    let endgame_bonus = corner_bonus + corner_trap + proximity_bonus + edge_bonus + edge_trap
        + centralization;
    let white_passed = passed_pawn_bonus(pos, Color::White);
    let black_passed = passed_pawn_bonus(pos, Color::Black);
    let passed_diff = white_passed as i64 - black_passed as i64;
    if matches!(winning, Color::White) {
        score = score + endgame_bonus as i64;
    } else {
        score = score - endgame_bonus as i64;
    }
    score = score + passed_diff;
    let hash_component = (pos.hash() % 11) as i64 - 5;
    if material > 100 || material < -100 {
        score = score + hash_component;
    }
    let persp = if matches!(pos.turn, Color::White) {
        score
    } else {
        -score
    };
    let clamped = if persp < -20000 {
        -20000i64
    } else if persp > 20000 {
        20000i64
    } else {
        persp
    };
    Score::cp(clamped as i32)
}

} // verus!
