//! Hand-crafted evaluation: a tapered score.
//!
//! Middlegame and endgame components are computed from material values,
//! piece-square tables, the bishop pair, passed pawns and an endgame
//! king-activity term, then blended by the game phase and given from the
//! side to move's perspective. The result is clamped into the ordinary
//! centipawn range of the score type.

use vstd::prelude::*;
use crate::types::{Piece, Color};
use crate::position::{Position, spec_popcount, popcount, spec_square_bb, square_bb};
use crate::score::Score;
use crate::endgame::{
    spec_corner_distance,
    spec_center_distance,
    spec_king_distance,
    corner_distance,
    center_distance,
    king_distance,
};

verus! {

/// Middlegame piece-square table, piece by piece, from white's
/// perspective: 64 pawn entries first, king entries last.
#[verifier::opaque]
pub open spec fn spec_pst_mg() -> Seq<i32> {
    seq![
        0i32, 0i32, 0i32, 0i32, 0i32, 0i32, 0i32, 0i32,
        50i32, 50i32, 50i32, 50i32, 50i32, 50i32, 50i32, 50i32,
        10i32, 10i32, 20i32, 30i32, 30i32, 20i32, 10i32, 10i32,
        5i32, 5i32, 10i32, 25i32, 25i32, 10i32, 5i32, 5i32,
        0i32, 0i32, 0i32, 20i32, 20i32, 0i32, 0i32, 0i32,
        5i32, -5i32, -10i32, 0i32, 0i32, -10i32, -5i32, 5i32,
        5i32, 10i32, 10i32, -20i32, -20i32, 10i32, 10i32, 5i32,
        0i32, 0i32, 0i32, 0i32, 0i32, 0i32, 0i32, 0i32,
        -50i32, -40i32, -30i32, -30i32, -30i32, -30i32, -40i32, -50i32,
        -40i32, -20i32, 0i32, 0i32, 0i32, 0i32, -20i32, -40i32,
        -30i32, 0i32, 10i32, 15i32, 15i32, 10i32, 0i32, -30i32,
        -30i32, 5i32, 15i32, 20i32, 20i32, 15i32, 5i32, -30i32,
        -30i32, 0i32, 15i32, 20i32, 20i32, 15i32, 0i32, -30i32,
        -30i32, 5i32, 10i32, 15i32, 15i32, 10i32, 5i32, -30i32,
        -40i32, -20i32, 0i32, 5i32, 5i32, 0i32, -20i32, -40i32,
        -50i32, -40i32, -30i32, -30i32, -30i32, -30i32, -40i32, -50i32,
        -20i32, -10i32, -10i32, -10i32, -10i32, -10i32, -10i32, -20i32,
        -10i32, 0i32, 0i32, 0i32, 0i32, 0i32, 0i32, -10i32,
        -10i32, 0i32, 5i32, 10i32, 10i32, 5i32, 0i32, -10i32,
        -10i32, 5i32, 5i32, 10i32, 10i32, 5i32, 5i32, -10i32,
        -10i32, 0i32, 10i32, 10i32, 10i32, 10i32, 0i32, -10i32,
        -10i32, 10i32, 10i32, 10i32, 10i32, 10i32, 10i32, -10i32,
        -10i32, 5i32, 0i32, 0i32, 0i32, 0i32, 5i32, -10i32,
        -20i32, -10i32, -10i32, -10i32, -10i32, -10i32, -10i32, -20i32,
        0i32, 0i32, 0i32, 0i32, 0i32, 0i32, 0i32, 0i32,
        5i32, 10i32, 10i32, 10i32, 10i32, 10i32, 10i32, 5i32,
        -5i32, 0i32, 0i32, 0i32, 0i32, 0i32, 0i32, -5i32,
        -5i32, 0i32, 0i32, 0i32, 0i32, 0i32, 0i32, -5i32,
        -5i32, 0i32, 0i32, 0i32, 0i32, 0i32, 0i32, -5i32,
        -5i32, 0i32, 0i32, 0i32, 0i32, 0i32, 0i32, -5i32,
        -5i32, 0i32, 0i32, 0i32, 0i32, 0i32, 0i32, -5i32,
        0i32, 0i32, 0i32, 5i32, 5i32, 0i32, 0i32, 0i32,
        -20i32, -10i32, -10i32, -5i32, -5i32, -10i32, -10i32, -20i32,
        -10i32, 0i32, 0i32, 0i32, 0i32, 0i32, 0i32, -10i32,
        -10i32, 0i32, 5i32, 5i32, 5i32, 5i32, 0i32, -10i32,
        -5i32, 0i32, 5i32, 5i32, 5i32, 5i32, 0i32, -5i32,
        0i32, 0i32, 5i32, 5i32, 5i32, 5i32, 0i32, -5i32,
        -10i32, 5i32, 5i32, 5i32, 5i32, 5i32, 0i32, -10i32,
        -10i32, 0i32, 5i32, 0i32, 0i32, 0i32, 0i32, -10i32,
        -20i32, -10i32, -10i32, -5i32, -5i32, -10i32, -10i32, -20i32,
        -30i32, -40i32, -40i32, -50i32, -50i32, -40i32, -40i32, -30i32,
        -30i32, -40i32, -40i32, -50i32, -50i32, -40i32, -40i32, -30i32,
        -30i32, -40i32, -40i32, -50i32, -50i32, -40i32, -40i32, -30i32,
        -30i32, -40i32, -40i32, -50i32, -50i32, -40i32, -40i32, -30i32,
        -20i32, -30i32, -30i32, -40i32, -40i32, -30i32, -30i32, -20i32,
        -10i32, -20i32, -20i32, -20i32, -20i32, -20i32, -20i32, -10i32,
        20i32, 20i32, 0i32, 0i32, 0i32, 0i32, 20i32, 20i32,
        20i32, 30i32, 10i32, 0i32, 0i32, 10i32, 30i32, 20i32,
    ]
}

/// Endgame piece-square table, laid out as the middlegame one.
#[verifier::opaque]
pub open spec fn spec_pst_eg() -> Seq<i32> {
    seq![
        0i32, 0i32, 0i32, 0i32, 0i32, 0i32, 0i32, 0i32,
        100i32, 100i32, 100i32, 100i32, 100i32, 100i32, 100i32, 100i32,
        60i32, 60i32, 60i32, 60i32, 60i32, 60i32, 60i32, 60i32,
        40i32, 40i32, 40i32, 40i32, 40i32, 40i32, 40i32, 40i32,
        25i32, 25i32, 25i32, 25i32, 25i32, 25i32, 25i32, 25i32,
        10i32, 10i32, 10i32, 10i32, 10i32, 10i32, 10i32, 10i32,
        5i32, 5i32, 5i32, 5i32, 5i32, 5i32, 5i32, 5i32,
        0i32, 0i32, 0i32, 0i32, 0i32, 0i32, 0i32, 0i32,
        -50i32, -40i32, -30i32, -30i32, -30i32, -30i32, -40i32, -50i32,
        -40i32, -20i32, 0i32, 0i32, 0i32, 0i32, -20i32, -40i32,
        -30i32, 0i32, 10i32, 15i32, 15i32, 10i32, 0i32, -30i32,
        -30i32, 5i32, 15i32, 20i32, 20i32, 15i32, 5i32, -30i32,
        -30i32, 0i32, 15i32, 20i32, 20i32, 15i32, 0i32, -30i32,
        -30i32, 5i32, 10i32, 15i32, 15i32, 10i32, 5i32, -30i32,
        -40i32, -20i32, 0i32, 5i32, 5i32, 0i32, -20i32, -40i32,
        -50i32, -40i32, -30i32, -30i32, -30i32, -30i32, -40i32, -50i32,
        -20i32, -10i32, -10i32, -10i32, -10i32, -10i32, -10i32, -20i32,
        -10i32, 0i32, 0i32, 0i32, 0i32, 0i32, 0i32, -10i32,
        -10i32, 0i32, 5i32, 10i32, 10i32, 5i32, 0i32, -10i32,
        -10i32, 5i32, 5i32, 10i32, 10i32, 5i32, 5i32, -10i32,
        -10i32, 0i32, 10i32, 10i32, 10i32, 10i32, 0i32, -10i32,
        -10i32, 10i32, 10i32, 10i32, 10i32, 10i32, 10i32, -10i32,
        -10i32, 5i32, 0i32, 0i32, 0i32, 0i32, 5i32, -10i32,
        -20i32, -10i32, -10i32, -10i32, -10i32, -10i32, -10i32, -20i32,
        0i32, 0i32, 0i32, 0i32, 0i32, 0i32, 0i32, 0i32,
        5i32, 10i32, 10i32, 10i32, 10i32, 10i32, 10i32, 5i32,
        -5i32, 0i32, 0i32, 0i32, 0i32, 0i32, 0i32, -5i32,
        -5i32, 0i32, 0i32, 0i32, 0i32, 0i32, 0i32, -5i32,
        -5i32, 0i32, 0i32, 0i32, 0i32, 0i32, 0i32, -5i32,
        -5i32, 0i32, 0i32, 0i32, 0i32, 0i32, 0i32, -5i32,
        -5i32, 0i32, 0i32, 0i32, 0i32, 0i32, 0i32, -5i32,
        0i32, 0i32, 0i32, 5i32, 5i32, 0i32, 0i32, 0i32,
        -20i32, -10i32, -10i32, -5i32, -5i32, -10i32, -10i32, -20i32,
        -10i32, 0i32, 0i32, 0i32, 0i32, 0i32, 0i32, -10i32,
        -10i32, 0i32, 5i32, 5i32, 5i32, 5i32, 0i32, -10i32,
        -5i32, 0i32, 5i32, 5i32, 5i32, 5i32, 0i32, -5i32,
        0i32, 0i32, 5i32, 5i32, 5i32, 5i32, 0i32, -5i32,
        -10i32, 5i32, 5i32, 5i32, 5i32, 5i32, 0i32, -10i32,
        -10i32, 0i32, 5i32, 0i32, 0i32, 0i32, 0i32, -10i32,
        -20i32, -10i32, -10i32, -5i32, -5i32, -10i32, -10i32, -20i32,
        -50i32, -40i32, -30i32, -20i32, -20i32, -30i32, -40i32, -50i32,
        -30i32, -20i32, -10i32, 0i32, 0i32, -10i32, -20i32, -30i32,
        -30i32, -10i32, 20i32, 30i32, 30i32, 20i32, -10i32, -30i32,
        -30i32, -10i32, 30i32, 40i32, 40i32, 30i32, -10i32, -30i32,
        -30i32, -10i32, 30i32, 40i32, 40i32, 30i32, -10i32, -30i32,
        -30i32, -10i32, 20i32, 30i32, 30i32, 20i32, -10i32, -30i32,
        -30i32, -30i32, 0i32, 0i32, 0i32, 0i32, -30i32, -30i32,
        -50i32, -30i32, -30i32, -30i32, -30i32, -30i32, -30i32, -50i32,
    ]
}

/// Middlegame material value of a piece.
pub open spec fn spec_mat_mg(p: Piece) -> int {
    match p {
        Piece::Pawn => 100,
        Piece::Knight => 320,
        Piece::Bishop => 330,
        Piece::Rook => 500,
        Piece::Queen => 950,
        Piece::King => 0,
    }
}

/// Endgame material value of a piece.
pub open spec fn spec_mat_eg(p: Piece) -> int {
    match p {
        Piece::Pawn => 120,
        Piece::Knight => 300,
        Piece::Bishop => 320,
        Piece::Rook => 550,
        Piece::Queen => 1000,
        Piece::King => 0,
    }
}

/// The table row index of a piece on a square for one side: black reads
/// squares as they are, white flips the rank.
pub open spec fn spec_pst_index(p: Piece, c: Color, sq: u8) -> int {
    p.spec_index() * 64 + (if c == Color::White {
        (sq ^ 56) as int
    } else {
        sq as int
    })
}

/// Both piece-square tables as vectors, in the layout of the spec tables.
pub fn pst_tables() -> (r: (Vec<i32>, Vec<i32>))
    ensures
        r.0@ =~= spec_pst_mg(),
        r.1@ =~= spec_pst_eg(),
{
    proof {
        reveal(spec_pst_mg);
        reveal(spec_pst_eg);
    }
    let mg: Vec<i32> = vec![
        0i32, 0i32, 0i32, 0i32, 0i32, 0i32, 0i32, 0i32,
        50i32, 50i32, 50i32, 50i32, 50i32, 50i32, 50i32, 50i32,
        10i32, 10i32, 20i32, 30i32, 30i32, 20i32, 10i32, 10i32,
        5i32, 5i32, 10i32, 25i32, 25i32, 10i32, 5i32, 5i32,
        0i32, 0i32, 0i32, 20i32, 20i32, 0i32, 0i32, 0i32,
        5i32, -5i32, -10i32, 0i32, 0i32, -10i32, -5i32, 5i32,
        5i32, 10i32, 10i32, -20i32, -20i32, 10i32, 10i32, 5i32,
        0i32, 0i32, 0i32, 0i32, 0i32, 0i32, 0i32, 0i32,
        -50i32, -40i32, -30i32, -30i32, -30i32, -30i32, -40i32, -50i32,
        -40i32, -20i32, 0i32, 0i32, 0i32, 0i32, -20i32, -40i32,
        -30i32, 0i32, 10i32, 15i32, 15i32, 10i32, 0i32, -30i32,
        -30i32, 5i32, 15i32, 20i32, 20i32, 15i32, 5i32, -30i32,
        -30i32, 0i32, 15i32, 20i32, 20i32, 15i32, 0i32, -30i32,
        -30i32, 5i32, 10i32, 15i32, 15i32, 10i32, 5i32, -30i32,
        -40i32, -20i32, 0i32, 5i32, 5i32, 0i32, -20i32, -40i32,
        -50i32, -40i32, -30i32, -30i32, -30i32, -30i32, -40i32, -50i32,
        -20i32, -10i32, -10i32, -10i32, -10i32, -10i32, -10i32, -20i32,
        -10i32, 0i32, 0i32, 0i32, 0i32, 0i32, 0i32, -10i32,
        -10i32, 0i32, 5i32, 10i32, 10i32, 5i32, 0i32, -10i32,
        -10i32, 5i32, 5i32, 10i32, 10i32, 5i32, 5i32, -10i32,
        -10i32, 0i32, 10i32, 10i32, 10i32, 10i32, 0i32, -10i32,
        -10i32, 10i32, 10i32, 10i32, 10i32, 10i32, 10i32, -10i32,
        -10i32, 5i32, 0i32, 0i32, 0i32, 0i32, 5i32, -10i32,
        -20i32, -10i32, -10i32, -10i32, -10i32, -10i32, -10i32, -20i32,
        0i32, 0i32, 0i32, 0i32, 0i32, 0i32, 0i32, 0i32,
        5i32, 10i32, 10i32, 10i32, 10i32, 10i32, 10i32, 5i32,
        -5i32, 0i32, 0i32, 0i32, 0i32, 0i32, 0i32, -5i32,
        -5i32, 0i32, 0i32, 0i32, 0i32, 0i32, 0i32, -5i32,
        -5i32, 0i32, 0i32, 0i32, 0i32, 0i32, 0i32, -5i32,
        -5i32, 0i32, 0i32, 0i32, 0i32, 0i32, 0i32, -5i32,
        -5i32, 0i32, 0i32, 0i32, 0i32, 0i32, 0i32, -5i32,
        0i32, 0i32, 0i32, 5i32, 5i32, 0i32, 0i32, 0i32,
        -20i32, -10i32, -10i32, -5i32, -5i32, -10i32, -10i32, -20i32,
        -10i32, 0i32, 0i32, 0i32, 0i32, 0i32, 0i32, -10i32,
        -10i32, 0i32, 5i32, 5i32, 5i32, 5i32, 0i32, -10i32,
        -5i32, 0i32, 5i32, 5i32, 5i32, 5i32, 0i32, -5i32,
        0i32, 0i32, 5i32, 5i32, 5i32, 5i32, 0i32, -5i32,
        -10i32, 5i32, 5i32, 5i32, 5i32, 5i32, 0i32, -10i32,
        -10i32, 0i32, 5i32, 0i32, 0i32, 0i32, 0i32, -10i32,
        -20i32, -10i32, -10i32, -5i32, -5i32, -10i32, -10i32, -20i32,
        -30i32, -40i32, -40i32, -50i32, -50i32, -40i32, -40i32, -30i32,
        -30i32, -40i32, -40i32, -50i32, -50i32, -40i32, -40i32, -30i32,
        -30i32, -40i32, -40i32, -50i32, -50i32, -40i32, -40i32, -30i32,
        -30i32, -40i32, -40i32, -50i32, -50i32, -40i32, -40i32, -30i32,
        -20i32, -30i32, -30i32, -40i32, -40i32, -30i32, -30i32, -20i32,
        -10i32, -20i32, -20i32, -20i32, -20i32, -20i32, -20i32, -10i32,
        20i32, 20i32, 0i32, 0i32, 0i32, 0i32, 20i32, 20i32,
        20i32, 30i32, 10i32, 0i32, 0i32, 10i32, 30i32, 20i32,
    ];
    let eg: Vec<i32> = vec![
        0i32, 0i32, 0i32, 0i32, 0i32, 0i32, 0i32, 0i32,
        100i32, 100i32, 100i32, 100i32, 100i32, 100i32, 100i32, 100i32,
        60i32, 60i32, 60i32, 60i32, 60i32, 60i32, 60i32, 60i32,
        40i32, 40i32, 40i32, 40i32, 40i32, 40i32, 40i32, 40i32,
        25i32, 25i32, 25i32, 25i32, 25i32, 25i32, 25i32, 25i32,
        10i32, 10i32, 10i32, 10i32, 10i32, 10i32, 10i32, 10i32,
        5i32, 5i32, 5i32, 5i32, 5i32, 5i32, 5i32, 5i32,
        0i32, 0i32, 0i32, 0i32, 0i32, 0i32, 0i32, 0i32,
        -50i32, -40i32, -30i32, -30i32, -30i32, -30i32, -40i32, -50i32,
        -40i32, -20i32, 0i32, 0i32, 0i32, 0i32, -20i32, -40i32,
        -30i32, 0i32, 10i32, 15i32, 15i32, 10i32, 0i32, -30i32,
        -30i32, 5i32, 15i32, 20i32, 20i32, 15i32, 5i32, -30i32,
        -30i32, 0i32, 15i32, 20i32, 20i32, 15i32, 0i32, -30i32,
        -30i32, 5i32, 10i32, 15i32, 15i32, 10i32, 5i32, -30i32,
        -40i32, -20i32, 0i32, 5i32, 5i32, 0i32, -20i32, -40i32,
        -50i32, -40i32, -30i32, -30i32, -30i32, -30i32, -40i32, -50i32,
        -20i32, -10i32, -10i32, -10i32, -10i32, -10i32, -10i32, -20i32,
        -10i32, 0i32, 0i32, 0i32, 0i32, 0i32, 0i32, -10i32,
        -10i32, 0i32, 5i32, 10i32, 10i32, 5i32, 0i32, -10i32,
        -10i32, 5i32, 5i32, 10i32, 10i32, 5i32, 5i32, -10i32,
        -10i32, 0i32, 10i32, 10i32, 10i32, 10i32, 0i32, -10i32,
        -10i32, 10i32, 10i32, 10i32, 10i32, 10i32, 10i32, -10i32,
        -10i32, 5i32, 0i32, 0i32, 0i32, 0i32, 5i32, -10i32,
        -20i32, -10i32, -10i32, -10i32, -10i32, -10i32, -10i32, -20i32,
        0i32, 0i32, 0i32, 0i32, 0i32, 0i32, 0i32, 0i32,
        5i32, 10i32, 10i32, 10i32, 10i32, 10i32, 10i32, 5i32,
        -5i32, 0i32, 0i32, 0i32, 0i32, 0i32, 0i32, -5i32,
        -5i32, 0i32, 0i32, 0i32, 0i32, 0i32, 0i32, -5i32,
        -5i32, 0i32, 0i32, 0i32, 0i32, 0i32, 0i32, -5i32,
        -5i32, 0i32, 0i32, 0i32, 0i32, 0i32, 0i32, -5i32,
        -5i32, 0i32, 0i32, 0i32, 0i32, 0i32, 0i32, -5i32,
        0i32, 0i32, 0i32, 5i32, 5i32, 0i32, 0i32, 0i32,
        -20i32, -10i32, -10i32, -5i32, -5i32, -10i32, -10i32, -20i32,
        -10i32, 0i32, 0i32, 0i32, 0i32, 0i32, 0i32, -10i32,
        -10i32, 0i32, 5i32, 5i32, 5i32, 5i32, 0i32, -10i32,
        -5i32, 0i32, 5i32, 5i32, 5i32, 5i32, 0i32, -5i32,
        0i32, 0i32, 5i32, 5i32, 5i32, 5i32, 0i32, -5i32,
        -10i32, 5i32, 5i32, 5i32, 5i32, 5i32, 0i32, -10i32,
        -10i32, 0i32, 5i32, 0i32, 0i32, 0i32, 0i32, -10i32,
        -20i32, -10i32, -10i32, -5i32, -5i32, -10i32, -10i32, -20i32,
        -50i32, -40i32, -30i32, -20i32, -20i32, -30i32, -40i32, -50i32,
        -30i32, -20i32, -10i32, 0i32, 0i32, -10i32, -20i32, -30i32,
        -30i32, -10i32, 20i32, 30i32, 30i32, 20i32, -10i32, -30i32,
        -30i32, -10i32, 30i32, 40i32, 40i32, 30i32, -10i32, -30i32,
        -30i32, -10i32, 30i32, 40i32, 40i32, 30i32, -10i32, -30i32,
        -30i32, -10i32, 20i32, 30i32, 30i32, 20i32, -10i32, -30i32,
        -30i32, -30i32, 0i32, 0i32, 0i32, 0i32, -30i32, -30i32,
        -50i32, -30i32, -30i32, -30i32, -30i32, -30i32, -30i32, -50i32,
    ];
    assert(mg@ =~= spec_pst_mg());
    assert(eg@ =~= spec_pst_eg());
    (mg, eg)
}

/// The table row of a piece on a square for one side.
pub fn pst_lookup(tables: &(Vec<i32>, Vec<i32>), p: Piece, c: Color, sq: u8) -> (r: (i32, i32))
    requires
        sq < 64,
        tables.0@ =~= spec_pst_mg(),
        tables.1@ =~= spec_pst_eg(),
    ensures
        r.0 == spec_pst_mg()[spec_pst_index(p, c, sq)],
        r.1 == spec_pst_eg()[spec_pst_index(p, c, sq)],
{
    proof {
        reveal(spec_pst_mg);
        reveal(spec_pst_eg);
        assert(spec_pst_mg().len() == 384);
        assert(spec_pst_eg().len() == 384);
    }
    let fold: usize = if matches!(c, Color::White) {
        assert(sq < 64 ==> (sq ^ 56) < 64) by (bit_vector);
        (sq ^ 56) as usize
    } else {
        sq as usize
    };
    let idx = p.index() * 64 + fold;
    (tables.0[idx], tables.1[idx])
}

/// The middlegame worth of whatever stands on one square for one side:
/// material plus table entry, zero for the other side's pieces and empty
/// squares.
pub open spec fn spec_sq_mg(pos: Position, c: Color, sq: u8) -> int {
    match pos.spec_piece_at(sq) {
        Some(pc) => if pc.1 == c {
            spec_mat_mg(pc.0) + spec_pst_mg()[spec_pst_index(pc.0, c, sq)]
        } else {
            0
        },
        None => 0,
    }
}

/// The endgame worth of whatever stands on one square for one side.
pub open spec fn spec_sq_eg(pos: Position, c: Color, sq: u8) -> int {
    match pos.spec_piece_at(sq) {
        Some(pc) => if pc.1 == c {
            spec_mat_eg(pc.0) + spec_pst_eg()[spec_pst_index(pc.0, c, sq)]
        } else {
            0
        },
        None => 0,
    }
}

/// One side's middlegame material-and-table score over the first `n`
/// squares.
pub open spec fn spec_color_mg(pos: Position, c: Color, n: int) -> int
    decreases n,
{
    if n <= 0 {
        0
    } else {
        spec_color_mg(pos, c, n - 1) + spec_sq_mg(pos, c, (n - 1) as u8)
    }
}

/// One side's endgame material-and-table score over the first `n` squares.
pub open spec fn spec_color_eg(pos: Position, c: Color, n: int) -> int
    decreases n,
{
    if n <= 0 {
        0
    } else {
        spec_color_eg(pos, c, n - 1) + spec_sq_eg(pos, c, (n - 1) as u8)
    }
}

/// Whether one side holds the bishop pair.
pub open spec fn spec_has_bishop_pair(pos: Position, c: Color) -> bool {
    spec_popcount(pos.bishops & pos.spec_color_bb(c)) >= 2
}

/// A square term is bounded by a material value plus a table entry.
proof fn lemma_color_sums_bounded(pos: Position, c: Color, n: int)
    requires
        0 <= n <= 64,
    ensures
        -n * 0x8000_1000 <= spec_color_mg(pos, c, n) <= n * 0x8000_1000,
        -n * 0x8000_1000 <= spec_color_eg(pos, c, n) <= n * 0x8000_1000,
    decreases n,
{
    if n > 0 {
        lemma_color_sums_bounded(pos, c, n - 1);
    }
}

/// One side's middlegame and endgame totals over the whole board,
/// bishop pair included, added into the accumulators with the sign of the
/// side: white adds, black subtracts.
pub fn eval_color<const IS_WHITE: bool>(pos: &Position, mg: &mut i64, eg: &mut i64)
    requires
        -0x1000_0000_0000 <= *old(mg) <= 0x1000_0000_0000,
        -0x1000_0000_0000 <= *old(eg) <= 0x1000_0000_0000,
    ensures
        ({
            let c = if IS_WHITE {
                Color::White
            } else {
                Color::Black
            };
            let pair_mg: int = if spec_has_bishop_pair(*pos, c) {
                35
            } else {
                0
            };
            let pair_eg: int = if spec_has_bishop_pair(*pos, c) {
                50
            } else {
                0
            };
            if IS_WHITE {
                &&& *final(mg) == *old(mg) + spec_color_mg(*pos, c, 64) + pair_mg
                &&& *final(eg) == *old(eg) + spec_color_eg(*pos, c, 64) + pair_eg
            } else {
                &&& *final(mg) == *old(mg) - spec_color_mg(*pos, c, 64) - pair_mg
                &&& *final(eg) == *old(eg) - spec_color_eg(*pos, c, 64) - pair_eg
            }
        }),
{
    let c = if IS_WHITE {
        Color::White
    } else {
        Color::Black
    };
    let tables = pst_tables();
    let mut mg_acc: i64 = 0;
    let mut eg_acc: i64 = 0;
    let mut sq: u8 = 0;
    while sq < 64
        invariant
            sq <= 64,
            mg_acc == spec_color_mg(*pos, c, sq as int),
            eg_acc == spec_color_eg(*pos, c, sq as int),
            -64 * 0x8000_1000 <= mg_acc <= 64 * 0x8000_1000,
            -64 * 0x8000_1000 <= eg_acc <= 64 * 0x8000_1000,
            tables.0@ =~= spec_pst_mg(),
            tables.1@ =~= spec_pst_eg(),
            c == if IS_WHITE {
                Color::White
            } else {
                Color::Black
            },
        decreases 64 - sq,
    {
        proof {
            lemma_color_sums_bounded(*pos, c, sq as int + 1);
        }
        match pos.piece_at(sq) {
            Some(pc) => {
                let same = match (pc.1, c) {
                    (Color::White, Color::White) => true,
                    (Color::Black, Color::Black) => true,
                    _ => false,
                };
                if same {
                    let (pst_mg, pst_eg) = pst_lookup(&tables, pc.0, c, sq);
                    let (mat_mg, mat_eg) = match pc.0 {
                        Piece::Pawn => (100i64, 120i64),
                        Piece::Knight => (320i64, 300i64),
                        Piece::Bishop => (330i64, 320i64),
                        Piece::Rook => (500i64, 550i64),
                        Piece::Queen => (950i64, 1000i64),
                        Piece::King => (0i64, 0i64),
                    };
                    mg_acc = mg_acc + mat_mg + pst_mg as i64;
                    eg_acc = eg_acc + mat_eg + pst_eg as i64;
                }
            },
            None => {},
        }
        sq = sq + 1;
    }
    proof {
        lemma_color_sums_bounded(*pos, c, 64);
    }
    let pair_bb = pos.piece_bb(Piece::Bishop) & pos.color_bb(c);
    if popcount(pair_bb) >= 2 {
        mg_acc = mg_acc + 35;
        eg_acc = eg_acc + 50;
    }
    if IS_WHITE {
        *mg = *mg + mg_acc;
        *eg = *eg + eg_acc;
    } else {
        *mg = *mg - mg_acc;
        *eg = *eg - eg_acc;
    }
}

/// Game phase from the remaining minor and major material: 0 is the full
/// middlegame, 256 the bare endgame.
pub open spec fn spec_phase(pos: Position) -> int {
    let m = spec_popcount(pos.knights) + spec_popcount(pos.bishops) + 2 * spec_popcount(pos.rooks)
        + 4 * spec_popcount(pos.queens);
    if m >= 24 {
        0
    } else {
        (24 - m) * 256 / 24
    }
}

/// Game phase of the position.
pub fn phase_of(pos: &Position) -> (r: i64)
    ensures
        r == spec_phase(*pos),
        0 <= r <= 256,
{
    let n = popcount(pos.piece_bb(Piece::Knight)) as i64;
    let b = popcount(pos.piece_bb(Piece::Bishop)) as i64;
    let rk = popcount(pos.piece_bb(Piece::Rook)) as i64;
    let q = popcount(pos.piece_bb(Piece::Queen)) as i64;
    let m = n + b + 2 * rk + 4 * q;
    if m >= 24 {
        0
    } else {
        (24 - m) * 256 / 24
    }
}

/// Whether a square blocks a pawn of color `c` on `sq` from passing: it
/// lies on the pawn's file or an adjacent file, strictly ahead of it.
pub open spec fn spec_blocks(c: Color, sq: u8, b: u8) -> bool {
    let f = sq as int % 8;
    let r = sq as int / 8;
    let bf = b as int % 8;
    let br = b as int / 8;
    &&& (bf == f || bf == f - 1 || bf == f + 1)
    &&& if c == Color::White {
        br > r
    } else {
        br < r
    }
}

/// The blocking mask of a pawn, over the first `n` squares.
pub open spec fn spec_passed_mask_upto(c: Color, sq: u8, n: int) -> u64
    decreases n,
{
    if n <= 0 {
        0u64
    } else if spec_blocks(c, sq, (n - 1) as u8) {
        spec_passed_mask_upto(c, sq, n - 1) | spec_square_bb((n - 1) as u8)
    } else {
        spec_passed_mask_upto(c, sq, n - 1)
    }
}

/// The squares that must be free of enemy pawns for a pawn to be passed:
/// its file and the adjacent files, strictly ahead.
pub open spec fn spec_passed_mask(c: Color, sq: u8) -> u64 {
    spec_passed_mask_upto(c, sq, 64)
}

/// Build the blocking mask of a pawn.
pub fn passed_mask(c: Color, sq: u8) -> (r: u64)
    requires
        sq < 64,
    ensures
        r == spec_passed_mask(c, sq),
{
    let mut mask: u64 = 0;
    let mut b: u8 = 0;
    while b < 64
        invariant
            b <= 64,
            sq < 64,
            mask == spec_passed_mask_upto(c, sq, b as int),
        decreases 64 - b,
    {
        let f = (sq % 8) as i32;
        let r = (sq / 8) as i32;
        let bf = (b % 8) as i32;
        let br = (b / 8) as i32;
        let file_ok = bf == f || bf == f - 1 || bf == f + 1;
        let rank_ok = if matches!(c, Color::White) {
            br > r
        } else {
            br < r
        };
        if file_ok && rank_ok {
            mask = mask | square_bb(b);
        }
        b = b + 1;
    }
    mask
}

/// The pawn's progress toward promotion: its rank seen from its own side.
pub open spec fn spec_advancement(c: Color, sq: u8) -> int {
    if c == Color::White {
        sq as int / 8
    } else {
        7 - sq as int / 8
    }
}

/// Middlegame bonus of a passed pawn by its advancement.
pub open spec fn spec_passed_bonus_mg(adv: int) -> int {
    if adv == 1 {
        5
    } else if adv == 2 {
        10
    } else if adv == 3 {
        20
    } else if adv == 4 {
        40
    } else if adv == 5 {
        70
    } else if adv == 6 {
        120
    } else {
        0
    }
}

/// Endgame bonus of a passed pawn by its advancement.
pub open spec fn spec_passed_bonus_eg(adv: int) -> int {
    if adv == 1 {
        10
    } else if adv == 2 {
        20
    } else if adv == 3 {
        40
    } else if adv == 4 {
        70
    } else if adv == 5 {
        120
    } else if adv == 6 {
        200
    } else {
        0
    }
}

/// Whether the pawn of color `c` on `sq` is passed: no enemy pawn stands
/// in its blocking mask.
pub open spec fn spec_is_passed(pos: Position, c: Color, sq: u8) -> bool {
    pos.pawns & pos.spec_color_bb(c.spec_flip()) & spec_passed_mask(c, sq) == 0
}

/// The middlegame passed-pawn term of one square for one side.
pub open spec fn spec_passed_sq_mg(pos: Position, c: Color, sq: u8) -> int {
    if pos.spec_piece_at(sq) == Some((Piece::Pawn, c)) && spec_is_passed(pos, c, sq) {
        spec_passed_bonus_mg(spec_advancement(c, sq))
    } else {
        0
    }
}

/// The endgame passed-pawn term of one square for one side.
pub open spec fn spec_passed_sq_eg(pos: Position, c: Color, sq: u8) -> int {
    if pos.spec_piece_at(sq) == Some((Piece::Pawn, c)) && spec_is_passed(pos, c, sq) {
        spec_passed_bonus_eg(spec_advancement(c, sq))
    } else {
        0
    }
}

/// One side's passed-pawn bonus over the first `n` squares, middlegame.
pub open spec fn spec_passed_mg(pos: Position, c: Color, n: int) -> int
    decreases n,
{
    if n <= 0 {
        0
    } else {
        spec_passed_mg(pos, c, n - 1) + spec_passed_sq_mg(pos, c, (n - 1) as u8)
    }
}

/// One side's passed-pawn bonus over the first `n` squares, endgame.
pub open spec fn spec_passed_eg(pos: Position, c: Color, n: int) -> int
    decreases n,
{
    if n <= 0 {
        0
    } else {
        spec_passed_eg(pos, c, n - 1) + spec_passed_sq_eg(pos, c, (n - 1) as u8)
    }
}

/// The passed-pawn sums are bounded by the largest bonus per square.
proof fn lemma_passed_bounded(pos: Position, c: Color, n: int)
    requires
        0 <= n <= 64,
    ensures
        0 <= spec_passed_mg(pos, c, n) <= n * 200,
        0 <= spec_passed_eg(pos, c, n) <= n * 200,
    decreases n,
{
    if n > 0 {
        lemma_passed_bounded(pos, c, n - 1);
    }
}

/// One side's passed-pawn terms: middlegame and endgame.
pub fn passed_pawn_terms(pos: &Position, c: Color) -> (r: (i64, i64))
    ensures
        r.0 == spec_passed_mg(*pos, c, 64),
        r.1 == spec_passed_eg(*pos, c, 64),
        0 <= r.0 <= 64 * 200,
        0 <= r.1 <= 64 * 200,
{
    let enemy_pawns = pos.piece_bb(Piece::Pawn) & pos.color_bb(c.flip());
    let mut mg: i64 = 0;
    let mut eg: i64 = 0;
    let mut sq: u8 = 0;
    while sq < 64
        invariant
            sq <= 64,
            mg == spec_passed_mg(*pos, c, sq as int),
            eg == spec_passed_eg(*pos, c, sq as int),
            0 <= mg <= 64 * 200,
            0 <= eg <= 64 * 200,
            enemy_pawns == pos.pawns & pos.spec_color_bb(c.spec_flip()),
        decreases 64 - sq,
    {
        proof {
            lemma_passed_bounded(*pos, c, sq as int + 1);
        }
        let own_pawn = match pos.piece_at(sq) {
            Some(pc) => pc.0 == Piece::Pawn && pc.1 == c,
            None => false,
        };
        if own_pawn {
            let mask = passed_mask(c, sq);
            if enemy_pawns & mask == 0 {
                let adv = if matches!(c, Color::White) {
                    (sq / 8) as i64
                } else {
                    7 - (sq / 8) as i64
                };
                let (bmg, beg): (i64, i64) = if adv == 1 {
                    (5, 10)
                } else if adv == 2 {
                    (10, 20)
                } else if adv == 3 {
                    (20, 40)
                } else if adv == 4 {
                    (40, 70)
                } else if adv == 5 {
                    (70, 120)
                } else if adv == 6 {
                    (120, 200)
                } else {
                    (0, 0)
                };
                mg = mg + bmg;
                eg = eg + beg;
            }
        }
        sq = sq + 1;
    }
    (mg, eg)
}

/// Material balance in middlegame values, positive when white is ahead.
pub open spec fn spec_balance_mg(pos: Position) -> int {
    100 * (spec_popcount(pos.pawns & pos.white) - spec_popcount(pos.pawns & pos.black)) + 320 * (
    spec_popcount(pos.knights & pos.white) - spec_popcount(pos.knights & pos.black)) + 330 * (
    spec_popcount(pos.bishops & pos.white) - spec_popcount(pos.bishops & pos.black)) + 500 * (
    spec_popcount(pos.rooks & pos.white) - spec_popcount(pos.rooks & pos.black)) + 950 * (
    spec_popcount(pos.queens & pos.white) - spec_popcount(pos.queens & pos.black))
}

/// Material balance in middlegame values.
pub fn balance_mg(pos: &Position) -> (r: i64)
    ensures
        r == spec_balance_mg(*pos),
        -200000 <= r <= 200000,
{
    let mut r: i64 = 0;
    r = r + 100 * (popcount(pos.pawns & pos.white) as i64 - popcount(pos.pawns & pos.black) as i64);
    r = r + 320 * (popcount(pos.knights & pos.white) as i64 - popcount(
        pos.knights & pos.black,
    ) as i64);
    r = r + 330 * (popcount(pos.bishops & pos.white) as i64 - popcount(
        pos.bishops & pos.black,
    ) as i64);
    r = r + 500 * (popcount(pos.rooks & pos.white) as i64 - popcount(pos.rooks & pos.black) as i64);
    r = r + 950 * (popcount(pos.queens & pos.white) as i64 - popcount(
        pos.queens & pos.black,
    ) as i64);
    r
}

/// The endgame king-activity term: with most material gone and a clear
/// material leader, the losing king is driven to the corner and the edge
/// and the winning king drawn near, scaled up as the phase advances past
/// its midpoint; the sign follows the leader.
pub open spec fn spec_king_activity(pos: Position) -> int {
    let phase = spec_phase(pos);
    let bal = spec_balance_mg(pos);
    if phase > 128 && (bal >= 100 || bal <= -100) {
        let winner = if bal > 0 {
            Color::White
        } else {
            Color::Black
        };
        let wk = pos.spec_king_square(winner);
        let lk = pos.spec_king_square(winner.spec_flip());
        let act = (6 - spec_corner_distance(lk)) * 8 + spec_center_distance(lk) * 6 + (7
            - spec_king_distance(wk, lk)) * 5;
        let scaled = act * (phase - 128) / 128;
        if bal > 0 {
            scaled
        } else {
            -scaled
        }
    } else {
        0
    }
}

/// The endgame king-activity term of the position.
pub fn king_activity(pos: &Position) -> (r: i64)
    requires
        pos.wf(),
    ensures
        r == spec_king_activity(*pos),
        -200 <= r <= 200,
{
    let phase = phase_of(pos);
    let bal = balance_mg(pos);
    if phase > 128 && (bal >= 100 || bal <= -100) {
        let winner = if bal > 0 {
            Color::White
        } else {
            Color::Black
        };
        let wk = pos.king_square(winner);
        let lk = pos.king_square(winner.flip());
        let act = (6 - corner_distance(lk) as i64) * 8 + center_distance(lk) as i64 * 6 + (7
            - king_distance(wk, lk) as i64) * 5;
        assert(0 <= act * (phase - 128) <= 119 * 128) by (nonlinear_arith)
            requires
                0 <= act <= 119,
                0 < phase - 128 <= 128,
        ;
        let scaled = act * (phase - 128) / 128;
        if bal > 0 {
            scaled
        } else {
            -scaled
        }
    } else {
        0
    }
}

/// Division by 256 rounding toward zero, as the blend applies it.
pub open spec fn spec_div256_trunc(t: int) -> int {
    if t >= 0 {
        t / 256
    } else {
        -((-t) / 256)
    }
}

/// Clamp a value into the ordinary centipawn range.
pub open spec fn spec_clamp_cp(v: int) -> int {
    if v < -20000 {
        -20000
    } else if v > 20000 {
        20000
    } else {
        v
    }
}

/// The tapered evaluation of a position, from the side to move's
/// perspective, clamped into the ordinary centipawn range.
pub open spec fn spec_hce(pos: Position) -> int {
    let phase = spec_phase(pos);
    let pair_w: int = if spec_has_bishop_pair(pos, Color::White) {
        1
    } else {
        0
    };
    let pair_b: int = if spec_has_bishop_pair(pos, Color::Black) {
        1
    } else {
        0
    };
    let mg = spec_color_mg(pos, Color::White, 64) + pair_w * 35 - (spec_color_mg(
        pos,
        Color::Black,
        64,
    ) + pair_b * 35) + spec_passed_mg(pos, Color::White, 64) - spec_passed_mg(
        pos,
        Color::Black,
        64,
    );
    let eg = spec_color_eg(pos, Color::White, 64) + pair_w * 50 - (spec_color_eg(
        pos,
        Color::Black,
        64,
    ) + pair_b * 50) + spec_passed_eg(pos, Color::White, 64) - spec_passed_eg(
        pos,
        Color::Black,
        64,
    ) + spec_king_activity(pos);
    let raw = spec_div256_trunc(mg * (256 - phase) + eg * phase);
    let persp = if pos.turn == Color::White {
        raw
    } else {
        -raw
    };
    spec_clamp_cp(persp)
}

/// Evaluate the position with the tapered hand-crafted terms, from the
/// side to move's perspective.
pub fn evaluate(pos: &Position) -> (r: Score)
    requires
        pos.wf(),
    ensures
        r.value() == spec_hce(*pos),
        r.spec_valid(),
{
    let phase = phase_of(pos);
    proof {
        lemma_color_sums_bounded(*pos, Color::White, 64);
        lemma_color_sums_bounded(*pos, Color::Black, 64);
        lemma_passed_bounded(*pos, Color::White, 64);
        lemma_passed_bounded(*pos, Color::Black, 64);
    }
    let mut mg: i64 = 0;
    let mut eg: i64 = 0;
    eval_color::<true>(pos, &mut mg, &mut eg);
    eval_color::<false>(pos, &mut mg, &mut eg);
    let (pw_mg, pw_eg) = passed_pawn_terms(pos, Color::White);
    let (pb_mg, pb_eg) = passed_pawn_terms(pos, Color::Black);
    mg = mg + pw_mg - pb_mg;
    eg = eg + pw_eg - pb_eg;
    eg = eg + king_activity(pos);
    assert(-0x8000_0000_0000 <= mg * (256 - phase) <= 0x8000_0000_0000 && -0x8000_0000_0000 <= eg
        * phase <= 0x8000_0000_0000) by (nonlinear_arith)
        requires
            -0x80_0000_0000 <= mg <= 0x80_0000_0000,
            -0x80_0000_0000 <= eg <= 0x80_0000_0000,
            0 <= phase <= 256,
    ;
    let blended = mg * (256 - phase) + eg * phase;
    let raw = if blended >= 0 {
        blended / 256
    } else {
        -((-blended) / 256)
    };
    let persp = if matches!(pos.turn, Color::White) {
        raw
    } else {
        -raw
    };
    let clamped = if persp < -20000 {
        -20000i64
    } else if persp > 20000 {
        20000i64
    } else {
        persp
    };
    Score::cp(clamped as i32)
}

} // verus!
