//! The engine's model of a chess position: one bitboard per piece kind, one
//! per color, the side to move and the Zobrist hash.
//!
//! Bitboards are plain 64-bit words, square a1 at bit 0 through h8 at
//! bit 63. The evaluators, the exchange evaluator and move ordering all
//! read positions in this form; conversion from the board collaborator
//! happens at the boundary.

use vstd::prelude::*;
use crate::types::{Piece, Color};

verus! {

/// Whether bit `sq` of `bb` is set.
pub open spec fn spec_has_bit(bb: u64, sq: u8) -> bool {
    (bb >> (sq as u64)) & 1 == 1
}

/// Number of set bits below bit `n`.
pub open spec fn spec_pop_below(x: u64, n: int) -> int
    decreases n,
{
    if n <= 0 {
        0
    } else {
        spec_pop_below(x, n - 1) + ((x >> ((n - 1) as u64)) & 1) as int
    }
}

/// Number of set bits of a 64-bit word.
pub open spec fn spec_popcount(x: u64) -> int {
    spec_pop_below(x, 64)
}

/// Count the set bits of a word.
pub fn popcount(x: u64) -> (r: u32)
    ensures
        r == spec_popcount(x),
        r <= 64,
{
    let mut r: u32 = 0;
    let mut i: u64 = 0;
    while i < 64
        invariant
            i <= 64,
            r == spec_pop_below(x, i as int),
            r <= i,
        decreases 64 - i,
    {
        let bit = (x >> i) & 1;
        assert((x >> i) & 1 <= 1) by (bit_vector);
        r = r + bit as u32;
        i = i + 1;
    }
    r
}

/// Test one bit of a word.
pub fn has_bit(bb: u64, sq: u8) -> (r: bool)
    requires
        sq < 64,
    ensures
        r == spec_has_bit(bb, sq),
{
    (bb >> (sq as u64)) & 1 == 1
}

/// The word with exactly bit `sq` set.
pub open spec fn spec_square_bb(sq: u8) -> u64 {
    1u64 << (sq as u64)
}

/// The word with exactly bit `sq` set.
pub fn square_bb(sq: u8) -> (r: u64)
    requires
        sq < 64,
    ensures
        r == spec_square_bb(sq),
{
    1u64 << (sq as u64)
}

/// A chess position as the engine models it.
#[derive(Clone, Copy, PartialEq, Eq, Structural, Debug)]
pub struct Position {
    /// Pawns of both sides.
    pub pawns: u64,
    /// Knights of both sides.
    pub knights: u64,
    /// Bishops of both sides.
    pub bishops: u64,
    /// Rooks of both sides.
    pub rooks: u64,
    /// Queens of both sides.
    pub queens: u64,
    /// Kings of both sides.
    pub kings: u64,
    /// All white pieces.
    pub white: u64,
    /// All black pieces.
    pub black: u64,
    /// Side to move.
    pub turn: Color,
    /// Zobrist hash of the position.
    pub hash: u64,
}

impl Position {
    /// The bitboard of one piece kind, both sides together.
    pub open spec fn spec_piece_bb(self, p: Piece) -> u64 {
        match p {
            Piece::Pawn => self.pawns,
            Piece::Knight => self.knights,
            Piece::Bishop => self.bishops,
            Piece::Rook => self.rooks,
            Piece::Queen => self.queens,
            Piece::King => self.kings,
        }
    }

    /// The bitboard of one side's pieces.
    pub open spec fn spec_color_bb(self, c: Color) -> u64 {
        match c {
            Color::White => self.white,
            Color::Black => self.black,
        }
    }

    /// Every occupied square.
    pub open spec fn spec_occupied(self) -> u64 {
        self.white | self.black
    }

    /// Well-formedness: the two sides are disjoint, the piece boards are
    /// pairwise disjoint, together they cover exactly the occupied squares,
    /// and each side has a king.
    pub open spec fn wf(self) -> bool {
        &&& self.white & self.black == 0
        &&& self.pawns & self.knights == 0
        &&& self.pawns & self.bishops == 0
        &&& self.pawns & self.rooks == 0
        &&& self.pawns & self.queens == 0
        &&& self.pawns & self.kings == 0
        &&& self.knights & self.bishops == 0
        &&& self.knights & self.rooks == 0
        &&& self.knights & self.queens == 0
        &&& self.knights & self.kings == 0
        &&& self.bishops & self.rooks == 0
        &&& self.bishops & self.queens == 0
        &&& self.bishops & self.kings == 0
        &&& self.rooks & self.queens == 0
        &&& self.rooks & self.kings == 0
        &&& self.queens & self.kings == 0
        &&& (self.pawns | self.knights | self.bishops | self.rooks | self.queens | self.kings)
            == (self.white | self.black)
        &&& self.kings & self.white != 0
        &&& self.kings & self.black != 0
    }

    /// Assemble a position from its parts, accepting it only when the
    /// boards are consistent: sides disjoint, piece kinds disjoint and
    /// covering the occupancy, a king on each side.
    pub fn from_parts(
        pawns: u64,
        knights: u64,
        bishops: u64,
        rooks: u64,
        queens: u64,
        kings: u64,
        white: u64,
        black: u64,
        turn: Color,
        hash: u64,
    ) -> (r: Option<Position>)
        ensures
            r matches Some(p) ==> p.wf() && p == (Position {
                pawns,
                knights,
                bishops,
                rooks,
                queens,
                kings,
                white,
                black,
                turn,
                hash,
            }),
            r is None ==> !(Position {
                pawns,
                knights,
                bishops,
                rooks,
                queens,
                kings,
                white,
                black,
                turn,
                hash,
            }).wf(),
    {
        let ok = white & black == 0 && pawns & knights == 0 && pawns & bishops == 0 && pawns & rooks
            == 0 && pawns & queens == 0 && pawns & kings == 0 && knights & bishops == 0 && knights
            & rooks == 0 && knights & queens == 0 && knights & kings == 0 && bishops & rooks == 0
            && bishops & queens == 0 && bishops & kings == 0 && rooks & queens == 0 && rooks & kings
            == 0 && queens & kings == 0 && (pawns | knights | bishops | rooks | queens | kings)
            == (white | black) && kings & white != 0 && kings & black != 0;
        if ok {
            Some(
                Position {
                    pawns,
                    knights,
                    bishops,
                    rooks,
                    queens,
                    kings,
                    white,
                    black,
                    turn,
                    hash,
                },
            )
        } else {
            None
        }
    }

    /// The bitboard of one piece kind, both sides together.
    pub fn piece_bb(&self, p: Piece) -> (r: u64)
        ensures
            r == self.spec_piece_bb(p),
    {
        match p {
            Piece::Pawn => self.pawns,
            Piece::Knight => self.knights,
            Piece::Bishop => self.bishops,
            Piece::Rook => self.rooks,
            Piece::Queen => self.queens,
            Piece::King => self.kings,
        }
    }

    /// The bitboard of one side's pieces.
    pub fn color_bb(&self, c: Color) -> (r: u64)
        ensures
            r == self.spec_color_bb(c),
    {
        match c {
            Color::White => self.white,
            Color::Black => self.black,
        }
    }

    /// Every occupied square.
    pub fn occupied(&self) -> (r: u64)
        ensures
            r == self.spec_occupied(),
    {
        self.white | self.black
    }

    /// The side to move.
    pub fn turn(&self) -> (r: Color)
        ensures
            r == self.turn,
    {
        self.turn
    }

    /// The Zobrist hash.
    pub fn hash(&self) -> (r: u64)
        ensures
            r == self.hash,
    {
        self.hash
    }

    /// The piece on a square, with its color, as the bitboards show it.
    pub open spec fn spec_piece_at(self, sq: u8) -> Option<(Piece, Color)> {
        if !spec_has_bit(self.spec_occupied(), sq) {
            None
        } else {
            let c = if spec_has_bit(self.white, sq) {
                Color::White
            } else {
                Color::Black
            };
            if spec_has_bit(self.pawns, sq) {
                Some((Piece::Pawn, c))
            } else if spec_has_bit(self.knights, sq) {
                Some((Piece::Knight, c))
            } else if spec_has_bit(self.bishops, sq) {
                Some((Piece::Bishop, c))
            } else if spec_has_bit(self.rooks, sq) {
                Some((Piece::Rook, c))
            } else if spec_has_bit(self.queens, sq) {
                Some((Piece::Queen, c))
            } else if spec_has_bit(self.kings, sq) {
                Some((Piece::King, c))
            } else {
                None
            }
        }
    }

    /// The piece on a square, with its color.
    pub fn piece_at(&self, sq: u8) -> (r: Option<(Piece, Color)>)
        requires
            sq < 64,
        ensures
            r == self.spec_piece_at(sq),
    {
        if !has_bit(self.white | self.black, sq) {
            return None;
        }
        let c = if has_bit(self.white, sq) {
            Color::White
        } else {
            Color::Black
        };
        if has_bit(self.pawns, sq) {
            Some((Piece::Pawn, c))
        } else if has_bit(self.knights, sq) {
            Some((Piece::Knight, c))
        } else if has_bit(self.bishops, sq) {
            Some((Piece::Bishop, c))
        } else if has_bit(self.rooks, sq) {
            Some((Piece::Rook, c))
        } else if has_bit(self.queens, sq) {
            Some((Piece::Queen, c))
        } else if has_bit(self.kings, sq) {
            Some((Piece::King, c))
        } else {
            None
        }
    }

    /// The square of one side's king: the lowest set bit of that side's
    /// king board.
    pub open spec fn spec_king_square(self, c: Color) -> u8 {
        (vstd::std_specs::bits::u64_trailing_zeros(self.kings & self.spec_color_bb(c)) as u8)
    }

    /// The square of one side's king.
    pub fn king_square(&self, c: Color) -> (r: u8)
        requires
            self.wf(),
        ensures
            r == self.spec_king_square(c),
            r < 64,
            spec_has_bit(self.kings & self.spec_color_bb(c), r),
    {
        let bb = self.kings & self.color_bb(c);
        assert(bb != 0);
        lsb(bb)
    }
}

/// The index of the lowest set bit of a nonzero word.
pub fn lsb(bb: u64) -> (r: u8)
    requires
        bb != 0,
    ensures
        r < 64,
        r == vstd::std_specs::bits::u64_trailing_zeros(bb) as u8,
        spec_has_bit(bb, r),
{
    proof {
        vstd::std_specs::bits::axiom_u64_trailing_zeros(bb);
    }
    let tz = bb.trailing_zeros();
    tz as u8
}

/// The a-file as a bitboard.
pub const FILE_A_BB: u64 = 0x0101_0101_0101_0101;

/// The b-file as a bitboard.
pub const FILE_B_BB: u64 = FILE_A_BB << 1;

/// The g-file as a bitboard.
pub const FILE_G_BB: u64 = FILE_A_BB << 6;

/// The h-file as a bitboard.
pub const FILE_H_BB: u64 = FILE_A_BB << 7;

/// The squares a knight on `sq` attacks: the eight jumps, with the shifts
/// that wrap across the board edge masked off.
pub open spec fn spec_knight_attacks(sq: u8) -> u64 {
    let b = spec_square_bb(sq);
    (((b << 17) & !FILE_A_BB) | ((b << 15) & !FILE_H_BB) | ((b << 10) & !(FILE_A_BB | FILE_B_BB)) | (
    (b << 6) & !(FILE_G_BB | FILE_H_BB)) | ((b >> 17) & !FILE_H_BB) | ((b >> 15) & !FILE_A_BB) | ((b
        >> 10) & !(FILE_G_BB | FILE_H_BB)) | ((b >> 6) & !(FILE_A_BB | FILE_B_BB)))
}

/// The squares a knight on `sq` attacks.
pub fn knight_attacks(sq: u8) -> (r: u64)
    requires
        sq < 64,
    ensures
        r == spec_knight_attacks(sq),
{
    let b = square_bb(sq);
    (((b << 17) & !FILE_A_BB) | ((b << 15) & !FILE_H_BB) | ((b << 10) & !(FILE_A_BB | FILE_B_BB)) | (
    (b << 6) & !(FILE_G_BB | FILE_H_BB)) | ((b >> 17) & !FILE_H_BB) | ((b >> 15) & !FILE_A_BB) | ((b
        >> 10) & !(FILE_G_BB | FILE_H_BB)) | ((b >> 6) & !(FILE_A_BB | FILE_B_BB)))
}

/// The squares a king on `sq` attacks: the eight neighbours, edge wraps
/// masked off.
pub open spec fn spec_king_attacks(sq: u8) -> u64 {
    let b = spec_square_bb(sq);
    ((b << 8) | (b >> 8) | (((b << 9) | (b << 1) | (b >> 7)) & !FILE_A_BB) | (((b << 7) | (b >> 1) | (
    b >> 9)) & !FILE_H_BB))
}

/// The squares a king on `sq` attacks.
pub fn king_attacks(sq: u8) -> (r: u64)
    requires
        sq < 64,
    ensures
        r == spec_king_attacks(sq),
{
    let b = square_bb(sq);
    ((b << 8) | (b >> 8) | (((b << 9) | (b << 1) | (b >> 7)) & !FILE_A_BB) | (((b << 7) | (b >> 1) | (
    b >> 9)) & !FILE_H_BB))
}

/// The squares a pawn of color `c` on `sq` attacks: one rank ahead on the
/// two adjacent files, edge wraps masked off.
pub open spec fn spec_pawn_attacks(c: Color, sq: u8) -> u64 {
    let b = spec_square_bb(sq);
    if c == Color::White {
        ((b << 9) & !FILE_A_BB) | ((b << 7) & !FILE_H_BB)
    } else {
        ((b >> 7) & !FILE_A_BB) | ((b >> 9) & !FILE_H_BB)
    }
}

/// The squares a pawn of color `c` on `sq` attacks.
pub fn pawn_attacks(c: Color, sq: u8) -> (r: u64)
    requires
        sq < 64,
    ensures
        r == spec_pawn_attacks(c, sq),
{
    let b = square_bb(sq);
    if matches!(c, Color::White) {
        ((b << 9) & !FILE_A_BB) | ((b << 7) & !FILE_H_BB)
    } else {
        ((b >> 7) & !FILE_A_BB) | ((b >> 9) & !FILE_H_BB)
    }
}

} // verus!
