//! Core value types of the engine: colors, pieces, moves, depth and ply.

use vstd::prelude::*;

verus! {

/// Hard bound on search recursion depth, in plies.
pub const MAX_PLY: i32 = 128;

/// Side to move or owner of a piece.
#[derive(Clone, Copy, PartialEq, Eq, Structural, Debug, Hash)]
pub enum Color {
    White,
    Black,
}

impl Color {
    /// The other side.
    pub open spec fn spec_flip(self) -> Color {
        match self {
            Color::White => Color::Black,
            Color::Black => Color::White,
        }
    }

    /// The other side.
    pub fn flip(self) -> (r: Color)
        ensures
            r == self.spec_flip(),
    {
        match self {
            Color::White => Color::Black,
            Color::Black => Color::White,
        }
    }

    /// Index used by tables: white is 0, black is 1.
    pub open spec fn spec_index(self) -> int {
        match self {
            Color::White => 0,
            Color::Black => 1,
        }
    }

    /// Index used by tables: white is 0, black is 1.
    pub fn index(self) -> (r: usize)
        ensures
            r == self.spec_index(),
    {
        match self {
            Color::White => 0,
            Color::Black => 1,
        }
    }
}

/// Kind of chess piece.
#[derive(Clone, Copy, PartialEq, Eq, Structural, Debug, Hash)]
pub enum Piece {
    Pawn,
    Knight,
    Bishop,
    Rook,
    Queen,
    King,
}

impl Piece {
    /// Index in the usual ordering: pawn 0 through king 5.
    pub open spec fn spec_index(self) -> int {
        match self {
            Piece::Pawn => 0,
            Piece::Knight => 1,
            Piece::Bishop => 2,
            Piece::Rook => 3,
            Piece::Queen => 4,
            Piece::King => 5,
        }
    }

    /// Index in the usual ordering: pawn 0 through king 5.
    pub fn index(self) -> (r: usize)
        ensures
            r == self.spec_index(),
    {
        match self {
            Piece::Pawn => 0,
            Piece::Knight => 1,
            Piece::Bishop => 2,
            Piece::Rook => 3,
            Piece::Queen => 4,
            Piece::King => 5,
        }
    }
}

/// Material value of a piece in centipawns, used by move ordering and the
/// material evaluator.
pub open spec fn spec_piece_value(p: Piece) -> int {
    match p {
        Piece::Pawn => 100,
        Piece::Knight => 320,
        Piece::Bishop => 330,
        Piece::Rook => 500,
        Piece::Queen => 900,
        Piece::King => 20000,
    }
}

/// Material value of a piece in centipawns, used by move ordering and the
/// material evaluator.
pub fn piece_value(p: Piece) -> (r: i32)
    ensures
        r == spec_piece_value(p),
{
    match p {
        Piece::Pawn => 100,
        Piece::Knight => 320,
        Piece::Bishop => 330,
        Piece::Rook => 500,
        Piece::Queen => 900,
        Piece::King => 20000,
    }
}

/// Special nature of a move beyond its source and destination squares.
#[derive(Clone, Copy, PartialEq, Eq, Structural, Debug, Hash)]
pub enum MoveFlag {
    Quiet,
    KingCastle,
    QueenCastle,
    EnPassant,
    Promotion(Piece),
}

impl MoveFlag {
    /// The piece promoted to, if the move is a promotion.
    pub open spec fn spec_promotion_piece(self) -> Option<Piece> {
        match self {
            MoveFlag::Promotion(p) => Some(p),
            _ => None,
        }
    }

    /// The piece promoted to, if the move is a promotion.
    pub fn promotion_piece(self) -> (r: Option<Piece>)
        ensures
            r == self.spec_promotion_piece(),
    {
        match self {
            MoveFlag::Promotion(p) => Some(p),
            _ => None,
        }
    }
}

/// A move: source square, destination square and flag. Squares are indices
/// with a1 = 0, b1 = 1, ..., h8 = 63.
#[derive(Clone, Copy, PartialEq, Eq, Structural, Debug, Hash)]
pub struct Move {
    pub from: u8,
    pub to: u8,
    pub flag: MoveFlag,
}

/// A move is valid when its squares are on the board and a promotion, if
/// any, is to a knight, bishop, rook or queen.
pub open spec fn valid_move(m: Move) -> bool {
    &&& m.from < 64
    &&& m.to < 64
    &&& match m.flag {
        MoveFlag::Promotion(p) => p != Piece::Pawn && p != Piece::King,
        _ => true,
    }
}

impl Move {
    /// Build a move from its squares and an optional promotion piece.
    pub fn new(from: u8, to: u8, promotion: Option<Piece>) -> (r: Move)
        requires
            from < 64,
            to < 64,
            promotion matches Some(p) ==> p != Piece::Pawn && p != Piece::King,
        ensures
            r.from == from,
            r.to == to,
            r.flag == match promotion {
                Some(p) => MoveFlag::Promotion(p),
                None => MoveFlag::Quiet,
            },
            valid_move(r),
    {
        let flag = match promotion {
            Some(p) => MoveFlag::Promotion(p),
            None => MoveFlag::Quiet,
        };
        Move { from, to, flag }
    }

    /// Build a move with an explicit flag.
    pub fn with_flag(from: u8, to: u8, flag: MoveFlag) -> (r: Move)
        requires
            from < 64,
            to < 64,
            flag matches MoveFlag::Promotion(p) ==> p != Piece::Pawn && p != Piece::King,
        ensures
            r == (Move { from, to, flag }),
            valid_move(r),
    {
        Move { from, to, flag }
    }

    /// Source square index.
    pub fn from(self) -> (r: u8)
        ensures
            r == self.from,
    {
        self.from
    }

    /// Destination square index.
    pub fn to(self) -> (r: u8)
        ensures
            r == self.to,
    {
        self.to
    }

    /// The move's flag.
    pub fn flag(self) -> (r: MoveFlag)
        ensures
            r == self.flag,
    {
        self.flag
    }

    /// Whether the move is a promotion.
    pub fn is_promotion(self) -> (r: bool)
        ensures
            r == (self.flag.spec_promotion_piece() is Some),
    {
        match self.flag {
            MoveFlag::Promotion(_) => true,
            _ => false,
        }
    }
}

/// Remaining search depth, in plies.
#[derive(Clone, Copy, PartialEq, Eq, Structural, Debug, Hash)]
pub struct Depth(pub i32);

impl Depth {
    /// Wrap a raw depth.
    pub fn new(d: i32) -> (r: Depth)
        ensures
            r.0 == d,
    {
        Depth(d)
    }

    /// The raw depth.
    pub fn raw(self) -> (r: i32)
        ensures
            r == self.0,
    {
        self.0
    }
}

/// Distance from the root of the search, in plies.
#[derive(Clone, Copy, PartialEq, Eq, Structural, Debug, Hash)]
pub struct Ply(pub i32);

impl Ply {
    /// Wrap a raw ply.
    pub fn new(p: i32) -> (r: Ply)
        ensures
            r.0 == p,
    {
        Ply(p)
    }

    /// The raw ply.
    pub fn raw(self) -> (r: i32)
        ensures
            r == self.0,
    {
        self.0
    }

    /// One ply deeper.
    pub fn next(self) -> (r: Ply)
        requires
            self.0 < MAX_PLY,
        ensures
            r.0 == self.0 + 1,
    {
        Ply(self.0 + 1)
    }
}

/// Relies on `String::push`: appends one character.
#[verifier::external_body]
pub(crate) fn string_push(s: &mut String, c: char)
    ensures
        final(s)@ == old(s)@.push(c),
{
    s.push(c);
}

/// Relies on `String::push_str`: appends a string slice.
#[verifier::external_body]
pub(crate) fn string_push_str(s: &mut String, t: &str)
    ensures
        final(s)@ == old(s)@ + t@,
{
    s.push_str(t);
}

} // verus!
