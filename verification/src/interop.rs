//! The boundary to the board collaborator, the `chess` crate.
//!
//! The crate supplies board representation, legal-move generation,
//! make-move, Zobrist hashing and the sliding-piece attack tables. Every
//! call into it stands behind a trusted item here; everything else in the
//! library works on the plain-value model types. What the calls return is
//! deterministic data of the board and move values, so the results carry
//! names that the rest of the library's contracts speak of.

use vstd::prelude::*;
use crate::types::{Piece, Color, Move, MoveFlag};
use crate::position::Position;

verus! {

/// The collaborator's board.
#[verifier::external_type_specification]
#[verifier::external_body]
pub struct ExBoard(chess::Board);

/// The collaborator's move.
#[verifier::external_type_specification]
#[verifier::external_body]
pub struct ExChessMove(chess::ChessMove);

/// The bitboard of one piece kind on a board, both sides together.
pub uninterp spec fn pieces_of(b: chess::Board, p: Piece) -> u64;

/// The bitboard of one side's pieces on a board.
pub uninterp spec fn color_bb_of(b: chess::Board, c: Color) -> u64;

/// The side to move of a board.
pub uninterp spec fn turn_of(b: chess::Board) -> Color;

/// The Zobrist hash of a board.
pub uninterp spec fn hash_of(b: chess::Board) -> u64;

/// The plain fields a move carries: source square, destination square and
/// promotion code (0 none, then knight 1 through queen 4).
pub uninterp spec fn fields_of(m: chess::ChessMove) -> (u8, u8, u8);

/// The field triples of a board's legal moves, in generation order.
pub uninterp spec fn legal_fields_of(b: chess::Board) -> Seq<(u8, u8, u8)>;

/// Whether a move is legal on a board: exactly the moves the generator
/// yields. A legal move's source square is occupied and its destination
/// holds no king, so making it cannot panic.
pub uninterp spec fn legal_on(b: chess::Board, m: chess::ChessMove) -> bool;

/// The squares a bishop on `sq` attacks through the occupancy `occ`.
pub uninterp spec fn bishop_attacks_of(sq: u8, occ: u64) -> u64;

/// The squares a rook on `sq` attacks through the occupancy `occ`.
pub uninterp spec fn rook_attacks_of(sq: u8, occ: u64) -> u64;

/// Relies on `chess::get_bishop_moves`: the bishop attack set at this
/// square through the given blockers.
#[verifier::external_body]
pub(crate) fn bishop_attacks(sq: u8, occ: u64) -> (r: u64)
    requires
        sq < 64,
    ensures
        r == bishop_attacks_of(sq, occ),
{
    chess::get_bishop_moves(chess::ALL_SQUARES[sq as usize], chess::BitBoard::new(occ)).0
}

/// Relies on `chess::get_rook_moves`: the rook attack set at this square
/// through the given blockers.
#[verifier::external_body]
pub(crate) fn rook_attacks(sq: u8, occ: u64) -> (r: u64)
    requires
        sq < 64,
    ensures
        r == rook_attacks_of(sq, occ),
{
    chess::get_rook_moves(chess::ALL_SQUARES[sq as usize], chess::BitBoard::new(occ)).0
}

/// Relies on `chess::Board::get_hash`: the position's Zobrist hash, a
/// function of the board value alone.
#[verifier::external_body]
pub(crate) fn board_hash(b: &chess::Board) -> (r: u64)
    ensures
        r == hash_of(*b),
{
    b.get_hash()
}

/// Relies on `chess::Board::side_to_move`: a function of the board value
/// alone.
#[verifier::external_body]
pub(crate) fn board_turn(b: &chess::Board) -> (r: Color)
    ensures
        r == turn_of(*b),
{
    match b.side_to_move() {
        chess::Color::White => Color::White,
        chess::Color::Black => Color::Black,
    }
}

/// Relies on `chess::Board::pieces`: the bitboard of one piece kind, a
/// function of the board value alone.
#[verifier::external_body]
pub(crate) fn board_piece_bb(b: &chess::Board, p: Piece) -> (r: u64)
    ensures
        r == pieces_of(*b, p),
{
    let cp = match p {
        Piece::Pawn => chess::Piece::Pawn,
        Piece::Knight => chess::Piece::Knight,
        Piece::Bishop => chess::Piece::Bishop,
        Piece::Rook => chess::Piece::Rook,
        Piece::Queen => chess::Piece::Queen,
        Piece::King => chess::Piece::King,
    };
    b.pieces(cp).0
}

/// Relies on `chess::Board::color_combined`: the bitboard of one side, a
/// function of the board value alone.
#[verifier::external_body]
pub(crate) fn board_color_bb(b: &chess::Board, c: Color) -> (r: u64)
    ensures
        r == color_bb_of(*b, c),
{
    let cc = match c {
        Color::White => chess::Color::White,
        Color::Black => chess::Color::Black,
    };
    b.color_combined(cc).0
}

/// Relies on `chess::MoveGen::new_legal`: every legal move of the
/// position, in the generator's deterministic order; each returned move is
/// legal on this board and carries the named field triple.
#[verifier::external_body]
pub(crate) fn legal_moves(b: &chess::Board) -> (r: Vec<chess::ChessMove>)
    ensures
        r@.len() == legal_fields_of(*b).len(),
        forall|i: int| 0 <= i < r@.len() ==> legal_on(*b, #[trigger] r@[i]),
        forall|i: int| 0 <= i < r@.len() ==> fields_of(#[trigger] r@[i]) == legal_fields_of(*b)[i],
{
    chess::MoveGen::new_legal(b).collect()
}

/// Relies on `chess::ChessMove`'s accessors: the source and destination
/// square indices and the promotion piece, functions of the move value
/// alone. Squares built by the crate's safe constructors are below 64.
#[verifier::external_body]
pub(crate) fn move_fields(m: &chess::ChessMove) -> (r: (u8, u8, u8))
    ensures
        r == fields_of(*m),
        r.0 < 64,
        r.1 < 64,
        r.2 <= 4,
{
    let promo: u8 = match m.get_promotion() {
        Some(chess::Piece::Knight) => 1,
        Some(chess::Piece::Bishop) => 2,
        Some(chess::Piece::Rook) => 3,
        Some(chess::Piece::Queen) => 4,
        _ => 0,
    };
    (m.get_source().to_index() as u8, m.get_dest().to_index() as u8, promo)
}

/// Relies on `chess::Board::make_move_new`: the position after the move.
/// The move must be legal on this board: `make_move_new` reads the piece on
/// the source square and refuses a captured king, so an arbitrary move
/// could make it panic.
#[verifier::external_body]
pub(crate) fn make_move(b: &chess::Board, m: &chess::ChessMove) -> chess::Board
    requires
        legal_on(*b, *m),
{
    b.make_move_new(*m)
}

/// The model a board reads back as, assembled from the named results of
/// the board readers.
pub open spec fn spec_board_model(b: chess::Board) -> Position {
    Position {
        pawns: pieces_of(b, Piece::Pawn),
        knights: pieces_of(b, Piece::Knight),
        bishops: pieces_of(b, Piece::Bishop),
        rooks: pieces_of(b, Piece::Rook),
        queens: pieces_of(b, Piece::Queen),
        kings: pieces_of(b, Piece::King),
        white: color_bb_of(b, Color::White),
        black: color_bb_of(b, Color::Black),
        turn: turn_of(b),
        hash: hash_of(b),
    }
}

/// Build the model position out of a board, through the bitboard wrappers:
/// exactly the board's model, checked for consistency, so the result is the
/// well-formed model or nothing.
pub fn board_to_position(b: &chess::Board) -> (r: Option<Position>)
    ensures
        r matches Some(p) ==> p == spec_board_model(*b) && p.wf(),
        r is None ==> !spec_board_model(*b).wf(),
{
    let pawns = board_piece_bb(b, Piece::Pawn);
    let knights = board_piece_bb(b, Piece::Knight);
    let bishops = board_piece_bb(b, Piece::Bishop);
    let rooks = board_piece_bb(b, Piece::Rook);
    let queens = board_piece_bb(b, Piece::Queen);
    let kings = board_piece_bb(b, Piece::King);
    let white = board_color_bb(b, Color::White);
    let black = board_color_bb(b, Color::Black);
    let turn = board_turn(b);
    let hash = board_hash(b);
    Position::from_parts(pawns, knights, bishops, rooks, queens, kings, white, black, turn, hash)
}

/// The promotion piece encoded by the field code of `move_fields`.
pub open spec fn spec_promo_of_code(code: u8) -> Option<Piece> {
    if code == 1 {
        Some(Piece::Knight)
    } else if code == 2 {
        Some(Piece::Bishop)
    } else if code == 3 {
        Some(Piece::Rook)
    } else if code == 4 {
        Some(Piece::Queen)
    } else {
        None
    }
}

/// The flag of a move on this position: a promotion when a piece code is
/// given; a castle when the king moves two files; en passant when a pawn
/// changes file onto an empty square; quiet otherwise.
pub open spec fn spec_classify_flag(pos: Position, from: u8, to: u8, promo_code: u8) -> MoveFlag {
    match spec_promo_of_code(promo_code) {
        Some(p) => MoveFlag::Promotion(p),
        None => {
            let mover = pos.spec_piece_at(from);
            if mover matches Some(pc) && pc.0 == Piece::King && (to as int - from as int == 2
                || from as int - to as int == 2) {
                if to as int % 8 == 6 {
                    MoveFlag::KingCastle
                } else {
                    MoveFlag::QueenCastle
                }
            } else if mover matches Some(pc) && pc.0 == Piece::Pawn && from as int % 8 != to as int
                % 8 && pos.spec_piece_at(to) is None {
                MoveFlag::EnPassant
            } else {
                MoveFlag::Quiet
            }
        },
    }
}

/// Turn the plain fields of a collaborator move into the library's move,
/// classifying its flag from the position.
pub fn classify_move(pos: &Position, from: u8, to: u8, promo_code: u8) -> (r: Move)
    requires
        from < 64,
        to < 64,
        promo_code <= 4,
    ensures
        r.from == from,
        r.to == to,
        r.flag == spec_classify_flag(*pos, from, to, promo_code),
        crate::types::valid_move(r),
{
    let promo = if promo_code == 1 {
        Some(Piece::Knight)
    } else if promo_code == 2 {
        Some(Piece::Bishop)
    } else if promo_code == 3 {
        Some(Piece::Rook)
    } else if promo_code == 4 {
        Some(Piece::Queen)
    } else {
        None
    };
    let flag = match promo {
        Some(p) => MoveFlag::Promotion(p),
        None => {
            let mover = pos.piece_at(from);
            let is_king = match mover {
                Some(pc) => pc.0 == Piece::King,
                None => false,
            };
            let is_pawn = match mover {
                Some(pc) => pc.0 == Piece::Pawn,
                None => false,
            };
            if is_king && (to as i32 - from as i32 == 2 || from as i32 - to as i32 == 2) {
                if to % 8 == 6 {
                    MoveFlag::KingCastle
                } else {
                    MoveFlag::QueenCastle
                }
            } else if is_pawn && from % 8 != to % 8 && pos.piece_at(to).is_none() {
                MoveFlag::EnPassant
            } else {
                MoveFlag::Quiet
            }
        },
    };
    Move { from, to, flag }
}

} // verus!
