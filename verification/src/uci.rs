//! UCI-facing values: search parameters and move text.

use vstd::prelude::*;
use crate::types::{Move, MoveFlag, Piece, Depth, valid_move, string_push};
use vstd::string::StringSliceAdditionalSpecFns;

verus! {

/// Time-control parameters of a `go` command.
#[derive(Debug, Clone)]
pub struct SearchParams {
    /// Search to this depth.
    pub depth: Option<Depth>,
    /// Search for this many milliseconds.
    pub movetime: Option<u64>,
    /// White time remaining (ms).
    pub wtime: Option<u64>,
    /// Black time remaining (ms).
    pub btime: Option<u64>,
    /// White increment per move (ms).
    pub winc: Option<u64>,
    /// Black increment per move (ms).
    pub binc: Option<u64>,
    /// Moves until the next time control.
    pub movestogo: Option<u32>,
    /// Search until told to stop.
    pub infinite: bool,
    /// Ponder mode.
    pub ponder: bool,
    /// Only search these moves.
    pub searchmoves: Vec<Move>,
    /// Search for a mate in this many moves.
    pub mate: Option<u32>,
    /// Maximum nodes to search.
    pub nodes: Option<u64>,
}

impl SearchParams {
    /// Parameters with nothing set.
    pub open spec fn spec_blank(self) -> bool {
        &&& self.depth is None
        &&& self.movetime is None
        &&& self.wtime is None
        &&& self.btime is None
        &&& self.winc is None
        &&& self.binc is None
        &&& self.movestogo is None
        &&& !self.infinite
        &&& !self.ponder
        &&& self.searchmoves@.len() == 0
        &&& self.mate is None
        &&& self.nodes is None
    }

    /// Parameters with nothing set.
    pub fn new() -> (r: SearchParams)
        ensures
            r.spec_blank(),
    {
        SearchParams {
            depth: None,
            movetime: None,
            wtime: None,
            btime: None,
            winc: None,
            binc: None,
            movestogo: None,
            infinite: false,
            ponder: false,
            searchmoves: Vec::new(),
            mate: None,
            nodes: None,
        }
    }

    /// Parameters for a fixed-depth search.
    pub fn fixed_depth(depth: i32) -> (r: SearchParams)
        ensures
            r.depth == Some(Depth(depth)),
            r.movetime is None,
            r.wtime is None,
            r.btime is None,
            !r.infinite,
    {
        let mut p = SearchParams::new();
        p.depth = Some(Depth::new(depth));
        p
    }

    /// Parameters for a fixed-time search.
    pub fn fixed_time(ms: u64) -> (r: SearchParams)
        ensures
            r.movetime == Some(ms),
            r.depth is None,
            r.wtime is None,
            r.btime is None,
            !r.infinite,
    {
        let mut p = SearchParams::new();
        p.movetime = Some(ms);
        p
    }
}

impl Default for SearchParams {
    /// Parameters with nothing set.
    fn default() -> (r: SearchParams)
        ensures
            r.spec_blank(),
    {
        SearchParams::new()
    }
}

/// An ASCII whitespace byte.
pub open spec fn spec_is_ws(b: u8) -> bool {
    b == 32 || (9 <= b <= 13)
}

/// An ASCII byte lowered: upper-case letters gain 32.
pub open spec fn spec_lower(b: u8) -> u8 {
    if 65 <= b <= 90 {
        (b + 32) as u8
    } else {
        b
    }
}

/// The first index at or after `i` holding a non-whitespace byte.
pub open spec fn spec_first_non_ws(b: Seq<u8>, i: int) -> int
    decreases b.len() - i,
{
    if i < 0 || i >= b.len() || !spec_is_ws(b[i]) {
        i
    } else {
        spec_first_non_ws(b, i + 1)
    }
}

/// The end of the text once trailing whitespace before `j` is dropped.
pub open spec fn spec_trim_end(b: Seq<u8>, j: int) -> int
    decreases j,
{
    if j <= 0 || j > b.len() || !spec_is_ws(b[j - 1]) {
        j
    } else {
        spec_trim_end(b, j - 1)
    }
}

/// The bytes trimmed of whitespace at both ends and lowered.
pub open spec fn spec_cleaned(b: Seq<u8>) -> Seq<u8> {
    let s = spec_first_non_ws(b, 0);
    let e = spec_trim_end(b, b.len() as int);
    if s <= e {
        b.subrange(s, e).map_values(|x: u8| spec_lower(x))
    } else {
        Seq::empty()
    }
}

/// The square named by a file letter and a rank digit.
pub open spec fn spec_square_of(f: u8, r: u8) -> Option<u8> {
    if 97 <= f <= 104 && 49 <= r <= 56 {
        Some((((r - 49) * 8 + (f - 97))) as u8)
    } else {
        None
    }
}

/// The promotion piece named by a letter, if any.
pub open spec fn spec_promo_of(b: u8) -> Option<Piece> {
    if b == 113 {
        Some(Piece::Queen)
    } else if b == 114 {
        Some(Piece::Rook)
    } else if b == 98 {
        Some(Piece::Bishop)
    } else if b == 110 {
        Some(Piece::Knight)
    } else {
        None
    }
}

/// The first legal move matching the parsed squares: with a promotion
/// letter the move must promote to that piece, without one it must not
/// promote at all.
pub open spec fn spec_match_uci(moves: Seq<Move>, from: u8, to: u8, promo: Option<Piece>) -> Option<
    Move,
>
    decreases moves.len(),
{
    if moves.len() == 0 {
        None
    } else {
        let m = moves[0];
        if m.from == from && m.to == to && m.flag.spec_promotion_piece() == promo {
            Some(m)
        } else {
            spec_match_uci(moves.drop_first(), from, to, promo)
        }
    }
}

/// What parsing cleaned move text yields: four square characters, an
/// optional promotion letter, matched against the legal moves.
pub open spec fn spec_parse_cleaned(c: Seq<u8>, moves: Seq<Move>) -> Option<Move> {
    if c.len() < 4 {
        None
    } else {
        match (spec_square_of(c[0], c[1]), spec_square_of(c[2], c[3])) {
            (Some(f), Some(t)) => spec_match_uci(
                moves,
                f,
                t,
                if c.len() > 4 {
                    spec_promo_of(c[4])
                } else {
                    None
                },
            ),
            _ => None,
        }
    }
}

/// What parsing a move string yields over a position's legal moves.
pub open spec fn spec_parse_move(bytes: Seq<u8>, moves: Seq<Move>) -> Option<Move> {
    spec_parse_cleaned(spec_cleaned(bytes), moves)
}

/// The trim indices stay within the text: the leading scan never passes the
/// end and the trailing scan never goes below zero.
proof fn lemma_trim_bounds(b: Seq<u8>, i: int, j: int)
    requires
        0 <= i <= b.len(),
        0 <= j <= b.len(),
    ensures
        i <= spec_first_non_ws(b, i) <= b.len(),
        0 <= spec_trim_end(b, j) <= j,
    decreases b.len() - i + j,
{
    if i < b.len() && spec_is_ws(b[i]) {
        lemma_trim_bounds(b, i + 1, j);
    }
    if j > 0 && spec_is_ws(b[j - 1]) {
        lemma_trim_bounds(b, i, j - 1);
    }
}

/// An ASCII whitespace byte.
fn is_ws_byte(c: u8) -> (r: bool)
    ensures
        r == spec_is_ws(c),
{
    c == 32 || (9 <= c && c <= 13)
}

/// Parse a move in long algebraic notation, case-insensitively, against the
/// given legal moves: the first legal move with the named squares and
/// promotion.
pub fn parse_move(moves: &Vec<Move>, move_str: &str) -> (r: Option<Move>)
    ensures
        r == spec_parse_move(move_str.spec_bytes(), moves@),
        r matches Some(m) ==> moves@.contains(m),
{
    let bytes = move_str.as_bytes();
    let len = bytes.len();
    let ghost b = move_str.spec_bytes();
    let mut start: usize = 0;
    while start < len && is_ws_byte(bytes[start])
        invariant
            start <= len,
            len == b.len(),
            bytes@ == b,
            spec_first_non_ws(b, 0) == spec_first_non_ws(b, start as int),
        decreases len - start,
    {
        start = start + 1;
    }
    let mut end: usize = len;
    while end > start && is_ws_byte(bytes[end - 1])
        invariant
            start <= end <= len,
            len == b.len(),
            bytes@ == b,
            spec_first_non_ws(b, 0) == start,
            spec_trim_end(b, len as int) == spec_trim_end(b, end as int),
        decreases end,
    {
        end = end - 1;
    }
    proof {
        lemma_trim_bounds(b, 0, end as int);
        if end > start {
            assert(spec_trim_end(b, end as int) == end);
        } else {
            assert(spec_trim_end(b, end as int) <= end);
        }
    }
    let mut cleaned: Vec<u8> = Vec::new();
    let mut i: usize = start;
    while i < end
        invariant
            start <= i <= end <= len,
            len == b.len(),
            bytes@ == b,
            cleaned@ == b.subrange(start as int, i as int).map_values(|x: u8| spec_lower(x)),
        decreases end - i,
    {
        let c = bytes[i];
        let lc = if 65 <= c && c <= 90 {
            c + 32
        } else {
            c
        };
        cleaned.push(lc);
        proof {
            assert(b.subrange(start as int, i + 1).map_values(|x: u8| spec_lower(x))
                == b.subrange(start as int, i as int).map_values(|x: u8| spec_lower(x)).push(
                spec_lower(b[i as int]),
            )) by {
                assert(b.subrange(start as int, i + 1) == b.subrange(start as int, i as int).push(
                    b[i as int],
                ));
            }
        }
        i = i + 1;
    }
    proof {
        if start <= end {
            assert(cleaned@ == spec_cleaned(b));
        }
    }
    if cleaned.len() < 4 {
        return None;
    }
    let from = match square_of(cleaned[0], cleaned[1]) {
        Some(f) => f,
        None => {
            return None;
        },
    };
    let to = match square_of(cleaned[2], cleaned[3]) {
        Some(t) => t,
        None => {
            return None;
        },
    };
    let promo = if cleaned.len() > 4 {
        let c = cleaned[4];
        if c == 113 {
            Some(Piece::Queen)
        } else if c == 114 {
            Some(Piece::Rook)
        } else if c == 98 {
            Some(Piece::Bishop)
        } else if c == 110 {
            Some(Piece::Knight)
        } else {
            None
        }
    } else {
        None
    };
    let n = moves.len();
    proof {
        assert(moves@.subrange(0, n as int) == moves@);
    }
    let mut k: usize = 0;
    while k < n
        invariant
            n == moves@.len(),
            k <= n,
            spec_match_uci(moves@, from, to, promo) == spec_match_uci(
                moves@.subrange(k as int, n as int),
                from,
                to,
                promo,
            ),
            spec_parse_move(b, moves@) == spec_match_uci(moves@, from, to, promo),
            b == move_str.spec_bytes(),
        decreases n - k,
    {
        let m = moves[k];
        let promo_matches = match (m.flag().promotion_piece(), promo) {
            (Some(a), Some(pb)) => a == pb,
            (None, None) => true,
            _ => false,
        };
        proof {
            assert(moves@.subrange(k as int, n as int).drop_first() == moves@.subrange(
                k as int + 1,
                n as int,
            ));
            assert(moves@.subrange(k as int, n as int)[0] == moves@[k as int]);
        }
        if m.from() == from && m.to() == to && promo_matches {
            proof {
                assert(m.flag.spec_promotion_piece() == promo);
                assert(spec_match_uci(moves@.subrange(k as int, n as int), from, to, promo)
                    == Some(m));
            }
            return Some(m);
        }
        k = k + 1;
    }
    proof {
        assert(moves@.subrange(n as int, n as int).len() == 0);
    }
    None
}

/// Parse a square from a file letter and rank digit.
fn square_of(f: u8, r: u8) -> (res: Option<u8>)
    ensures
        res == spec_square_of(f, r),
        res matches Some(sq) ==> sq < 64,
{
    if 97 <= f && f <= 104 && 49 <= r && r <= 56 {
        Some((r - 49) * 8 + (f - 97))
    } else {
        None
    }
}

/// The characters of a square in algebraic notation: file letter, rank
/// digit.
pub open spec fn spec_square_chars(sq: u8) -> Seq<char> {
    seq![((97 + sq % 8) as u8) as char, ((49 + sq / 8) as u8) as char]
}

/// The characters of a move in UCI long algebraic notation.
pub open spec fn spec_move_uci(m: Move) -> Seq<char> {
    spec_square_chars(m.from) + spec_square_chars(m.to) + match m.flag {
        MoveFlag::Promotion(Piece::Queen) => seq!['q'],
        MoveFlag::Promotion(Piece::Rook) => seq!['r'],
        MoveFlag::Promotion(Piece::Bishop) => seq!['b'],
        MoveFlag::Promotion(Piece::Knight) => seq!['n'],
        _ => Seq::empty(),
    }
}

/// Format a move in UCI long algebraic notation: source square,
/// destination square, and the promotion letter if the move promotes.
pub fn format_move(m: Move) -> (r: String)
    requires
        valid_move(m),
    ensures
        r@ == spec_move_uci(m),
{
    let mut s = String::new();
    string_push(&mut s, (97 + m.from % 8) as char);
    string_push(&mut s, (49 + m.from / 8) as char);
    string_push(&mut s, (97 + m.to % 8) as char);
    string_push(&mut s, (49 + m.to / 8) as char);
    match m.flag {
        MoveFlag::Promotion(Piece::Queen) => string_push(&mut s, 'q'),
        MoveFlag::Promotion(Piece::Rook) => string_push(&mut s, 'r'),
        MoveFlag::Promotion(Piece::Bishop) => string_push(&mut s, 'b'),
        MoveFlag::Promotion(Piece::Knight) => string_push(&mut s, 'n'),
        _ => {},
    }
    proof {
        assert(s@ =~= spec_move_uci(m));
    }
    s
}

} // verus!
