//! Polyglot opening book: 16-byte big-endian records sorted by key.
//!
//! Reading the file is the caller's business; the library takes the raw
//! bytes, checks the record shape and the key order, and answers probes by
//! a binary search to the lowest matching record followed by a walk over
//! the run of equal keys. Weighted move selection takes its seed as an
//! argument so that a probe is reproducible.

use vstd::prelude::*;
use crate::types::{Piece, Move};
use crate::position::Position;

verus! {

/// One record of the book: position key, packed move, weight, learn value.
#[derive(Debug, Clone, Copy, PartialEq, Eq, Structural)]
pub struct BookEntry {
    pub key: u64,
    pub raw_move: u16,
    pub weight: u16,
    pub learn: u32,
}

/// A big-endian 64-bit integer from eight bytes.
pub open spec fn spec_be_u64(b: Seq<u8>) -> int {
    b[0] * 0x100_0000_0000_0000 + b[1] * 0x1_0000_0000_0000 + b[2] * 0x100_0000_0000 + b[3]
        * 0x1_0000_0000 + b[4] * 0x100_0000 + b[5] * 0x1_0000 + b[6] * 0x100 + b[7]
}

/// The record encoded by sixteen bytes: key, move, weight and learn fields
/// in big-endian order.
pub open spec fn spec_entry_of_bytes(b: Seq<u8>) -> BookEntry {
    BookEntry {
        key: spec_be_u64(b.subrange(0, 8)) as u64,
        raw_move: (b[8] * 0x100 + b[9]) as u16,
        weight: (b[10] * 0x100 + b[11]) as u16,
        learn: (b[12] * 0x100_0000 + b[13] * 0x1_0000 + b[14] * 0x100 + b[15]) as u32,
    }
}

/// The records encoded by the bytes: one per sixteen-byte block, for the
/// first `n` blocks.
pub open spec fn spec_decoded_records(data: Seq<u8>, n: int) -> Seq<BookEntry>
    decreases n,
{
    if n <= 0 {
        Seq::empty()
    } else {
        spec_decoded_records(data, n - 1).push(
            spec_entry_of_bytes(data.subrange(16 * (n - 1), 16 * (n - 1) + 16)),
        )
    }
}

impl BookEntry {
    /// Decode one record from its sixteen bytes.
    pub fn from_bytes(bytes: &[u8; 16]) -> (r: BookEntry)
        ensures
            r == spec_entry_of_bytes(bytes@),
    {
        let key = ((bytes[0] as u64) << 56) | ((bytes[1] as u64) << 48) | ((bytes[2] as u64) << 40)
            | ((bytes[3] as u64) << 32) | ((bytes[4] as u64) << 24) | ((bytes[5] as u64) << 16) | ((
        bytes[6] as u64) << 8) | (bytes[7] as u64);
        let raw_move = ((bytes[8] as u16) << 8) | (bytes[9] as u16);
        let weight = ((bytes[10] as u16) << 8) | (bytes[11] as u16);
        let learn = ((bytes[12] as u32) << 24) | ((bytes[13] as u32) << 16) | ((bytes[14] as u32)
            << 8) | (bytes[15] as u32);
        proof {
            let b0 = bytes@[0];
            let b1 = bytes@[1];
            let b2 = bytes@[2];
            let b3 = bytes@[3];
            let b4 = bytes@[4];
            let b5 = bytes@[5];
            let b6 = bytes@[6];
            let b7 = bytes@[7];
            assert(((b0 as u64) << 56) | ((b1 as u64) << 48) | ((b2 as u64) << 40) | ((b3 as u64)
                << 32) | ((b4 as u64) << 24) | ((b5 as u64) << 16) | ((b6 as u64) << 8) | (
            b7 as u64) == (b0 as u64) * 0x100_0000_0000_0000 + (b1 as u64) * 0x1_0000_0000_0000 + (
            b2 as u64) * 0x100_0000_0000 + (b3 as u64) * 0x1_0000_0000 + (b4 as u64) * 0x100_0000
                + (b5 as u64) * 0x1_0000 + (b6 as u64) * 0x100 + (b7 as u64)) by (bit_vector);
            let c0 = bytes@[8];
            let c1 = bytes@[9];
            assert(((c0 as u16) << 8) | (c1 as u16) == (c0 as u16) * 0x100 + (c1 as u16))
                by (bit_vector);
            let d0 = bytes@[10];
            let d1 = bytes@[11];
            assert(((d0 as u16) << 8) | (d1 as u16) == (d0 as u16) * 0x100 + (d1 as u16))
                by (bit_vector);
            let e0 = bytes@[12];
            let e1 = bytes@[13];
            let e2 = bytes@[14];
            let e3 = bytes@[15];
            assert(((e0 as u32) << 24) | ((e1 as u32) << 16) | ((e2 as u32) << 8) | (e3 as u32)
                == (e0 as u32) * 0x100_0000 + (e1 as u32) * 0x1_0000 + (e2 as u32) * 0x100 + (
            e3 as u32)) by (bit_vector);
            assert(bytes@.subrange(0, 8)[0] == b0 && bytes@.subrange(0, 8)[1] == b1
                && bytes@.subrange(0, 8)[2] == b2 && bytes@.subrange(0, 8)[3] == b3
                && bytes@.subrange(0, 8)[4] == b4 && bytes@.subrange(0, 8)[5] == b5
                && bytes@.subrange(0, 8)[6] == b6 && bytes@.subrange(0, 8)[7] == b7);
        }
        BookEntry { key, raw_move, weight, learn }
    }

    /// The squares and promotion encoded in the packed move: destination
    /// file and rank in the low bits, then source file and rank, then the
    /// promotion code.
    pub open spec fn spec_decoded(self) -> (u8, u8, Option<Piece>) {
        let to = ((self.raw_move >> 3) & 0x7) * 8 + (self.raw_move & 0x7);
        let from = ((self.raw_move >> 9) & 0x7) * 8 + ((self.raw_move >> 6) & 0x7);
        let promo = (self.raw_move >> 12) & 0x7;
        (
            from as u8,
            to as u8,
            if promo == 1 {
                Some(Piece::Knight)
            } else if promo == 2 {
                Some(Piece::Bishop)
            } else if promo == 3 {
                Some(Piece::Rook)
            } else if promo == 4 {
                Some(Piece::Queen)
            } else {
                None
            },
        )
    }

    /// Unpack the record's move: source square, destination square and
    /// promotion piece.
    pub fn decode_move(&self) -> (r: (u8, u8, Option<Piece>))
        ensures
            r == self.spec_decoded(),
            r.0 < 64,
            r.1 < 64,
    {
        let m = self.raw_move;
        let to_file = (m & 0x7) as u8;
        let to_rank = ((m >> 3) & 0x7) as u8;
        let from_file = ((m >> 6) & 0x7) as u8;
        let from_rank = ((m >> 9) & 0x7) as u8;
        let promo = (m >> 12) & 0x7;
        assert(m & 0x7 < 8 && (m >> 3) & 0x7 < 8 && (m >> 6) & 0x7 < 8 && (m >> 9) & 0x7 < 8)
            by (bit_vector);
        let from = from_rank * 8 + from_file;
        let to = to_rank * 8 + to_file;
        let promotion = if promo == 1 {
            Some(Piece::Knight)
        } else if promo == 2 {
            Some(Piece::Bishop)
        } else if promo == 3 {
            Some(Piece::Rook)
        } else if promo == 4 {
            Some(Piece::Queen)
        } else {
            None
        };
        (from, to, promotion)
    }

    /// The destination after the book's castling convention is undone: the
    /// book writes a castle as the king capturing its own rook, so a king
    /// standing on the e-file with a destination on the rook's file is
    /// redirected to the castled file on the same rank.
    pub open spec fn spec_adjusted_castling(pos: Position, from: u8, to: u8) -> u8 {
        if pos.spec_piece_at(from) matches Some(pc) && pc.0 == Piece::King && from as int % 8 == 4 {
            if to as int % 8 == 7 {
                ((to as int / 8) * 8 + 6) as u8
            } else if to as int % 8 == 0 {
                ((to as int / 8) * 8 + 2) as u8
            } else {
                to
            }
        } else {
            to
        }
    }

    /// The first legal move matching the unpacked squares and promotion.
    pub open spec fn spec_matched(moves: Seq<Move>, from: u8, to: u8, promo: Option<Piece>) -> Option<
        Move,
    >
        decreases moves.len(),
    {
        if moves.len() == 0 {
            None
        } else {
            let m = moves[0];
            if m.from == from && m.to == to && m.flag.spec_promotion_piece() == promo {
                Some(m)
            } else {
                Self::spec_matched(moves.drop_first(), from, to, promo)
            }
        }
    }

    /// Match the record against a position's legal moves: the decoded
    /// squares, with the castling convention undone, select the first legal
    /// move that agrees on source, destination and promotion.
    pub fn to_chess_move(&self, pos: &Position, moves: &Vec<Move>) -> (r: Option<Move>)
        ensures
            r == spec_book_move(*self, *pos, moves@),
            r matches Some(m) ==> moves@.contains(m),
    {
        let (from, to, promo) = self.decode_move();
        let is_king_on_e = match pos.piece_at(from) {
            Some(pc) => pc.0 == Piece::King && from % 8 == 4,
            None => false,
        };
        let actual_to = if is_king_on_e {
            if to % 8 == 7 {
                to / 8 * 8 + 6
            } else if to % 8 == 0 {
                to / 8 * 8 + 2
            } else {
                to
            }
        } else {
            to
        };
        let n = moves.len();
        proof {
            assert(actual_to == BookEntry::spec_adjusted_castling(*pos, from, to));
            assert(moves@.subrange(0, n as int) == moves@);
        }
        let mut i: usize = 0;
        while i < n
            invariant
                n == moves@.len(),
                i <= n,
                from == self.spec_decoded().0,
                promo == self.spec_decoded().2,
                actual_to == BookEntry::spec_adjusted_castling(
                    *pos,
                    self.spec_decoded().0,
                    self.spec_decoded().1,
                ),
                BookEntry::spec_matched(moves@, from, actual_to, promo)
                    == BookEntry::spec_matched(
                    moves@.subrange(i as int, n as int),
                    from,
                    actual_to,
                    promo,
                ),
            decreases n - i,
        {
            let m = moves[i];
            let promo_matches = match (m.flag().promotion_piece(), promo) {
                (Some(a), Some(b)) => a == b,
                (None, None) => true,
                _ => false,
            };
            proof {
                assert(moves@.subrange(i as int, n as int).drop_first() == moves@.subrange(
                    i as int + 1,
                    n as int,
                ));
            }
            if m.from() == from && m.to() == actual_to && promo_matches {
                proof {
                    assert(moves@.subrange(i as int, n as int)[0] == m);
                    assert(m.flag.spec_promotion_piece() == promo);
                    assert(BookEntry::spec_matched(
                        moves@.subrange(i as int, n as int),
                        from,
                        actual_to,
                        promo,
                    ) == Some(m));
                }
                return Some(m);
            }
            i = i + 1;
        }
        proof {
            assert(moves@.subrange(n as int, n as int).len() == 0);
        }
        None
    }
}

/// The move a record selects on a position: its decoded squares, with the
/// castling convention undone, matched against the legal moves.
pub open spec fn spec_book_move(e: BookEntry, pos: Position, moves: Seq<Move>) -> Option<Move> {
    let d = e.spec_decoded();
    BookEntry::spec_matched(moves, d.0, BookEntry::spec_adjusted_castling(pos, d.0, d.1), d.2)
}

/// The keys are sorted in ascending order.
pub open spec fn spec_sorted_by_key(entries: Seq<BookEntry>) -> bool {
    forall|i: int, j: int| 0 <= i < j < entries.len() ==> entries[i].key <= entries[j].key
}

/// The records holding a key, in book order.
pub open spec fn spec_key_run(entries: Seq<BookEntry>, key: u64) -> Seq<BookEntry>
    decreases entries.len(),
{
    if entries.len() == 0 {
        Seq::empty()
    } else if entries[0].key == key {
        seq![entries[0]] + spec_key_run(entries.drop_first(), key)
    } else {
        spec_key_run(entries.drop_first(), key)
    }
}

/// Where no record holds the key outside `[s, t)` and every record inside
/// does, the key's records are exactly that range.
proof fn lemma_key_run_is_range(entries: Seq<BookEntry>, key: u64, s: int, t: int)
    requires
        0 <= s <= t <= entries.len(),
        forall|j: int| 0 <= j < s ==> entries[j].key != key,
        forall|j: int| s <= j < t ==> entries[j].key == key,
        forall|j: int| t <= j < entries.len() ==> entries[j].key != key,
    ensures
        spec_key_run(entries, key) == entries.subrange(s, t),
    decreases entries.len(),
{
    if entries.len() == 0 {
        assert(entries.subrange(s, t) =~= Seq::<BookEntry>::empty());
    } else if s > 0 {
        lemma_key_run_is_range(entries.drop_first(), key, s - 1, t - 1);
        assert(entries.drop_first().subrange(s - 1, t - 1) =~= entries.subrange(s, t));
    } else if t == 0 {
        lemma_key_run_is_range(entries.drop_first(), key, 0, 0);
        assert(entries.drop_first().subrange(0, 0) =~= entries.subrange(0, 0));
    } else {
        lemma_key_run_is_range(entries.drop_first(), key, 0, t - 1);
        assert(seq![entries[0]] + entries.drop_first().subrange(0, t - 1) =~= entries.subrange(
            0,
            t,
        ));
    }
}

/// Sum of the weights of the first `n` records.
pub open spec fn spec_weight_total(entries: Seq<BookEntry>, n: int) -> int
    decreases n,
{
    if n <= 0 {
        0
    } else {
        spec_weight_total(entries, n - 1) + entries[n - 1].weight
    }
}

/// The record the weight rule picks among the first `n`: the last one of
/// maximal weight.
pub open spec fn spec_heaviest_upto(entries: Seq<BookEntry>, n: int) -> int
    decreases n,
{
    if n <= 1 {
        0
    } else {
        let b = spec_heaviest_upto(entries, n - 1);
        if entries[n - 1].weight >= entries[b].weight {
            n - 1
        } else {
            b
        }
    }
}

/// The record a point of the weight space falls on, scanning cumulative
/// weights from record `j` on; the record count when the point lies beyond
/// the total.
pub open spec fn spec_weighted_pick(entries: Seq<BookEntry>, point: int, j: int) -> int
    decreases entries.len() - j,
{
    if j < 0 || j >= entries.len() {
        entries.len() as int
    } else if point < spec_weight_total(entries, j + 1) {
        j
    } else {
        spec_weighted_pick(entries, point, j + 1)
    }
}

/// The congruential step that turns the caller's seed into a point of the
/// weight space.
pub open spec fn spec_lcg(seed: u64) -> u64 {
    vstd::wrapping::u64_specs::wrapping_add(
        vstd::wrapping::u64_specs::wrapping_mul(seed, 6364136223846793005),
        1,
    )
}

/// An opening book held in memory: records sorted ascending by key.
pub struct PolyglotBook {
    entries: Vec<BookEntry>,
}

impl PolyglotBook {
    /// The records of the book.
    pub closed spec fn spec_entries(self) -> Seq<BookEntry> {
        self.entries@
    }

    /// The records are sorted by key.
    pub open spec fn wf(self) -> bool {
        spec_sorted_by_key(self.spec_entries())
    }

    /// A book from its records; refused unless they are sorted by key.
    pub fn from_entries(entries: Vec<BookEntry>) -> (r: Option<PolyglotBook>)
        ensures
            r matches Some(b) ==> b.wf() && b.spec_entries() == entries@,
            r is None ==> !spec_sorted_by_key(entries@),
    {
        let n = entries.len();
        let mut i: usize = 1;
        while i < n
            invariant
                n == entries@.len(),
                1 <= i || n == 0,
                i <= n || (i == 1 && n == 0),
                forall|a: int, b: int| 0 <= a < b < i ==> entries@[a].key <= entries@[b].key,
            decreases n - i,
        {
            if entries[i - 1].key > entries[i].key {
                return None;
            }
            proof {
                assert forall|a: int, b: int| 0 <= a < b < i + 1 implies entries@[a].key
                    <= entries@[b].key by {
                    if b == i as int {
                        assert(entries@[a].key <= entries@[i - 1].key);
                    }
                }
            }
            i = i + 1;
        }
        Some(PolyglotBook { entries })
    }

    /// A book from the raw bytes of a book file: a whole number of 16-byte
    /// records, sorted by key; the decoded records exactly, or nothing when
    /// the byte count is uneven or the keys are out of order.
    pub fn from_bytes(data: &Vec<u8>) -> (r: Option<PolyglotBook>)
        ensures
            r matches Some(b) ==> b.wf() && data@.len() % 16 == 0 && b.spec_entries()
                == spec_decoded_records(data@, data@.len() as int / 16),
            r is None ==> data@.len() % 16 != 0 || !spec_sorted_by_key(
                spec_decoded_records(data@, data@.len() as int / 16),
            ),
    {
        if data.len() % 16 != 0 {
            return None;
        }
        let count = data.len() / 16;
        proof {
            vstd::arithmetic::div_mod::lemma_fundamental_div_mod(data@.len() as int, 16);
            assert(data@.len() == 16 * count);
        }
        let mut entries: Vec<BookEntry> = Vec::new();
        let mut i: usize = 0;
        while i < count
            invariant
                data@.len() == 16 * count,
                data@.len() <= usize::MAX,
                i <= count,
                entries@ == spec_decoded_records(data@, i as int),
                entries@.len() == i,
            decreases count - i,
        {
            assert(i * 16 + 16 <= count * 16) by (nonlinear_arith)
                requires
                    i < count,
            ;
            let base = i * 16;
            let mut raw: [u8; 16] = [0; 16];
            let mut k: usize = 0;
            while k < 16
                invariant
                    k <= 16,
                    base + 16 <= data@.len(),
                    data@.len() <= usize::MAX,
                    forall|idx: int| 0 <= idx < k ==> raw@[idx] == data@[base + idx],
                decreases 16 - k,
            {
                raw[k] = data[base + k];
                k = k + 1;
            }
            proof {
                assert(raw@ =~= data@.subrange(base as int, base as int + 16));
            }
            entries.push(BookEntry::from_bytes(&raw));
            i = i + 1;
        }
        proof {
            assert(count as int == data@.len() as int / 16);
        }
        PolyglotBook::from_entries(entries)
    }

    /// The number of records.
    pub fn len(&self) -> (r: usize)
        ensures
            r == self.spec_entries().len(),
    {
        self.entries.len()
    }

    /// Whether the book has no records.
    pub fn is_empty(&self) -> (r: bool)
        ensures
            r == (self.spec_entries().len() == 0),
    {
        self.entries.len() == 0
    }

    /// Every record whose key equals the probe key, in book order: found by
    /// a binary search to the lowest matching index and a walk over the run
    /// of equal keys.
    pub fn probe(&self, key: u64) -> (r: Vec<BookEntry>)
        requires
            self.wf(),
        ensures
            r@ == spec_key_run(self.spec_entries(), key),
            forall|i: int| 0 <= i < r@.len() ==> r@[i].key == key,
    {
        let n = self.entries.len();
        let mut lo: usize = 0;
        let mut hi: usize = n;
        while lo < hi
            invariant
                lo <= hi <= n,
                n == self.spec_entries().len(),
                self.wf(),
                forall|i: int| 0 <= i < lo ==> self.spec_entries()[i].key < key,
                forall|i: int| hi <= i < n ==> self.spec_entries()[i].key >= key,
            decreases hi - lo,
        {
            let mid = lo + (hi - lo) / 2;
            if self.entries[mid].key < key {
                proof {
                    assert forall|i: int| 0 <= i < mid + 1 implies self.spec_entries()[i].key
                        < key by {
                        assert(self.spec_entries()[i].key <= self.spec_entries()[mid as int].key);
                    }
                }
                lo = mid + 1;
            } else {
                proof {
                    assert forall|i: int| mid <= i < n implies self.spec_entries()[i].key >= key by {
                        assert(self.spec_entries()[mid as int].key <= self.spec_entries()[i].key);
                    }
                }
                hi = mid;
            }
        }
        let start = lo;
        let mut res: Vec<BookEntry> = Vec::new();
        let mut i: usize = start;
        while i < n && self.entries[i].key == key
            invariant
                start <= i <= n,
                n == self.spec_entries().len(),
                self.wf(),
                forall|j: int| 0 <= j < start ==> self.spec_entries()[j].key < key,
                forall|j: int| start <= j < i ==> self.spec_entries()[j].key == key,
                res@ == self.spec_entries().subrange(start as int, i as int),
                forall|j: int| 0 <= j < res@.len() ==> res@[j].key == key,
            decreases n - i,
        {
            let e = self.entries[i];
            res.push(e);
            proof {
                assert(res@ == self.spec_entries().subrange(start as int, i + 1));
            }
            i = i + 1;
        }
        proof {
            assert forall|j: int|
                i <= j < self.spec_entries().len() implies self.spec_entries()[j].key != key by {
                assert(self.spec_entries()[i as int].key >= key);
                assert(self.spec_entries()[i as int].key <= self.spec_entries()[j].key);
            }
            lemma_key_run_is_range(self.spec_entries(), key, start as int, i as int);
        }
        res
    }

    /// The book move with the largest weight among the records of a key:
    /// the last of the heaviest records of the key's run, matched against
    /// the legal moves; nothing when the key has no records.
    pub fn probe_best_move(&self, key: u64, pos: &Position, moves: &Vec<Move>) -> (r: Option<Move>)
        requires
            self.wf(),
        ensures
            ({
                let run = spec_key_run(self.spec_entries(), key);
                &&& run.len() == 0 ==> r is None
                &&& run.len() > 0 ==> r == spec_book_move(
                    run[spec_heaviest_upto(run, run.len() as int)],
                    *pos,
                    moves@,
                )
            }),
            r matches Some(m) ==> moves@.contains(m),
    {
        let entries = self.probe(key);
        if entries.len() == 0 {
            return None;
        }
        let mut best: usize = 0;
        let mut i: usize = 1;
        let n = entries.len();
        while i < n
            invariant
                n == entries@.len(),
                best < i,
                1 <= i <= n,
                best as int == spec_heaviest_upto(entries@, i as int),
            decreases n - i,
        {
            if entries[i].weight >= entries[best].weight {
                best = i;
            }
            i = i + 1;
        }
        let e = entries[best];
        e.to_chess_move(pos, moves)
    }

    /// A weighted book move for a key, driven by the caller's seed so that
    /// a probe is reproducible: the seed steps a linear congruential
    /// generator and the resulting point, taken modulo the total weight,
    /// picks the record whose cumulative weight first exceeds it. With all
    /// weights zero the first record's move is taken.
    #[verifier::rlimit(50)]
    pub fn probe_move(&self, key: u64, pos: &Position, moves: &Vec<Move>, seed: u64) -> (r: Option<
        Move,
    >)
        requires
            self.wf(),
        ensures
            ({
                let run = spec_key_run(self.spec_entries(), key);
                let total = spec_weight_total(run, run.len() as int);
                &&& run.len() == 0 ==> r is None
                &&& run.len() > 0 && total == 0 ==> r == spec_book_move(run[0], *pos, moves@)
                &&& run.len() > 0 && total > 0 ==> {
                    let k = spec_weighted_pick(run, spec_lcg(seed) as int % total, 0);
                    r == spec_book_move(
                        run[if k < run.len() {
                            k
                        } else {
                            0
                        }],
                        *pos,
                        moves@,
                    )
                }
            }),
            r matches Some(m) ==> moves@.contains(m),
    {
        let entries = self.probe(key);
        if entries.len() == 0 {
            return None;
        }
        let n = entries.len();
        let mut total: u128 = 0;
        let mut i: usize = 0;
        while i < n
            invariant
                n == entries@.len(),
                i <= n,
                total <= i * 0x1_0000,
                total == spec_weight_total(entries@, i as int),
            decreases n - i,
        {
            total = total + entries[i].weight as u128;
            i = i + 1;
        }
        if total == 0 {
            return entries[0].to_chess_move(pos, moves);
        }
        let random = seed.wrapping_mul(6364136223846793005).wrapping_add(1) as u128 % total;
        proof {
            assert(random == spec_lcg(seed) as int % spec_weight_total(entries@, n as int));
        }
        let mut cum: u128 = 0;
        let mut j: usize = 0;
        let mut pick: usize = n;
        while j < n
            invariant_except_break
                pick == n,
                cum <= j * 0x1_0000,
                cum == spec_weight_total(entries@, j as int),
                spec_weighted_pick(entries@, random as int, 0) == spec_weighted_pick(
                    entries@,
                    random as int,
                    j as int,
                ),
            invariant
                n == entries@.len(),
                j <= n,
            ensures
                spec_weighted_pick(entries@, random as int, 0) == if pick < n {
                    pick as int
                } else {
                    entries@.len() as int
                },
            decreases n - j,
        {
            cum = cum + entries[j].weight as u128;
            proof {
                assert(cum == spec_weight_total(entries@, j as int + 1));
            }
            if random < cum {
                proof {
                    assert(spec_weighted_pick(entries@, random as int, j as int) == j as int);
                }
                pick = j;
                break ;
            }
            proof {
                assert(spec_weighted_pick(entries@, random as int, j as int)
                    == spec_weighted_pick(entries@, random as int, j as int + 1));
            }
            j = j + 1;
        }
        let chosen = if pick < n {
            pick
        } else {
            0
        };
        entries[chosen].to_chess_move(pos, moves)
    }
}

} // verus!
