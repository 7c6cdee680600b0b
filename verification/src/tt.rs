//! Transposition table for caching search results.
//!
//! Entries are packed into 16 bytes: a 16-bit key taken from the upper bits
//! of the Zobrist hash, a 16-bit encoded best move, a 16-bit score, an 8-bit
//! depth, and one byte holding the bound kind in its low two bits and the
//! generation in the high six. Replacement is depth-preferred with
//! generation-based aging.

use vstd::prelude::*;
use crate::types::{Move, MoveFlag, Piece, Depth, valid_move};
use crate::score::Score;

verus! {

/// Kind of bound a stored score carries.
#[derive(Debug, Clone, Copy, PartialEq, Eq, Structural)]
pub enum BoundType {
    /// No bound: the entry is empty.
    NoBound,
    /// Exact score from a fully searched window.
    Exact,
    /// The score is a lower bound (the node failed high).
    LowerBound,
    /// The score is an upper bound (the node failed low).
    UpperBound,
}

/// The two bits a bound kind packs to.
pub open spec fn spec_bound_bits(b: BoundType) -> u8 {
    match b {
        BoundType::NoBound => 0,
        BoundType::Exact => 1,
        BoundType::LowerBound => 2,
        BoundType::UpperBound => 3,
    }
}

/// The bound kind encoded by the low two bits of a byte.
pub open spec fn spec_bound_of_bits(v: u8) -> BoundType {
    if v & 0x03 == 1 {
        BoundType::Exact
    } else if v & 0x03 == 2 {
        BoundType::LowerBound
    } else if v & 0x03 == 3 {
        BoundType::UpperBound
    } else {
        BoundType::NoBound
    }
}

impl From<u8> for BoundType {
    /// Read a bound kind out of the low two bits of a byte.
    fn from(v: u8) -> (r: BoundType) {
        let low = v & 0x03;
        if low == 1 {
            BoundType::Exact
        } else if low == 2 {
            BoundType::LowerBound
        } else if low == 3 {
            BoundType::UpperBound
        } else {
            BoundType::NoBound
        }
    }
}

impl vstd::std_specs::convert::FromSpecImpl<u8> for BoundType {
    open spec fn obeys_from_spec() -> bool {
        true
    }

    open spec fn from_spec(v: u8) -> BoundType {
        spec_bound_of_bits(v)
    }
}

/// The four promotion bits of the packed move encoding: none is 0, then
/// knight through queen are 1 through 4.
pub open spec fn spec_promo_bits(f: MoveFlag) -> u16 {
    match f {
        MoveFlag::Promotion(Piece::Knight) => 1,
        MoveFlag::Promotion(Piece::Bishop) => 2,
        MoveFlag::Promotion(Piece::Rook) => 3,
        MoveFlag::Promotion(Piece::Queen) => 4,
        _ => 0,
    }
}

/// The flag encoded by the promotion bits.
pub open spec fn spec_flag_of_bits(bits: u16) -> MoveFlag {
    if bits == 1 {
        MoveFlag::Promotion(Piece::Knight)
    } else if bits == 2 {
        MoveFlag::Promotion(Piece::Bishop)
    } else if bits == 3 {
        MoveFlag::Promotion(Piece::Rook)
    } else if bits == 4 {
        MoveFlag::Promotion(Piece::Queen)
    } else {
        MoveFlag::Quiet
    }
}

/// A move packed into 16 bits: source in the low six, destination in the
/// next six, promotion in the top four.
pub open spec fn spec_encode_move(m: Move) -> u16 {
    ((m.from as u16) | ((m.to as u16) << 6)) | (spec_promo_bits(m.flag) << 12)
}

/// The move packed into 16 bits, or 0 for no move.
pub open spec fn spec_encode_opt_move(m: Option<Move>) -> u16 {
    match m {
        Some(mv) => spec_encode_move(mv),
        None => 0,
    }
}

/// The move unpacked from 16 bits; 0 decodes to no move.
pub open spec fn spec_decode_move(e: u16) -> Option<Move> {
    if e == 0 {
        None
    } else {
        Some(
            Move {
                from: (e & 0x3F) as u8,
                to: ((e >> 6) & 0x3F) as u8,
                flag: spec_flag_of_bits((e >> 12) & 0x0F),
            },
        )
    }
}

/// Pack a move into 16 bits: source, destination, promotion piece.
pub fn encode_move(m: Option<Move>) -> (r: u16)
    requires
        m matches Some(mv) ==> valid_move(mv),
    ensures
        r == spec_encode_opt_move(m),
{
    match m {
        Some(mv) => {
            let promo: u16 = match mv.flag {
                MoveFlag::Promotion(Piece::Knight) => 1,
                MoveFlag::Promotion(Piece::Bishop) => 2,
                MoveFlag::Promotion(Piece::Rook) => 3,
                MoveFlag::Promotion(Piece::Queen) => 4,
                _ => 0,
            };
            ((mv.from as u16) | ((mv.to as u16) << 6)) | (promo << 12)
        },
        None => 0,
    }
}

/// Unpack a 16-bit encoded move; 0 yields no move.
pub fn decode_move(encoded: u16) -> (r: Option<Move>)
    ensures
        r == spec_decode_move(encoded),
        r matches Some(mv) ==> valid_move(mv),
{
    if encoded == 0 {
        return None;
    }
    let from_idx = (encoded & 0x3F) as u8;
    let to_idx = ((encoded >> 6) & 0x3F) as u8;
    let promo_bits = (encoded >> 12) & 0x0F;
    assert(encoded & 0x3F < 64 && (encoded >> 6) & 0x3F < 64) by (bit_vector);
    let flag = if promo_bits == 1 {
        MoveFlag::Promotion(Piece::Knight)
    } else if promo_bits == 2 {
        MoveFlag::Promotion(Piece::Bishop)
    } else if promo_bits == 3 {
        MoveFlag::Promotion(Piece::Rook)
    } else if promo_bits == 4 {
        MoveFlag::Promotion(Piece::Queen)
    } else {
        MoveFlag::Quiet
    };
    Some(Move { from: from_idx, to: to_idx, flag })
}

/// Move encoding round trip: every move whose squares differ survives
/// packing and unpacking with its source, destination and promotion piece
/// intact. (Equal source and destination never occur in a legal move.)
pub proof fn lemma_move_encoding_round_trip(m: Move)
    requires
        valid_move(m),
        m.from != m.to,
    ensures
        spec_decode_move(spec_encode_move(m)) matches Some(d) && d.from == m.from && d.to == m.to
            && d.flag.spec_promotion_piece() == m.flag.spec_promotion_piece(),
{
    let f = m.from;
    let t = m.to;
    let b = spec_promo_bits(m.flag);
    assert(b <= 4);
    let e = spec_encode_move(m);
    assert(e == ((f as u16) | ((t as u16) << 6)) | (b << 12));
    assert({
        let e2 = ((f as u16) | ((t as u16) << 6)) | (b << 12);
        &&& e2 != 0
        &&& (e2 & 0x3F) as u8 == f
        &&& ((e2 >> 6) & 0x3F) as u8 == t
        &&& (e2 >> 12) & 0x0F == b
    }) by (bit_vector)
        requires
            f < 64,
            t < 64,
            b <= 4,
            f != t,
    ;
}

/// One packed entry of the transposition table.
#[derive(Debug, Clone, Copy, PartialEq, Eq, Structural)]
pub struct TTEntry {
    key: u16,
    best_move: u16,
    score: i16,
    depth: i8,
    bound_and_age: u8,
}

impl TTEntry {
    /// The packed fields of a fresh entry.
    pub closed spec fn spec_new(
        hash: u64,
        best_move: Option<Move>,
        score: Score,
        depth: Depth,
        bound: BoundType,
        generation: u8,
    ) -> TTEntry {
        TTEntry {
            key: (hash >> 48) as u16,
            best_move: spec_encode_opt_move(best_move),
            score: score.0,
            depth: depth.0 as i8,
            bound_and_age: spec_bound_bits(bound) | ((generation & 0x3F) << 2),
        }
    }

    /// The stored key.
    pub closed spec fn spec_key(self) -> u16 {
        self.key
    }

    /// The stored bound kind.
    pub closed spec fn spec_bound(self) -> BoundType {
        spec_bound_of_bits(self.bound_and_age)
    }

    /// The stored generation.
    pub closed spec fn spec_generation(self) -> u8 {
        self.bound_and_age >> 2
    }

    /// The stored score value.
    pub closed spec fn spec_score(self) -> int {
        self.score as int
    }

    /// The stored depth value.
    pub closed spec fn spec_depth(self) -> int {
        self.depth as int
    }

    /// The stored encoded move.
    pub closed spec fn spec_best_move(self) -> u16 {
        self.best_move
    }

    /// An entry is empty when it holds no bound.
    pub open spec fn spec_is_empty(self) -> bool {
        self.spec_bound() == BoundType::NoBound
    }

    /// An entry matches a hash when its key equals the hash's upper bits.
    pub open spec fn spec_matches(self, hash: u64) -> bool {
        self.spec_key() == (hash >> 48) as u16
    }

    /// Pack a new entry.
    pub fn new(
        hash: u64,
        best_move: Option<Move>,
        score: Score,
        depth: Depth,
        bound: BoundType,
        generation: u8,
    ) -> (r: TTEntry)
        requires
            best_move matches Some(m) ==> valid_move(m),
            -128 <= depth.0 <= 127,
        ensures
            r == TTEntry::spec_new(hash, best_move, score, depth, bound, generation),
            r.spec_bound() == bound,
            r.spec_generation() == generation & 0x3F,
            r.spec_score() == score.value(),
            r.spec_depth() == depth.0,
            r.spec_best_move() == spec_encode_opt_move(best_move),
            r.spec_matches(hash),
    {
        let bits: u8 = match bound {
            BoundType::NoBound => 0,
            BoundType::Exact => 1,
            BoundType::LowerBound => 2,
            BoundType::UpperBound => 3,
        };
        let baa: u8 = bits | ((generation & 0x3F) << 2);
        assert((bits | ((generation & 0x3F) << 2)) & 0x03 == bits && (bits | ((generation & 0x3F)
            << 2)) >> 2 == generation & 0x3F) by (bit_vector)
            requires
                bits <= 3,
        ;
        TTEntry {
            key: (hash >> 48) as u16,
            best_move: encode_move(best_move),
            score: score.0,
            depth: depth.0 as i8,
            bound_and_age: baa,
        }
    }

    /// Whether this entry belongs to the given hash.
    pub fn matches(&self, hash: u64) -> (r: bool)
        ensures
            r == self.spec_matches(hash),
    {
        self.key == (hash >> 48) as u16
    }

    /// The stored bound kind.
    pub fn bound(&self) -> (r: BoundType)
        ensures
            r == self.spec_bound(),
    {
        let low = self.bound_and_age & 0x03;
        if low == 1 {
            BoundType::Exact
        } else if low == 2 {
            BoundType::LowerBound
        } else if low == 3 {
            BoundType::UpperBound
        } else {
            BoundType::NoBound
        }
    }

    /// The stored generation.
    pub fn generation(&self) -> (r: u8)
        ensures
            r == self.spec_generation(),
    {
        self.bound_and_age >> 2
    }

    /// The stored score.
    pub fn score(&self) -> (r: Score)
        ensures
            r.value() == self.spec_score(),
    {
        Score(self.score)
    }

    /// The stored depth.
    pub fn depth(&self) -> (r: Depth)
        ensures
            r.0 == self.spec_depth(),
    {
        Depth(self.depth as i32)
    }

    /// The stored best move, decoded.
    pub fn best_move(&self) -> (r: Option<Move>)
        ensures
            r == spec_decode_move(self.spec_best_move()),
    {
        decode_move(self.best_move)
    }

    /// Whether the entry is empty.
    pub fn is_empty(&self) -> (r: bool)
        ensures
            r == self.spec_is_empty(),
    {
        match self.bound() {
            BoundType::NoBound => true,
            _ => false,
        }
    }

    /// An entry with nothing in it.
    pub fn empty() -> (r: TTEntry)
        ensures
            r.spec_is_empty(),
            r.spec_key() == 0,
            r.spec_best_move() == 0,
            r.spec_score() == 0,
            r.spec_depth() == 0,
            r.spec_generation() == 0,
    {
        assert(0u8 & 0x03 == 0 && 0u8 >> 2 == 0) by (bit_vector);
        TTEntry { key: 0, best_move: 0, score: 0, depth: 0, bound_and_age: 0 }
    }
}

impl Default for TTEntry {
    /// An empty entry.
    fn default() -> (r: TTEntry)
        ensures
            r.spec_is_empty(),
    {
        TTEntry::empty()
    }
}

/// A power of two: one, or twice a power of two.
pub open spec fn spec_is_pow2(n: int) -> bool
    decreases n,
{
    if n <= 0 {
        false
    } else if n == 1 {
        true
    } else {
        n % 2 == 0 && spec_is_pow2(n / 2)
    }
}

/// The slot a hash maps to in a table of `len` entries: the hash masked by
/// `len - 1`.
pub open spec fn spec_slot(len: int, hash: u64) -> int {
    ((hash as usize) & ((len - 1) as usize)) as int
}

/// What a probe finds among `entries`: the entry in the hash's slot, if it
/// matches the hash and is not empty.
pub open spec fn spec_probe_entries(entries: Seq<TTEntry>, hash: u64) -> Option<TTEntry> {
    let e = entries[spec_slot(entries.len() as int, hash)];
    if e.spec_matches(hash) && !e.spec_is_empty() {
        Some(e)
    } else {
        None
    }
}

/// Whether a store replaces the slot of `hash`: it does when the slot is
/// empty, from another generation, or searched no deeper than `depth`.
pub open spec fn spec_replace_at(entries: Seq<TTEntry>, generation: u8, hash: u64, depth: int) -> bool {
    let e = entries[spec_slot(entries.len() as int, hash)];
    e.spec_is_empty() || e.spec_generation() != generation || depth >= e.spec_depth()
}

/// The entries after a store under the depth-preferred replacement rule.
pub open spec fn spec_store_entries(
    entries: Seq<TTEntry>,
    generation: u8,
    hash: u64,
    best_move: Option<Move>,
    score: Score,
    depth: Depth,
    bound: BoundType,
) -> Seq<TTEntry> {
    if spec_replace_at(entries, generation, hash, depth.0 as int) {
        entries.update(
            spec_slot(entries.len() as int, hash),
            TTEntry::spec_new(hash, best_move, score, depth, bound, generation),
        )
    } else {
        entries
    }
}

/// The transposition table: a power-of-two sized array of packed entries
/// and the current generation.
pub struct TranspositionTable {
    entries: Vec<TTEntry>,
    generation: u8,
    size_mb: usize,
}

impl TranspositionTable {
    /// The stored entries.
    pub closed spec fn spec_entries(self) -> Seq<TTEntry> {
        self.entries@
    }

    /// The current generation.
    pub closed spec fn spec_generation(self) -> u8 {
        self.generation
    }

    /// The recorded size in megabytes.
    pub closed spec fn spec_size_mb(self) -> int {
        self.size_mb as int
    }

    /// The table holds at least 1024 entries, a power of two of them, and
    /// its generation stays below 64.
    pub open spec fn wf(self) -> bool {
        &&& self.spec_entries().len() >= 1024
        &&& spec_is_pow2(self.spec_entries().len() as int)
        &&& self.spec_generation() < 64
    }

    /// The slot a hash maps to: the hash masked by the table size.
    pub open spec fn spec_index(self, hash: u64) -> int {
        spec_slot(self.spec_entries().len() as int, hash)
    }

    /// What a probe returns: the entry in the hash's slot, if it matches
    /// the hash and is not empty.
    pub open spec fn spec_probe(self, hash: u64) -> Option<TTEntry> {
        spec_probe_entries(self.spec_entries(), hash)
    }

    /// Whether a store at this hash replaces the slot: it does when the
    /// slot is empty, from an older generation, or searched no deeper than
    /// the new entry.
    pub open spec fn spec_should_replace(self, hash: u64, depth: int) -> bool {
        spec_replace_at(self.spec_entries(), self.spec_generation(), hash, depth)
    }

    /// The entries after a store.
    pub open spec fn spec_after_store(
        self,
        hash: u64,
        best_move: Option<Move>,
        score: Score,
        depth: Depth,
        bound: BoundType,
    ) -> Seq<TTEntry> {
        spec_store_entries(
            self.spec_entries(),
            self.spec_generation(),
            hash,
            best_move,
            score,
            depth,
            bound,
        )
    }

    /// A table of the given size: capacity rounded down to a power of two
    /// of 16-byte entries, at least 1024, all empty, generation zero.
    pub fn new(size_mb: usize) -> (r: TranspositionTable)
        ensures
            r.wf(),
            r.spec_generation() == 0,
            r.spec_size_mb() == size_mb,
            forall|i: int| 0 <= i < r.spec_entries().len() ==> r.spec_entries()[i].spec_is_empty(),
            r.spec_entries().len() * 16 <= size_mb * 1024 * 1024 || r.spec_entries().len() == 1024,
    {
        let num_entries: u128 = size_mb as u128 * 1024 * 1024 / 16;
        assert(spec_is_pow2(1024)) by {
            reveal_with_fuel(spec_is_pow2, 12);
        }
        let mut cap: usize = 1024;
        while cap as u128 * 2 <= num_entries && cap <= usize::MAX / 2
            invariant
                1024 <= cap,
                spec_is_pow2(cap as int),
                num_entries == size_mb as int * 1024 * 1024 / 16,
                cap == 1024 || cap <= num_entries,
            decreases num_entries - cap,
        {
            cap = cap * 2;
        }
        let mut entries: Vec<TTEntry> = Vec::new();
        let mut i: usize = 0;
        while i < cap
            invariant
                i <= cap,
                entries@.len() == i,
                forall|j: int| 0 <= j < i ==> entries@[j].spec_is_empty(),
            decreases cap - i,
        {
            entries.push(TTEntry::empty());
            i = i + 1;
        }
        TranspositionTable { entries, generation: 0, size_mb }
    }

    /// The number of entries.
    pub fn len(&self) -> (r: usize)
        ensures
            r == self.spec_entries().len(),
    {
        self.entries.len()
    }

    /// Whether the table has no slots at all.
    pub fn is_empty(&self) -> (r: bool)
        ensures
            r == (self.spec_entries().len() == 0),
    {
        self.entries.len() == 0
    }

    /// The recorded size in megabytes.
    pub fn size_mb(&self) -> (r: usize)
        ensures
            r == self.spec_size_mb(),
    {
        self.size_mb
    }

    /// Step the generation for a new search; it rolls over modulo 64.
    pub fn new_search(&mut self)
        requires
            old(self).wf(),
        ensures
            final(self).wf(),
            final(self).spec_generation() == (old(self).spec_generation() + 1) % 64,
            final(self).spec_entries() == old(self).spec_entries(),
            final(self).spec_size_mb() == old(self).spec_size_mb(),
    {
        self.generation = (self.generation + 1) % 64;
    }

    /// The slot index of a hash.
    fn index(&self, hash: u64) -> (r: usize)
        requires
            self.wf(),
        ensures
            r == self.spec_index(hash),
            r < self.spec_entries().len(),
    {
        let mask = self.entries.len() - 1;
        let idx = (hash as usize) & mask;
        assert((hash as usize) & mask <= mask) by (bit_vector);
        idx
    }

    /// Probe the table: the entry in the hash's slot, if it matches the
    /// hash and is not empty.
    pub fn probe(&self, hash: u64) -> (r: Option<TTEntry>)
        requires
            self.wf(),
        ensures
            r == self.spec_probe(hash),
    {
        let entry = self.entries[self.index(hash)];
        if entry.matches(hash) && !entry.is_empty() {
            Some(entry)
        } else {
            None
        }
    }

    /// Store an entry. The slot is replaced exactly when it is empty, from
    /// an older generation, or holds a depth no greater than the new one.
    /// The score must already be `to_tt`-adjusted by the caller.
    pub fn store(
        &mut self,
        hash: u64,
        best_move: Option<Move>,
        score: Score,
        depth: Depth,
        bound: BoundType,
    )
        requires
            old(self).wf(),
            best_move matches Some(m) ==> valid_move(m),
            -128 <= depth.0 <= 127,
        ensures
            final(self).wf(),
            final(self).spec_generation() == old(self).spec_generation(),
            final(self).spec_size_mb() == old(self).spec_size_mb(),
            final(self).spec_entries() == old(self).spec_after_store(
                hash,
                best_move,
                score,
                depth,
                bound,
            ),
    {
        let idx = self.index(hash);
        let existing = self.entries[idx];
        let should_replace = existing.is_empty() || existing.generation() != self.generation
            || depth.raw() >= existing.depth().raw();
        if should_replace {
            let e = TTEntry::new(hash, best_move, score, depth, bound, self.generation);
            self.entries.set(idx, e);
        }
    }

    /// Empty every slot and reset the generation.
    pub fn clear(&mut self)
        requires
            old(self).wf(),
        ensures
            final(self).wf(),
            final(self).spec_generation() == 0,
            final(self).spec_size_mb() == old(self).spec_size_mb(),
            final(self).spec_entries().len() == old(self).spec_entries().len(),
            forall|i: int|
                0 <= i < final(self).spec_entries().len() ==> final(self).spec_entries()[i].spec_is_empty(),
    {
        let n = self.entries.len();
        let mut i: usize = 0;
        while i < n
            invariant
                n == self.entries@.len(),
                i <= n,
                self.spec_size_mb() == old(self).spec_size_mb(),
                self.spec_entries().len() == old(self).spec_entries().len(),
                forall|j: int| 0 <= j < i ==> self.entries@[j].spec_is_empty(),
            decreases n - i,
        {
            self.entries.set(i, TTEntry::empty());
            i = i + 1;
        }
        self.generation = 0;
    }

    /// Replace the table with a fresh one of the given size.
    pub fn resize(&mut self, size_mb: usize)
        ensures
            final(self).wf(),
            final(self).spec_generation() == 0,
            final(self).spec_size_mb() == size_mb,
            forall|i: int|
                0 <= i < final(self).spec_entries().len() ==> final(self).spec_entries()[i].spec_is_empty(),
    {
        *self = TranspositionTable::new(size_mb);
    }

    /// Fill rate of the table in permill, sampled over the first 1000
    /// entries: the number of non-empty current-generation entries among
    /// them.
    pub fn hashfull(&self) -> (r: u32)
        requires
            self.wf(),
        ensures
            r == spec_used_count(self.spec_entries(), self.spec_generation(), 1000),
    {
        let sample: usize = 1000;
        let mut used: usize = 0;
        let mut i: usize = 0;
        while i < sample
            invariant
                self.wf(),
                i <= sample,
                sample == 1000,
                used == spec_used_count(self.spec_entries(), self.spec_generation(), i as int),
                used <= i,
            decreases sample - i,
        {
            let e = self.entries[i];
            let counted = !e.is_empty() && e.generation() == self.generation;
            if counted {
                used = used + 1;
            }
            i = i + 1;
        }
        ((used * 1000) / sample) as u32
    }

    /// Touch the slot of a hash ahead of a probe. Indexing is all the
    /// portable form can do; it changes nothing.
    pub fn prefetch(&self, hash: u64)
        requires
            self.wf(),
    {
        let _ = self.index(hash);
    }
}

/// How many of the first `n` entries are non-empty and belong to the given
/// generation.
pub open spec fn spec_used_count(entries: Seq<TTEntry>, generation: u8, n: int) -> int
    decreases n,
{
    if n <= 0 {
        0
    } else {
        spec_used_count(entries, generation, n - 1) + if !entries[n - 1].spec_is_empty()
            && entries[n - 1].spec_generation() == generation {
            1int
        } else {
            0int
        }
    }
}

impl Default for TranspositionTable {
    /// A 16 MB table.
    fn default() -> (r: TranspositionTable)
        ensures
            r.wf(),
    {
        TranspositionTable::new(16)
    }
}

/// Store-then-probe idempotence: when a store replaces the slot of a hash
/// and records a real bound, probing the same hash right afterwards returns
/// exactly the stored entry; and a store whose hash maps to a different
/// slot leaves that probe unchanged.
pub proof fn lemma_store_then_probe(
    t: TranspositionTable,
    hash: u64,
    best_move: Option<Move>,
    score: Score,
    depth: Depth,
    bound: BoundType,
    other_hash: u64,
)
    requires
        t.wf(),
        bound != BoundType::NoBound,
        -128 <= depth.0 <= 127,
    ensures
        ({
            let after = t.spec_after_store(hash, best_move, score, depth, bound);
            let e = TTEntry::spec_new(hash, best_move, score, depth, bound, t.spec_generation());
            &&& t.spec_should_replace(hash, depth.0 as int) ==> spec_probe_entries(after, hash)
                == Some(e)
            &&& e.spec_score() == score.value()
            &&& e.spec_depth() == depth.0
            &&& e.spec_bound() == bound
            &&& e.spec_generation() == t.spec_generation()
            &&& e.spec_best_move() == spec_encode_opt_move(best_move)
            &&& t.spec_index(other_hash) != t.spec_index(hash) ==> spec_probe_entries(
                after,
                other_hash,
            ) == t.spec_probe(other_hash)
        }),
{
    let e = TTEntry::spec_new(hash, best_move, score, depth, bound, t.spec_generation());
    let bits = spec_bound_bits(bound);
    let g = t.spec_generation();
    assert((bits | ((g & 0x3F) << 2)) & 0x03 == bits && (bits | ((g & 0x3F) << 2)) >> 2 == g & 0x3F
        && g & 0x3F == g) by (bit_vector)
        requires
            bits <= 3,
            g < 64,
    ;
    assert(e.spec_bound() == bound);
    assert(e.spec_generation() == g);
    let len = t.spec_entries().len() as int;
    let lm: usize = (len - 1) as usize;
    assert(((hash as usize) & lm) <= lm) by (bit_vector);
    assert(((other_hash as usize) & lm) <= lm) by (bit_vector);
}

/// The fill measure never falls within one search: a store that records a
/// real bound in the current generation never turns a counted entry into an
/// uncounted one, so the count over any sample prefix is non-decreasing.
pub proof fn lemma_hashfull_monotone(
    t: TranspositionTable,
    hash: u64,
    best_move: Option<Move>,
    score: Score,
    depth: Depth,
    bound: BoundType,
    n: int,
)
    requires
        t.wf(),
        bound != BoundType::NoBound,
        n <= t.spec_entries().len(),
    ensures
        spec_used_count(
            t.spec_after_store(hash, best_move, score, depth, bound),
            t.spec_generation(),
            n,
        ) >= spec_used_count(t.spec_entries(), t.spec_generation(), n),
    decreases n,
{
    let before = t.spec_entries();
    let after = t.spec_after_store(hash, best_move, score, depth, bound);
    let lm: usize = (before.len() - 1) as usize;
    assert(((hash as usize) & lm) <= lm) by (bit_vector);
    if n > 0 {
        lemma_hashfull_monotone(t, hash, best_move, score, depth, bound, n - 1);
        if after[n - 1] != before[n - 1] {
            let e = TTEntry::spec_new(hash, best_move, score, depth, bound, t.spec_generation());
            assert(after[n - 1] == e);
            let bits = spec_bound_bits(bound);
            let g = t.spec_generation();
            assert((bits | ((g & 0x3F) << 2)) & 0x03 == bits && (bits | ((g & 0x3F) << 2)) >> 2 == g
                & 0x3F && g & 0x3F == g) by (bit_vector)
                requires
                    bits <= 3,
                    g < 64,
            ;
        }
    }
}

/// The slot of a hash lies inside the table: the mask keeps the index
/// under the entry count.
pub proof fn lemma_slot_in_range(t: TranspositionTable, hash: u64)
    requires
        t.wf(),
    ensures
        0 <= t.spec_index(hash) < t.spec_entries().len(),
{
    let len = t.spec_entries().len() as int;
    let lm: usize = (len - 1) as usize;
    assert(((hash as usize) & lm) <= lm) by (bit_vector);
}

/// A fresh table is unused: a count over entries that are all empty is
/// zero, so `hashfull` reports zero right after `new` or `clear`.
pub proof fn lemma_fresh_table_unused(entries: Seq<TTEntry>, generation: u8, n: int)
    requires
        forall|i: int| 0 <= i < entries.len() ==> entries[i].spec_is_empty(),
        n <= entries.len(),
    ensures
        spec_used_count(entries, generation, n) == 0,
    decreases n,
{
    if n > 0 {
        lemma_fresh_table_unused(entries, generation, n - 1);
    }
}

} // verus!
