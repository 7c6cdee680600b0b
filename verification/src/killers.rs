//! Killer moves heuristic for move ordering.
//!
//! Killer moves are quiet moves that caused beta cutoffs at the same ply.
//! Two slots are kept per ply with least-recently-used insertion.

use vstd::prelude::*;
use crate::types::{Move, Ply, MAX_PLY};

verus! {

/// The two killer slots of one ply.
#[derive(Clone, Copy, PartialEq, Eq, Structural, Debug)]
pub struct KillerSlots {
    pub s0: Option<Move>,
    pub s1: Option<Move>,
}

/// Killer moves table: two slots for each ply up to `MAX_PLY`.
#[derive(Clone)]
pub struct KillerTable {
    killers: Vec<KillerSlots>,
}

impl KillerTable {
    /// The slots, ply by ply.
    pub closed spec fn slots(self) -> Seq<KillerSlots> {
        self.killers@
    }

    /// The table always holds `MAX_PLY` entries.
    pub open spec fn wf(self) -> bool {
        self.slots().len() == MAX_PLY
    }

    /// A fresh table with every slot empty.
    pub fn new() -> (r: KillerTable)
        ensures
            r.wf(),
            forall|i: int|
                0 <= i < MAX_PLY ==> r.slots()[i] == (KillerSlots {
                    s0: None::<Move>,
                    s1: None::<Move>,
                }),
    {
        let mut killers: Vec<KillerSlots> = Vec::new();
        let mut i: usize = 0;
        while i < MAX_PLY as usize
            invariant
                i <= MAX_PLY,
                killers@.len() == i,
                forall|j: int|
                    0 <= j < i ==> killers@[j] == (KillerSlots {
                        s0: None::<Move>,
                        s1: None::<Move>,
                    }),
            decreases MAX_PLY - i,
        {
            killers.push(KillerSlots { s0: None, s1: None });
            i = i + 1;
        }
        KillerTable { killers }
    }

    /// Store a killer move at the given ply. The new move goes to slot 0 and
    /// the previous slot 0 shifts to slot 1; storing the move already in
    /// slot 0 changes nothing, as does a ply outside the table.
    pub fn store(&mut self, ply: Ply, mv: Move)
        requires
            old(self).wf(),
        ensures
            final(self).wf(),
            ({
                let p = ply.0 as int;
                if 0 <= p < MAX_PLY {
                    if old(self).slots()[p].s0 == Some(mv) {
                        final(self).slots() == old(self).slots()
                    } else {
                        final(self).slots() == old(self).slots().update(
                            p,
                            KillerSlots { s0: Some(mv), s1: old(self).slots()[p].s0 },
                        )
                    }
                } else {
                    final(self).slots() == old(self).slots()
                }
            }),
    {
        if ply.0 < 0 || ply.0 >= MAX_PLY {
            return ;
        }
        let idx = ply.0 as usize;
        let current = self.killers[idx];
        if let Some(k0) = current.s0 {
            if k0 == mv {
                return ;
            }
        }
        self.killers.set(idx, KillerSlots { s0: Some(mv), s1: current.s0 });
    }

    /// The killer moves at the given ply; empty slots for a ply outside the
    /// table.
    pub fn get(&self, ply: Ply) -> (r: KillerSlots)
        requires
            self.wf(),
        ensures
            r == if 0 <= ply.0 < MAX_PLY {
                self.slots()[ply.0 as int]
            } else {
                KillerSlots { s0: None::<Move>, s1: None::<Move> }
            },
    {
        if ply.0 < 0 || ply.0 >= MAX_PLY {
            return KillerSlots { s0: None, s1: None };
        }
        self.killers[ply.0 as usize]
    }

    /// Which slot, if any, holds this move at the given ply.
    pub fn is_killer(&self, ply: Ply, mv: Move) -> (r: Option<usize>)
        requires
            self.wf(),
        ensures
            ({
                let k = if 0 <= ply.0 < MAX_PLY {
                    self.slots()[ply.0 as int]
                } else {
                    KillerSlots { s0: None::<Move>, s1: None::<Move> }
                };
                r == if k.s0 == Some(mv) {
                    Some(0usize)
                } else if k.s1 == Some(mv) {
                    Some(1usize)
                } else {
                    None::<usize>
                }
            }),
    {
        let k = self.get(ply);
        let in0 = match k.s0 {
            Some(m) => m == mv,
            None => false,
        };
        if in0 {
            return Some(0);
        }
        let in1 = match k.s1 {
            Some(m) => m == mv,
            None => false,
        };
        if in1 {
            return Some(1);
        }
        None
    }

    /// Empty every slot.
    pub fn clear(&mut self)
        requires
            old(self).wf(),
        ensures
            final(self).wf(),
            forall|i: int|
                0 <= i < MAX_PLY ==> final(self).slots()[i] == (KillerSlots {
                    s0: None::<Move>,
                    s1: None::<Move>,
                }),
    {
        let n = self.killers.len();
        let mut i: usize = 0;
        while i < n
            invariant
                n == self.killers@.len(),
                i <= n,
                forall|j: int|
                    0 <= j < i ==> self.killers@[j] == (KillerSlots {
                        s0: None::<Move>,
                        s1: None::<Move>,
                    }),
            decreases n - i,
        {
            self.killers.set(i, KillerSlots { s0: None, s1: None });
            i = i + 1;
        }
    }
}

impl Default for KillerTable {
    /// A fresh, empty table.
    fn default() -> (r: KillerTable)
        ensures
            r.wf(),
    {
        KillerTable::new()
    }
}

} // verus!
