//! Cells: typed slots of one table row, handed out by an allocator, and the
//! row that holds their values.
use vstd::prelude::*;
use crate::field::{Fe, modulus};
use crate::mtable::MemoryAccess;

verus! {

/// Size of the external range table that bounds common-range cells.
pub const COMMON_RANGE_SIZE: u64 = 65536;

/// The kinds of cells.
#[derive(Clone, Copy, Debug, PartialEq, Eq, Structural)]
pub enum CellKind {
    Bit,
    U64,
    CommonRange,
    Unlimited,
    Lookup,
}

/// The values a cell of each kind may hold.
pub open spec fn in_domain(kind: CellKind, v: int) -> bool {
    match kind {
        CellKind::Bit => v == 0 || v == 1,
        CellKind::U64 => 0 <= v < 0x1_0000_0000_0000_0000,
        CellKind::CommonRange => 0 <= v < COMMON_RANGE_SIZE,
        CellKind::Unlimited => 0 <= v < modulus(),
        CellKind::Lookup => v == 0,
    }
}

/// A handle to one slot of a row.
#[derive(Clone, Copy, Debug, PartialEq, Eq, Structural)]
pub struct Cell {
    pub kind: CellKind,
    pub index: usize,
}

/// Hands out cells in a fixed order; the kind of each cell handed out so far.
pub struct EventTableCellAllocator {
    pub kinds: Vec<CellKind>,
}

impl EventTableCellAllocator {
    pub fn new() -> (r: EventTableCellAllocator)
        ensures
            r.kinds@.len() == 0,
    {
        EventTableCellAllocator { kinds: Vec::new() }
    }

    /// Number of cells handed out.
    pub fn len(&self) -> (r: usize)
        ensures
            r == self.kinds@.len(),
    {
        self.kinds.len()
    }

    /// A fresh cell of the given kind: the next index.
    pub fn alloc_cell(&mut self, kind: CellKind) -> (c: Cell)
        ensures
            c == (Cell { kind, index: old(self).kinds@.len() as usize }),
            final(self).kinds@ == old(self).kinds@.push(kind),
    {
        let index = self.kinds.len();
        self.kinds.push(kind);
        Cell { kind, index }
    }

    pub fn alloc_bit(&mut self) -> (c: Cell)
        ensures
            c == (Cell { kind: CellKind::Bit, index: old(self).kinds@.len() as usize }),
            final(self).kinds@ == old(self).kinds@.push(CellKind::Bit),
    {
        self.alloc_cell(CellKind::Bit)
    }

    pub fn alloc_u64(&mut self) -> (c: Cell)
        ensures
            c == (Cell { kind: CellKind::U64, index: old(self).kinds@.len() as usize }),
            final(self).kinds@ == old(self).kinds@.push(CellKind::U64),
    {
        self.alloc_cell(CellKind::U64)
    }

    pub fn alloc_common_range(&mut self) -> (c: Cell)
        ensures
            c == (Cell { kind: CellKind::CommonRange, index: old(self).kinds@.len() as usize }),
            final(self).kinds@ == old(self).kinds@.push(CellKind::CommonRange),
    {
        self.alloc_cell(CellKind::CommonRange)
    }

    pub fn alloc_unlimited(&mut self) -> (c: Cell)
        ensures
            c == (Cell { kind: CellKind::Unlimited, index: old(self).kinds@.len() as usize }),
            final(self).kinds@ == old(self).kinds@.push(CellKind::Unlimited),
    {
        self.alloc_cell(CellKind::Unlimited)
    }

    pub fn alloc_lookup(&mut self) -> (c: Cell)
        ensures
            c == (Cell { kind: CellKind::Lookup, index: old(self).kinds@.len() as usize }),
            final(self).kinds@ == old(self).kinds@.push(CellKind::Lookup),
    {
        self.alloc_cell(CellKind::Lookup)
    }
}

/// One row of the event table: a field value per cell, and for lookup cells
/// the memory-access key they target.
pub struct Row {
    pub values: Vec<Fe>,
    pub accesses: Vec<Option<MemoryAccess>>,
}

impl Row {
    pub open spec fn wf(&self) -> bool {
        self.values@.len() == self.accesses@.len()
    }

    pub open spec fn spec_len(&self) -> nat {
        self.values@.len()
    }

    /// The value of `c` in the row.
    pub open spec fn val(&self, c: Cell) -> int {
        self.values@[c.index as int].val()
    }

    /// The key held by the lookup cell `c`.
    pub open spec fn access(&self, c: Cell) -> Option<MemoryAccess> {
        self.accesses@[c.index as int]
    }

    /// A row of `n` cells, all zero and with no lookup key.
    pub fn new(n: usize) -> (r: Row)
        ensures
            r.wf(),
            r.spec_len() == n,
            forall|i: int| 0 <= i < n ==> r.values@[i].val() == 0 && r.accesses@[i] is None,
    {
        let mut values: Vec<Fe> = Vec::new();
        let mut accesses: Vec<Option<MemoryAccess>> = Vec::new();
        let mut i: usize = 0;
        while i < n
            invariant
                i <= n,
                values@.len() == i,
                accesses@.len() == i,
                forall|j: int| 0 <= j < i ==> values@[j].val() == 0 && accesses@[j] is None,
            decreases n - i,
        {
            values.push(Fe::zero());
            accesses.push(None);
            i = i + 1;
        }
        Row { values, accesses }
    }

    pub fn len(&self) -> (r: usize)
        ensures
            r == self.spec_len(),
    {
        self.values.len()
    }

    /// The value held by `c`.
    pub fn get(&self, c: Cell) -> (r: Fe)
        requires
            c.index < self.spec_len(),
        ensures
            r == self.values@[c.index as int],
    {
        self.values[c.index]
    }

    /// Writes `v` into `c`.
    pub fn set(&mut self, c: Cell, v: Fe)
        requires
            c.index < old(self).spec_len(),
            old(self).wf(),
        ensures
            final(self).wf(),
            final(self).values@ == old(self).values@.update(c.index as int, v),
            final(self).accesses@ == old(self).accesses@,
    {
        self.values.set(c.index, v);
    }

    /// Makes the lookup cell `c` target `a`.
    pub fn set_access(&mut self, c: Cell, a: MemoryAccess)
        requires
            c.index < old(self).spec_len(),
            old(self).wf(),
        ensures
            final(self).wf(),
            final(self).values@ == old(self).values@,
            final(self).accesses@ == old(self).accesses@.update(c.index as int, Some(a)),
    {
        self.accesses.set(c.index, Some(a));
    }
}

} // verus!
