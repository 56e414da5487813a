//! The select opcode configuration: `cond ? val1 : val2`.
use vstd::prelude::*;
use crate::cell::{Cell, CellKind, EventTableCellAllocator, Row};
use crate::constraint::{cell_values, constraint_holds, gate_holds, ConstraintBuilder, Gate};
use crate::field::{
    bit, has_inverse, inverse_convention, is_inverse, lemma_cancel_invertible,
    lemma_inverse_complement, lemma_modulus_bounds, lemma_vanishes_small, Fe,
};
use crate::mtable::{encode_stack_read, encode_stack_write, spec_stack_read, spec_stack_write};
use crate::op_rel::cell_at;
use crate::step::{
    AssignError, MemoryRwRecord, OpcodeClass, StepInfo, StepState, VarType, OPCODE_CLASS_UNIT,
};

verus! {

/// Number of cells a select configuration owns.
pub const SELECT_CELLS: usize = 10;

/// Cells of a select row.
#[derive(Clone, Copy, Debug, PartialEq, Eq, Structural)]
pub struct SelectConfig {
    /// Index of the first cell this configuration owns.
    pub base: usize,
    pub cond: Cell,
    pub cond_inv: Cell,
    pub val1: Cell,
    pub val2: Cell,
    pub res: Cell,
    pub is_i32: Cell,
    pub memory_table_lookup_stack_read_cond: Cell,
    pub memory_table_lookup_stack_read_val2: Cell,
    pub memory_table_lookup_stack_read_val1: Cell,
    pub memory_table_lookup_stack_write: Cell,
}

/// Kinds of the cells a select configuration allocates, in order.
pub open spec fn select_kinds() -> Seq<CellKind> {
    seq![
        CellKind::U64, CellKind::Unlimited, CellKind::U64, CellKind::U64, CellKind::U64,
        CellKind::Bit, CellKind::Lookup, CellKind::Lookup, CellKind::Lookup, CellKind::Lookup,
    ]
}

/// The value a select yields.
pub open spec fn select_value(cond: u64, val1: u64, val2: u64) -> u64 {
    if cond != 0 {
        val1
    } else {
        val2
    }
}

/// A read whose record is valid at step `eid`.
pub open spec fn read_valid_at(rec: MemoryRwRecord, eid: u32) -> bool {
    rec.start_eid <= eid < rec.end_eid
}

/// The records of the three reads are all valid at step `eid`.
fn reads_valid_at(records: &Vec<MemoryRwRecord>, eid: u32) -> (r: bool)
    requires
        records@.len() >= 3,
    ensures
        r == (read_valid_at(records@[0], eid) && read_valid_at(records@[1], eid) && read_valid_at(
            records@[2],
            eid,
        )),
{
    let mut k: usize = 0;
    while k < 3
        invariant
            k <= 3,
            records@.len() >= 3,
            forall|j: int| 0 <= j < k ==> read_valid_at(records@[j], eid),
        decreases 3 - k,
    {
        let rec = records[k];
        if !(rec.start_eid <= eid && eid < rec.end_eid) {
            assert(!read_valid_at(records@[k as int], eid));
            return false;
        }
        k = k + 1;
    }
    true
}

impl SelectConfig {
    /// The configuration whose cells start at `base`.
    pub open spec fn at(base: usize) -> SelectConfig {
        SelectConfig {
            base,
            cond: cell_at(CellKind::U64, base, 0),
            cond_inv: cell_at(CellKind::Unlimited, base, 1),
            val1: cell_at(CellKind::U64, base, 2),
            val2: cell_at(CellKind::U64, base, 3),
            res: cell_at(CellKind::U64, base, 4),
            is_i32: cell_at(CellKind::Bit, base, 5),
            memory_table_lookup_stack_read_cond: cell_at(CellKind::Lookup, base, 6),
            memory_table_lookup_stack_read_val2: cell_at(CellKind::Lookup, base, 7),
            memory_table_lookup_stack_read_val1: cell_at(CellKind::Lookup, base, 8),
            memory_table_lookup_stack_write: cell_at(CellKind::Lookup, base, 9),
        }
    }

    pub open spec fn wf(self) -> bool {
        &&& self == SelectConfig::at(self.base)
        &&& self.base + SELECT_CELLS <= usize::MAX
    }

    /// The constraints this configuration registers, in order.
    pub open spec fn constraints(self) -> Seq<(Gate, Seq<Cell>)> {
        seq![
            (Gate::SelectCondZero, seq![self.cond, self.cond_inv, self.res, self.val2]),
            (Gate::SelectCondNonZero, seq![self.cond, self.res, self.val1]),
        ]
    }

    /// `row` meets every constraint of this configuration.
    pub open spec fn holds_all(self, row: &Row) -> bool {
        forall|i: int| 0 <= i < self.constraints().len() ==> constraint_holds(#[trigger] self.constraints()[i], row)
    }

    /// `row` differs from `old_row` at most in the cells of this configuration.
    pub open spec fn only_own_cells_changed(self, old_row: &Row, row: &Row) -> bool {
        &&& row.wf()
        &&& row.spec_len() == old_row.spec_len()
        &&& forall|i: int|
            0 <= i < row.spec_len() && !(self.base <= i < self.base + SELECT_CELLS) ==> {
                &&& #[trigger] row.values@[i] == old_row.values@[i]
                &&& row.accesses@[i] == old_row.accesses@[i]
            }
    }

    /// What a successful assignment of a select entry at step `step` leaves
    /// in the cells of this configuration.
    pub open spec fn assigned(
        self,
        row: &Row,
        step: StepState,
        val1: u64,
        val2: u64,
        cond: u64,
        result: u64,
        vtype: VarType,
    ) -> bool {
        let t = vtype.spec_tag();
        &&& row.val(self.val1) == val1
        &&& row.val(self.val2) == val2
        &&& row.val(self.cond) == cond
        &&& row.values@[self.cond_inv.index as int].wf()
        &&& ((has_inverse(cond as int) || cond == 0) ==> inverse_convention(
            cond as int,
            row.val(self.cond_inv),
        ))
        &&& (!has_inverse(cond as int) ==> row.val(self.cond_inv) == 0)
        &&& row.val(self.res) == result
        &&& row.val(self.is_i32) == bit(vtype == VarType::I32)
        &&& row.access(self.memory_table_lookup_stack_read_cond) == Some(
            spec_stack_read(step.eid, 1, (step.sp + 1) as u64, VarType::I32.spec_tag(), cond),
        )
        &&& row.access(self.memory_table_lookup_stack_read_val2) == Some(
            spec_stack_read(step.eid, 2, (step.sp + 2) as u64, t, val2),
        )
        &&& row.access(self.memory_table_lookup_stack_read_val1) == Some(
            spec_stack_read(step.eid, 3, (step.sp + 3) as u64, t, val1),
        )
        &&& row.access(self.memory_table_lookup_stack_write) == Some(
            spec_stack_write(step.eid, 4, (step.sp + 3) as u64, t, result),
        )
    }
}

/// Builds select configurations.
pub struct SelectConfigBuilder {}

impl SelectConfigBuilder {
    /// Allocates the cells of a select row and registers its constraints.
    /// The result depends on the allocator's size alone.
    pub fn configure(allocator: &mut EventTableCellAllocator, constraint_builder: &mut ConstraintBuilder) -> (r: SelectConfig)
        requires
            old(allocator).kinds@.len() + SELECT_CELLS <= usize::MAX,
        ensures
            r == SelectConfig::at(old(allocator).kinds@.len() as usize),
            r.wf(),
            final(allocator).kinds@ == old(allocator).kinds@ + select_kinds(),
            final(constraint_builder).view() == old(constraint_builder).view() + r.constraints(),
    {
        let ghost k0 = old(allocator).kinds@;
        let ghost b0 = old(constraint_builder).view();
        let base = allocator.len();
        let cond = allocator.alloc_u64();
        let cond_inv = allocator.alloc_unlimited();

        let val1 = allocator.alloc_u64();
        let val2 = allocator.alloc_u64();
        let res = allocator.alloc_u64();
        let is_i32 = allocator.alloc_bit();

        constraint_builder.push(Gate::SelectCondZero, vec![cond, cond_inv, res, val2]);
        constraint_builder.push(Gate::SelectCondNonZero, vec![cond, res, val1]);

        let memory_table_lookup_stack_read_cond = allocator.alloc_lookup();
        let memory_table_lookup_stack_read_val2 = allocator.alloc_lookup();
        let memory_table_lookup_stack_read_val1 = allocator.alloc_lookup();
        let memory_table_lookup_stack_write = allocator.alloc_lookup();
        assert(allocator.kinds@ =~= k0 + select_kinds());

        let r = SelectConfig {
            base,
            cond,
            cond_inv,
            val1,
            val2,
            res,
            is_i32,
            memory_table_lookup_stack_read_cond,
            memory_table_lookup_stack_read_val2,
            memory_table_lookup_stack_read_val1,
            memory_table_lookup_stack_write,
        };
        assert(constraint_builder.view() =~= b0 + r.constraints());
        r
    }
}

impl SelectConfig {
    /// The packed opcode of a select row: the class tag alone.
    pub fn opcode(&self) -> (r: u64)
        ensures
            r == OpcodeClass::Select.spec_tag() * OPCODE_CLASS_UNIT,
    {
        OpcodeClass::Select.tag() * OPCODE_CLASS_UNIT
    }

    /// Fills the cells of this configuration from one select entry and the
    /// memory records of its four accesses (reads of `cond`, `val2`, `val1`,
    /// then the write of the result). An entry of another class is
    /// mismatched; fewer than four records, or a read whose record is not
    /// valid at the step, fail. On failure the row is left as it was.
    #[verifier::rlimit(60)]
    pub fn assign(
        &self,
        row: &mut Row,
        step: &StepState,
        entry: &StepInfo,
        memory_rw_entries: &Vec<MemoryRwRecord>,
    ) -> (r: Result<(), AssignError>)
        requires
            self.wf(),
            old(row).wf(),
            self.base + SELECT_CELLS <= old(row).spec_len(),
        ensures
            match *entry {
                StepInfo::Select { val1, val2, cond, result, vtype } => {
                    if memory_rw_entries@.len() < 4 {
                        &&& r == Err::<(), AssignError>(AssignError::MissingMemoryRecord)
                        &&& *final(row) == *old(row)
                    } else if !(read_valid_at(memory_rw_entries@[0], step.eid) && read_valid_at(
                        memory_rw_entries@[1],
                        step.eid,
                    ) && read_valid_at(memory_rw_entries@[2], step.eid)) {
                        &&& r == Err::<(), AssignError>(AssignError::InvalidMemoryInterval)
                        &&& *final(row) == *old(row)
                    } else {
                        &&& r is Ok
                        &&& self.only_own_cells_changed(old(row), final(row))
                        &&& self.assigned(final(row), *step, val1, val2, cond, result, vtype)
                    }
                },
                _ => r == Err::<(), AssignError>(AssignError::MismatchedEntry) && *final(row) == *old(
                    row,
                ),
            },
    {
        let (val1, val2, cond, result, vtype) = match entry {
            StepInfo::Select { val1, val2, cond, result, vtype } => (
                *val1,
                *val2,
                *cond,
                *result,
                *vtype,
            ),
            _ => {
                return Err(AssignError::MismatchedEntry);
            },
        };
        if memory_rw_entries.len() < 4 {
            return Err(AssignError::MissingMemoryRecord);
        }
        if !reads_valid_at(memory_rw_entries, step.eid) {
            return Err(AssignError::InvalidMemoryInterval);
        }
        let ghost old_row = *row;
        let t = vtype.tag();

        row.set(self.val1, Fe::from_u64(val1));
        row.set(self.val2, Fe::from_u64(val2));
        row.set(self.cond, Fe::from_u64(cond));
        let cond_inv = Fe::inverse_or_zero(cond);
        row.set(self.cond_inv, cond_inv);
        row.set(self.res, Fe::from_u64(result));
        row.set(self.is_i32, Fe::from_bool(vtype == VarType::I32));

        row.set_access(
            self.memory_table_lookup_stack_read_cond,
            encode_stack_read(step.eid, 1, step.sp as u64 + 1, VarType::I32.tag(), cond),
        );
        row.set_access(
            self.memory_table_lookup_stack_read_val2,
            encode_stack_read(step.eid, 2, step.sp as u64 + 2, t, val2),
        );
        row.set_access(
            self.memory_table_lookup_stack_read_val1,
            encode_stack_read(step.eid, 3, step.sp as u64 + 3, t, val1),
        );
        row.set_access(
            self.memory_table_lookup_stack_write,
            encode_stack_write(step.eid, 4, step.sp as u64 + 3, t, result),
        );
        assert(self.only_own_cells_changed(&old_row, row));
        assert(self.assigned(row, *step, val1, val2, cond, result, vtype));
        Ok(())
    }

    /// Stack-pointer change: three operands popped, one result pushed.
    pub fn sp_diff(&self) -> (r: u64)
        ensures
            r == 2,
    {
        2
    }

    /// Memory operations a select performs: three reads and one write.
    pub fn mops(&self) -> (r: u64)
        ensures
            r == 4,
    {
        4
    }

    /// Memory operations among them that write.
    pub fn memory_writing_ops(&self, entry: &StepInfo) -> (r: u32)
        ensures
            r == 1,
    {
        1
    }

    pub fn opcode_class(&self) -> (r: OpcodeClass)
        ensures
            r == OpcodeClass::Select,
    {
        OpcodeClass::Select
    }
}

/// Select through the circuit: for all 64-bit `val1`, `val2`, `cond` and
/// claimed `result`, the constraints of an assigned row hold exactly when
/// `result` is `val2` for a zero `cond` and `val1` for any other (given the
/// inverse of a non-zero `cond`, which a prime field always has).
pub proof fn lemma_select_result(
    cfg: SelectConfig,
    row: &Row,
    step: StepState,
    val1: u64,
    val2: u64,
    cond: u64,
    result: u64,
    vtype: VarType,
)
    requires
        cfg.wf(),
        row.wf(),
        cfg.base + SELECT_CELLS <= row.spec_len(),
        cfg.assigned(row, step, val1, val2, cond, result, vtype),
        cond == 0 || has_inverse(cond as int),
    ensures
        cfg.holds_all(row) <==> result == select_value(cond, val1, val2),
        cond == 0 ==> (cfg.holds_all(row) <==> result == val2),
        cond != 0 ==> (cfg.holds_all(row) <==> result == val1),
{
    lemma_modulus_bounds();
    let cs = cfg.constraints();
    let v0 = cell_values(row.values@, cs[0].1);
    let v1 = cell_values(row.values@, cs[1].1);
    let c = cond as int;
    let inv = row.val(cfg.cond_inv);
    assert(v0[0] == c && v0[1] == inv && v0[2] == result && v0[3] == val2);
    assert(v1[0] == c && v1[1] == result && v1[2] == val1);
    if cond == 0 {
        assert(inv == 0);
        assert((1 - c * inv) * (result - val2) == result - val2) by (nonlinear_arith)
            requires
                inv == 0,
        ;
        lemma_vanishes_small(result - val2);
        assert(c * (result - val1) == 0) by (nonlinear_arith)
            requires
                c == 0,
        ;
        lemma_vanishes_small(0);
    } else {
        vstd::arithmetic::div_mod::lemma_small_mod(cond as nat, crate::field::modulus() as nat);
        assert(is_inverse(c, inv));
        lemma_inverse_complement(c, inv, result - val2);
        lemma_cancel_invertible(c, inv, result - val1);
    }
    assert(gate_holds(Gate::SelectCondZero, v0) == constraint_holds(cs[0], row));
    assert(gate_holds(Gate::SelectCondNonZero, v1) == constraint_holds(cs[1], row));
    if gate_holds(Gate::SelectCondZero, v0) && gate_holds(Gate::SelectCondNonZero, v1) {
        assert forall|i: int| 0 <= i < cs.len() implies constraint_holds(#[trigger] cs[i], row) by {
            if i == 0 {
            } else {
            }
        }
    }
}

} // verus!
