//! The relational-compare opcode configuration.
use vstd::prelude::*;
use crate::cell::{Cell, CellKind, EventTableCellAllocator, Row};
use crate::constraint::{cell_values, constraint_holds, gate_holds, ConstraintBuilder, Gate};
use crate::field::{
    bit, has_inverse, inverse_convention, lemma_equality_gadget, lemma_modulus_bounds,
    lemma_vanishes_small, vanishes, Fe,
};
use crate::mtable::{
    encode_stack_read, encode_stack_write, spec_stack_read, spec_stack_write, MLookupItem,
    MemoryAccess,
};
use crate::cell::in_domain;
use crate::step::{
    AssignError, OpcodeClass, RelOp, StepInfo, StepState, VarType, OPCODE_ARG0_UNIT,
    OPCODE_ARG1_UNIT, OPCODE_CLASS_UNIT,
};

verus! {

/// Number of cells a relational-compare configuration owns.
pub const REL_CELLS: usize = 25;

/// The cell of kind `kind` at offset `k` from `base`.
pub open spec fn cell_at(kind: CellKind, base: usize, k: int) -> Cell {
    Cell { kind, index: (base + k) as usize }
}

/// The truth of a relational sub-operation on unsigned operands.
pub open spec fn rel_holds(op: RelOp, l: int, r: int) -> bool {
    match op {
        RelOp::Eq => l == r,
        RelOp::Ne => l != r,
        RelOp::SignedGt | RelOp::UnsignedGt => l > r,
        RelOp::SignedGe | RelOp::UnsignedGe => l >= r,
        RelOp::UnsignedLt => l < r,
        RelOp::UnsignedLe => l <= r,
    }
}

/// The unsigned 32-bit reading of a signed 32-bit value.
pub open spec fn spec_unsigned_of(x: i32) -> int {
    if x >= 0 {
        x as int
    } else {
        x + 0x1_0000_0000
    }
}

/// The unsigned 32-bit reading of a signed 32-bit value, widened.
pub fn unsigned_of(x: i32) -> (r: u64)
    ensures
        r as int == spec_unsigned_of(x),
        r < 0x1_0000_0000,
{
    if x >= 0 {
        x as u64
    } else {
        (x as i64 + 0x1_0000_0000) as u64
    }
}

/// The absolute difference of two integers.
pub open spec fn abs_diff(l: int, r: int) -> int {
    if l < r {
        r - l
    } else {
        l - r
    }
}

/// Cells of a relational-compare row.
#[derive(Clone, Copy, Debug, PartialEq, Eq, Structural)]
pub struct RelConfig {
    /// Index of the first cell this configuration owns.
    pub base: usize,
    pub diff_inv: Cell,
    pub res_is_eq: Cell,
    pub res_is_lt: Cell,
    pub res_is_gt: Cell,
    pub res: Cell,
    pub lhs: Cell,
    pub rhs: Cell,
    pub diff: Cell,
    pub lhs_leading_bit: Cell,
    pub rhs_leading_bit: Cell,
    pub lhs_rem_value: Cell,
    pub rhs_rem_value: Cell,
    pub op_is_eq: Cell,
    pub op_is_ne: Cell,
    pub op_is_lt: Cell,
    pub op_is_gt: Cell,
    pub op_is_le: Cell,
    pub op_is_ge: Cell,
    pub op_is_sign: Cell,
    pub is_four_bytes: Cell,
    pub is_eight_bytes: Cell,
    pub is_sign: Cell,
    pub lookup_stack_read_lhs: Cell,
    pub lookup_stack_read_rhs: Cell,
    pub lookup_stack_write_res: Cell,
}

/// Kinds of the cells a relational-compare configuration allocates, in order.
pub open spec fn rel_kinds() -> Seq<CellKind> {
    seq![
        CellKind::Unlimited, CellKind::Bit, CellKind::Bit, CellKind::Bit, CellKind::Unlimited,
        CellKind::U64, CellKind::U64, CellKind::U64, CellKind::Bit, CellKind::Bit,
        CellKind::CommonRange, CellKind::CommonRange, CellKind::Bit, CellKind::Bit, CellKind::Bit,
        CellKind::Bit, CellKind::Bit, CellKind::Bit, CellKind::Bit, CellKind::Bit, CellKind::Bit,
        CellKind::Bit, CellKind::Lookup, CellKind::Lookup, CellKind::Lookup,
    ]
}

impl RelConfig {
    /// The configuration whose cells start at `base`.
    pub open spec fn at(base: usize) -> RelConfig {
        RelConfig {
            base,
            diff_inv: cell_at(CellKind::Unlimited, base, 0),
            res_is_eq: cell_at(CellKind::Bit, base, 1),
            res_is_lt: cell_at(CellKind::Bit, base, 2),
            res_is_gt: cell_at(CellKind::Bit, base, 3),
            res: cell_at(CellKind::Unlimited, base, 4),
            lhs: cell_at(CellKind::U64, base, 5),
            rhs: cell_at(CellKind::U64, base, 6),
            diff: cell_at(CellKind::U64, base, 7),
            lhs_leading_bit: cell_at(CellKind::Bit, base, 8),
            rhs_leading_bit: cell_at(CellKind::Bit, base, 9),
            lhs_rem_value: cell_at(CellKind::CommonRange, base, 10),
            rhs_rem_value: cell_at(CellKind::CommonRange, base, 11),
            op_is_eq: cell_at(CellKind::Bit, base, 12),
            op_is_ne: cell_at(CellKind::Bit, base, 13),
            op_is_lt: cell_at(CellKind::Bit, base, 14),
            op_is_gt: cell_at(CellKind::Bit, base, 15),
            op_is_le: cell_at(CellKind::Bit, base, 16),
            op_is_ge: cell_at(CellKind::Bit, base, 17),
            op_is_sign: cell_at(CellKind::Bit, base, 18),
            is_four_bytes: cell_at(CellKind::Bit, base, 19),
            is_eight_bytes: cell_at(CellKind::Bit, base, 20),
            is_sign: cell_at(CellKind::Bit, base, 21),
            lookup_stack_read_lhs: cell_at(CellKind::Lookup, base, 22),
            lookup_stack_read_rhs: cell_at(CellKind::Lookup, base, 23),
            lookup_stack_write_res: cell_at(CellKind::Lookup, base, 24),
        }
    }

    pub open spec fn wf(self) -> bool {
        &&& self == RelConfig::at(self.base)
        &&& self.base + REL_CELLS <= usize::MAX
    }

    /// The constraints this configuration registers, in order.
    pub open spec fn constraints(self) -> Seq<(Gate, Seq<Cell>)> {
        seq![
            (
                Gate::CompareDiff,
                seq![
                    self.lhs, self.rhs, self.diff, self.diff_inv, self.res_is_eq, self.res_is_lt,
                    self.res_is_gt,
                ],
            ),
            (
                Gate::CompareOp,
                seq![
                    self.op_is_eq, self.op_is_ne, self.op_is_lt, self.op_is_gt, self.op_is_le,
                    self.op_is_ge,
                ],
            ),
            (Gate::CompareBytes, seq![self.is_four_bytes, self.is_eight_bytes]),
            (
                Gate::CompareLeadingBit,
                seq![
                    self.lhs_leading_bit, self.lhs_rem_value, self.rhs_leading_bit,
                    self.rhs_rem_value, self.is_four_bytes, self.is_eight_bytes, self.lhs, self.rhs,
                    self.op_is_sign,
                ],
            ),
            (
                Gate::CompareOpRes,
                seq![
                    self.op_is_eq, self.op_is_ne, self.op_is_lt, self.op_is_gt, self.op_is_le,
                    self.op_is_ge, self.res, self.res_is_eq, self.res_is_lt, self.res_is_gt,
                    self.lhs_leading_bit, self.rhs_leading_bit,
                ],
            ),
        ]
    }

    /// `row` differs from `old_row` at most in the cells of this configuration.
    pub open spec fn only_own_cells_changed(self, old_row: &Row, row: &Row) -> bool {
        &&& row.wf()
        &&& row.spec_len() == old_row.spec_len()
        &&& forall|i: int|
            0 <= i < row.spec_len() && !(self.base <= i < self.base + REL_CELLS) ==> {
                &&& #[trigger] row.values@[i] == old_row.values@[i]
                &&& row.accesses@[i] == old_row.accesses@[i]
            }
    }

    /// What a successful assignment of the entry `(op, left, right, value)`
    /// at step `step` leaves in the cells of this configuration.
    pub open spec fn assigned(self, row: &Row, step: StepState, op: RelOp, left: i32, right: i32, value: bool) -> bool {
        let l = spec_unsigned_of(left);
        let r = spec_unsigned_of(right);
        let d = abs_diff(l, r);
        let i32_tag = VarType::I32.spec_tag();
        &&& row.val(self.is_four_bytes) == 1
        &&& row.val(self.is_eight_bytes) == 0
        &&& row.val(self.is_sign) == 1
        &&& row.val(self.lhs) == l
        &&& row.val(self.rhs) == r
        &&& row.val(self.diff) == d
        &&& row.values@[self.diff_inv.index as int].wf()
        &&& ((has_inverse(d) || d == 0) ==> inverse_convention(d, row.val(self.diff_inv)))
        &&& (!has_inverse(d) ==> row.val(self.diff_inv) == 0)
        &&& row.val(self.res_is_eq) == bit(l == r)
        &&& row.val(self.res_is_gt) == bit(l > r)
        &&& row.val(self.res_is_lt) == bit(l < r)
        &&& row.val(self.res) == bit(value)
        &&& row.val(self.lhs_leading_bit) == 0
        &&& row.val(self.rhs_leading_bit) == 0
        &&& row.val(self.lhs_rem_value) == 0
        &&& row.val(self.rhs_rem_value) == 0
        &&& row.val(self.op_is_eq) == 0
        &&& row.val(self.op_is_ne) == 0
        &&& row.val(self.op_is_gt) == 0
        &&& row.val(self.op_is_ge) == 0
        &&& row.val(self.op_is_sign) == 0
        &&& row.val(self.op_is_lt) == bit(op == RelOp::UnsignedLt)
        &&& row.val(self.op_is_le) == bit(op == RelOp::UnsignedLe)
        &&& row.access(self.lookup_stack_read_lhs) == Some(
            spec_stack_read(step.eid, 1, (step.sp + 1) as u64, i32_tag, r as u64),
        )
        &&& row.access(self.lookup_stack_read_rhs) == Some(
            spec_stack_read(step.eid, 2, (step.sp + 2) as u64, i32_tag, l as u64),
        )
        &&& row.access(self.lookup_stack_write_res) == Some(
            spec_stack_write(step.eid, 3, (step.sp + 2) as u64, i32_tag, bit(value) as u64),
        )
    }
}

/// Builds relational-compare configurations.
pub struct RelConfigBuilder {}

impl RelConfigBuilder {
    /// Allocates the cells of a relational-compare row and registers its
    /// constraints. The result depends on the allocator's size alone.
    pub fn configure(common: &mut EventTableCellAllocator, constraint_builder: &mut ConstraintBuilder) -> (r: RelConfig)
        requires
            old(common).kinds@.len() + REL_CELLS <= usize::MAX,
        ensures
            r == RelConfig::at(old(common).kinds@.len() as usize),
            r.wf(),
            final(common).kinds@ == old(common).kinds@ + rel_kinds(),
            final(constraint_builder).view() == old(constraint_builder).view() + r.constraints(),
    {
        let ghost k0 = old(common).kinds@;
        let base = common.len();
        let diff_inv = common.alloc_unlimited();
        let res_is_eq = common.alloc_bit();
        let res_is_lt = common.alloc_bit();
        let res_is_gt = common.alloc_bit();
        let res = common.alloc_unlimited();

        let lhs = common.alloc_u64();
        let rhs = common.alloc_u64();
        let diff = common.alloc_u64();

        let lhs_leading_bit = common.alloc_bit();
        let rhs_leading_bit = common.alloc_bit();
        let lhs_rem_value = common.alloc_common_range();
        let rhs_rem_value = common.alloc_common_range();

        let op_is_eq = common.alloc_bit();
        let op_is_ne = common.alloc_bit();
        let op_is_lt = common.alloc_bit();
        let op_is_gt = common.alloc_bit();
        let op_is_le = common.alloc_bit();
        let op_is_ge = common.alloc_bit();
        let op_is_sign = common.alloc_bit();

        let is_four_bytes = common.alloc_bit();
        let is_eight_bytes = common.alloc_bit();
        let is_sign = common.alloc_bit();

        let lookup_stack_read_lhs = common.alloc_lookup();
        let lookup_stack_read_rhs = common.alloc_lookup();
        let lookup_stack_write_res = common.alloc_lookup();
        assert(common.kinds@ =~= k0 + rel_kinds());

        let ghost b0 = constraint_builder.view();
        constraint_builder.push(
            Gate::CompareDiff,
            vec![lhs, rhs, diff, diff_inv, res_is_eq, res_is_lt, res_is_gt],
        );
        constraint_builder.push(
            Gate::CompareOp,
            vec![op_is_eq, op_is_ne, op_is_lt, op_is_gt, op_is_le, op_is_ge],
        );
        constraint_builder.push(Gate::CompareBytes, vec![is_four_bytes, is_eight_bytes]);
        constraint_builder.push(
            Gate::CompareLeadingBit,
            vec![
                lhs_leading_bit,
                lhs_rem_value,
                rhs_leading_bit,
                rhs_rem_value,
                is_four_bytes,
                is_eight_bytes,
                lhs,
                rhs,
                op_is_sign,
            ],
        );
        constraint_builder.push(
            Gate::CompareOpRes,
            vec![
                op_is_eq,
                op_is_ne,
                op_is_lt,
                op_is_gt,
                op_is_le,
                op_is_ge,
                res,
                res_is_eq,
                res_is_lt,
                res_is_gt,
                lhs_leading_bit,
                rhs_leading_bit,
            ],
        );

        let r = RelConfig {
            base,
            diff_inv,
            res_is_eq,
            res_is_lt,
            res_is_gt,
            res,
            lhs,
            rhs,
            diff,
            lhs_leading_bit,
            rhs_leading_bit,
            lhs_rem_value,
            rhs_rem_value,
            op_is_eq,
            op_is_ne,
            op_is_lt,
            op_is_gt,
            op_is_le,
            op_is_ge,
            op_is_sign,
            is_four_bytes,
            is_eight_bytes,
            is_sign,
            lookup_stack_read_lhs,
            lookup_stack_read_rhs,
            lookup_stack_write_res,
        };
        assert(constraint_builder.view() =~= b0 + r.constraints());
        r
    }
}

impl RelConfig {
    /// Fills the cells of this configuration from one trace entry. Only the
    /// unsigned less-than and less-or-equal sub-operations have an
    /// assignment; the others are reported as unsupported, and an entry of
    /// another class as mismatched. On failure the row is left as it was.
    #[verifier::rlimit(60)]
    pub fn assign(&self, row: &mut Row, step: &StepState, entry: &StepInfo) -> (r: Result<(), AssignError>)
        requires
            self.wf(),
            old(row).wf(),
            self.base + REL_CELLS <= old(row).spec_len(),
        ensures
            match *entry {
                StepInfo::I32Comp { class, left, right, value } => {
                    if class.spec_is_supported() {
                        &&& r is Ok
                        &&& self.only_own_cells_changed(old(row), final(row))
                        &&& self.assigned(final(row), *step, class, left, right, value)
                    } else {
                        &&& r == Err::<(), AssignError>(AssignError::UnsupportedOperation(class))
                        &&& *final(row) == *old(row)
                    }
                },
                _ => r == Err::<(), AssignError>(AssignError::MismatchedEntry) && *final(row) == *old(
                    row,
                ),
            },
    {
        let (class, left, right, value) = match entry {
            StepInfo::I32Comp { class, left, right, value } => (*class, *left, *right, *value),
            _ => {
                return Err(AssignError::MismatchedEntry);
            },
        };
        match class {
            RelOp::UnsignedLt | RelOp::UnsignedLe => {},
            _ => {
                return Err(AssignError::UnsupportedOperation(class));
            },
        }
        let lhs: u64 = unsigned_of(left);
        let rhs: u64 = unsigned_of(right);
        let diff: u64 = if lhs < rhs {
            rhs - lhs
        } else {
            lhs - rhs
        };
        let i32_tag = VarType::I32.tag();
        let ghost old_row = *row;

        row.set(self.is_four_bytes, Fe::one());
        row.set(self.is_eight_bytes, Fe::zero());
        row.set(self.is_sign, Fe::one());

        row.set(self.lhs, Fe::from_u64(lhs));
        row.set(self.rhs, Fe::from_u64(rhs));
        row.set(self.diff, Fe::from_u64(diff));

        let diff_inv = Fe::inverse_or_zero(diff);
        row.set(self.diff_inv, diff_inv);
        row.set(self.res_is_eq, Fe::from_bool(lhs == rhs));
        row.set(self.res_is_gt, Fe::from_bool(lhs > rhs));
        row.set(self.res_is_lt, Fe::from_bool(lhs < rhs));
        row.set(self.res, Fe::from_bool(value));

        row.set(self.lhs_leading_bit, Fe::zero());
        row.set(self.rhs_leading_bit, Fe::zero());
        row.set(self.lhs_rem_value, Fe::zero());
        row.set(self.rhs_rem_value, Fe::zero());

        row.set(self.op_is_eq, Fe::zero());
        row.set(self.op_is_ne, Fe::zero());
        row.set(self.op_is_gt, Fe::zero());
        row.set(self.op_is_ge, Fe::zero());
        row.set(self.op_is_sign, Fe::zero());
        row.set(self.op_is_lt, Fe::from_bool(class == RelOp::UnsignedLt));
        row.set(self.op_is_le, Fe::from_bool(class == RelOp::UnsignedLe));

        let sp1: u64 = step.sp as u64 + 1;
        let sp2: u64 = step.sp as u64 + 2;
        row.set_access(
            self.lookup_stack_read_lhs,
            encode_stack_read(step.eid, 1, sp1, i32_tag, rhs),
        );
        row.set_access(
            self.lookup_stack_read_rhs,
            encode_stack_read(step.eid, 2, sp2, i32_tag, lhs),
        );
        row.set_access(
            self.lookup_stack_write_res,
            encode_stack_write(step.eid, 3, sp2, i32_tag, if value { 1 } else { 0 }),
        );
        assert(self.only_own_cells_changed(&old_row, row));
        assert(self.assigned(row, *step, class, left, right, value));
        Ok(())
    }

    /// Memory operations a relational compare performs: two reads, one write.
    pub fn mops(&self) -> (r: u64)
        ensures
            r == 3,
    {
        3
    }

    /// Stack-pointer change: two operands popped, one result pushed.
    pub fn sp_diff(&self) -> (r: u64)
        ensures
            r == 1,
    {
        1
    }

    pub fn opcode_class(&self) -> (r: OpcodeClass)
        ensures
            r == OpcodeClass::Rel,
    {
        OpcodeClass::Rel
    }
}

impl RelConfig {
    /// `row` meets every constraint of this configuration.
    pub open spec fn holds_all(self, row: &Row) -> bool {
        forall|i: int| 0 <= i < self.constraints().len() ==> constraint_holds(#[trigger] self.constraints()[i], row)
    }
}

/// Unsigned comparison through the circuit: for all 32-bit operands, a row
/// assigned for unsigned less-than (or less-or-equal) has exactly one
/// sub-operation selector and exactly one ordering flag set, and the
/// constraints on the result hold exactly when the claimed result is
/// `left < right` (or `left <= right`) on the operands read as unsigned.
/// The whole constraint set then holds exactly in that case as well, given
/// the inverse of a non-zero difference, which a prime field always has.
pub proof fn lemma_unsigned_compare(
    cfg: RelConfig,
    row: &Row,
    step: StepState,
    op: RelOp,
    left: i32,
    right: i32,
    value: bool,
)
    requires
        cfg.wf(),
        row.wf(),
        cfg.base + REL_CELLS <= row.spec_len(),
        op.spec_is_supported(),
        cfg.assigned(row, step, op, left, right, value),
    ensures
        ({
            let flags = seq![
                row.val(cfg.op_is_eq), row.val(cfg.op_is_ne), row.val(cfg.op_is_lt),
                row.val(cfg.op_is_gt), row.val(cfg.op_is_le), row.val(cfg.op_is_ge),
            ];
            &&& forall|i: int| 0 <= i < 6 ==> flags[i] == 0 || flags[i] == 1
            &&& flags[0] + flags[1] + flags[2] + flags[3] + flags[4] + flags[5] == 1
        }),
        row.val(cfg.res_is_eq) + row.val(cfg.res_is_lt) + row.val(cfg.res_is_gt) == 1,
        constraint_holds(cfg.constraints()[1], row),
        constraint_holds(cfg.constraints()[2], row),
        constraint_holds(cfg.constraints()[3], row),
        constraint_holds(cfg.constraints()[4], row) <==> value == rel_holds(
            op,
            spec_unsigned_of(left),
            spec_unsigned_of(right),
        ),
        ({
            let d = abs_diff(spec_unsigned_of(left), spec_unsigned_of(right));
            (d == 0 || has_inverse(d)) ==> (constraint_holds(cfg.constraints()[0], row) && (
            cfg.holds_all(row) <==> value == rel_holds(
                op,
                spec_unsigned_of(left),
                spec_unsigned_of(right),
            )))
        }),
{
    lemma_modulus_bounds();
    let l = spec_unsigned_of(left);
    let r = spec_unsigned_of(right);
    let d = abs_diff(l, r);
    let cs = cfg.constraints();
    // compare op
    let v1 = cell_values(row.values@, cs[1].1);
    assert(v1[0] == 0 && v1[1] == 0 && v1[3] == 0 && v1[5] == 0);
    assert(v1[2] + v1[4] == 1);
    lemma_vanishes_small(0);
    assert(gate_holds(Gate::CompareOp, v1));
    // compare bytes
    let v2 = cell_values(row.values@, cs[2].1);
    assert(v2[0] == 1 && v2[1] == 0);
    assert(gate_holds(Gate::CompareBytes, v2));
    // compare leading bit: the sign selector is clear
    let v3 = cell_values(row.values@, cs[3].1);
    assert(v3[0] == 0 && v3[1] == 0 && v3[2] == 0 && v3[3] == 0 && v3[8] == 0);
    let n1 = v3[4] * crate::constraint::nibble(v3[6], 7) + v3[5] * crate::constraint::nibble(v3[6], 15);
    let n2 = v3[4] * crate::constraint::nibble(v3[7], 7) + v3[5] * crate::constraint::nibble(v3[7], 15);
    assert(n1 * v3[8] == 0 && n2 * v3[8] == 0) by (nonlinear_arith)
        requires
            v3[8] == 0,
    ;
    assert(gate_holds(Gate::CompareLeadingBit, v3));
    // compare op res: both operands read as non-negative
    let v4 = cell_values(row.values@, cs[4].1);
    assert(v4[10] == 0 && v4[11] == 0);
    assert(v4[0] == 0 && v4[1] == 0 && v4[3] == 0 && v4[5] == 0);
    let res = bit(value);
    let lt = bit(l < r);
    let eq = bit(l == r);
    assert(v4[6] == res && v4[7] == eq && v4[8] == lt);
    let (x0, x1, x2, x3, x4, x5, x6, x7, x8, x9, x10, x11) = (
        v4[0],
        v4[1],
        v4[2],
        v4[3],
        v4[4],
        v4[5],
        v4[6],
        v4[7],
        v4[8],
        v4[9],
        v4[10],
        v4[11],
    );
    let pp = (1 - x10) * (1 - x11);
    let pn = (1 - x10) * x11;
    let np = x10 * (1 - x11);
    let nn = x10 * x11;
    assert(pp == 1 && pn == 0 && np == 0 && nn == 0) by (nonlinear_arith)
        requires
            x10 == 0,
            x11 == 0,
            pp == (1 - x10) * (1 - x11),
            pn == (1 - x10) * x11,
            np == x10 * (1 - x11),
            nn == x10 * x11,
    ;
    let q0 = x0 * (x6 - x7);
    let q1 = x1 * (x6 - 1 + x7);
    let q2 = x2 * (x6 - np - pp * x8 - nn * x9);
    let q3 = x3 * (x6 - pn - pp * x9 - nn * x8);
    let q4 = x4 * (x6 - np - pp * x8 - nn * x9 - x7);
    let q5 = x5 * (x6 - pn - pp * x9 - nn * x8 - x7);
    assert(q0 == 0 && q1 == 0 && q3 == 0 && q5 == 0) by (nonlinear_arith)
        requires
            x0 == 0,
            x1 == 0,
            x3 == 0,
            x5 == 0,
            q0 == x0 * (x6 - x7),
            q1 == x1 * (x6 - 1 + x7),
            q3 == x3 * (x6 - pn - pp * x9 - nn * x8),
            q5 == x5 * (x6 - pn - pp * x9 - nn * x8 - x7),
    ;
    assert(q2 == x2 * (x6 - x8) && q4 == x4 * (x6 - x8 - x7)) by (nonlinear_arith)
        requires
            pp == 1,
            np == 0,
            nn == 0,
            q2 == x2 * (x6 - np - pp * x8 - nn * x9),
            q4 == x4 * (x6 - np - pp * x8 - nn * x9 - x7),
    ;
    assert(gate_holds(Gate::CompareOpRes, v4) == (vanishes(q0) && vanishes(q1) && vanishes(q2)
        && vanishes(q3) && vanishes(q4) && vanishes(q5)));
    if op == RelOp::UnsignedLt {
        assert(x2 == 1 && x4 == 0);
        assert(q2 == res - lt && q4 == 0) by (nonlinear_arith)
            requires
                x2 == 1,
                x4 == 0,
                x6 == res,
                x8 == lt,
                q2 == x2 * (x6 - x8),
                q4 == x4 * (x6 - x8 - x7),
        ;
        lemma_vanishes_small(res - lt);
    } else {
        assert(x2 == 0 && x4 == 1);
        assert(q2 == 0 && q4 == res - lt - eq) by (nonlinear_arith)
            requires
                x2 == 0,
                x4 == 1,
                x6 == res,
                x8 == lt,
                x7 == eq,
                q2 == x2 * (x6 - x8),
                q4 == x4 * (x6 - x8 - x7),
        ;
        lemma_vanishes_small(res - lt - eq);
    }
    // compare diff
    if d == 0 || has_inverse(d) {
        let v0 = cell_values(row.values@, cs[0].1);
        assert(v0[0] == l && v0[1] == r && v0[2] == d && v0[4] == eq && v0[5] == lt);
        assert(v0[6] == bit(l > r));
        assert(v0[0] + v0[5] * v0[2] - v0[6] * v0[2] - v0[1] == 0);
        assert(v0[6] + v0[5] + v0[4] - 1 == 0);
        lemma_equality_gadget(d, v0[3], l == r);
        assert(gate_holds(Gate::CompareDiff, v0));
        if cfg.holds_all(row) {
            assert(constraint_holds(cs[4], row));
        }
        if value == rel_holds(op, l, r) {
            assert forall|i: int| 0 <= i < cs.len() implies constraint_holds(#[trigger] cs[i], row) by {
                if i == 0 {
                } else if i == 1 {
                } else if i == 2 {
                } else if i == 3 {
                } else {
                }
            }
        }
    }
}

/// The opcode of a relational instruction with sub-operation `op` on values
/// of type `vtype`, as the instruction table holds it.
pub open spec fn spec_rel_instruction_opcode(op: RelOp, vtype: VarType) -> int {
    OpcodeClass::Rel.spec_tag() * OPCODE_CLASS_UNIT + op.spec_code() * OPCODE_ARG0_UNIT
        + vtype.spec_tag() * OPCODE_ARG1_UNIT
}

pub fn rel_instruction_opcode(op: RelOp, vtype: VarType) -> (r: u64)
    ensures
        r as int == spec_rel_instruction_opcode(op, vtype),
{
    OpcodeClass::Rel.tag() * OPCODE_CLASS_UNIT + op.code() * OPCODE_ARG0_UNIT + vtype.tag()
        * OPCODE_ARG1_UNIT
}

impl RelConfig {
    /// The cells that the opcode and the lookup keys read hold values of
    /// their kinds.
    pub open spec fn readable(self, row: &Row) -> bool {
        &&& in_domain(CellKind::Bit, row.val(self.is_four_bytes))
        &&& in_domain(CellKind::Bit, row.val(self.is_eight_bytes))
        &&& in_domain(CellKind::Bit, row.val(self.is_sign))
        &&& in_domain(CellKind::Bit, row.val(self.op_is_lt))
        &&& in_domain(CellKind::Bit, row.val(self.op_is_le))
        &&& in_domain(CellKind::Bit, row.val(self.op_is_sign))
        &&& in_domain(CellKind::U64, row.val(self.lhs))
        &&& in_domain(CellKind::U64, row.val(self.rhs))
        &&& in_domain(CellKind::U64, row.val(self.res))
    }

    /// The value-type tag the width and sign cells select.
    pub open spec fn spec_vtype(self, row: &Row) -> int {
        row.val(self.is_four_bytes) * 4 + row.val(self.is_eight_bytes) * 6 + row.val(self.is_sign) + 1
    }

    /// The packed opcode a row of this configuration claims: the class tag,
    /// the unsigned sub-operation selected, and the value type.
    pub open spec fn spec_opcode(self, row: &Row) -> int {
        let unsigned = 1 - row.val(self.op_is_sign);
        OpcodeClass::Rel.spec_tag() * OPCODE_CLASS_UNIT + row.val(self.op_is_lt) * unsigned
            * (RelOp::UnsignedLt.spec_code() * OPCODE_ARG0_UNIT) + row.val(self.op_is_le) * unsigned
            * (RelOp::UnsignedLe.spec_code() * OPCODE_ARG0_UNIT) + self.spec_vtype(row)
            * OPCODE_ARG1_UNIT
    }

    pub fn opcode(&self, row: &Row) -> (r: u64)
        requires
            self.wf(),
            row.wf(),
            self.base + REL_CELLS <= row.spec_len(),
            self.readable(row),
        ensures
            r as int == self.spec_opcode(row),
    {
        let four = row.get(self.is_four_bytes).low_u64();
        let eight = row.get(self.is_eight_bytes).low_u64();
        let sign = row.get(self.is_sign).low_u64();
        let lt = row.get(self.op_is_lt).low_u64();
        let le = row.get(self.op_is_le).low_u64();
        let op_sign = row.get(self.op_is_sign).low_u64();
        let vtype: u64 = four * 4 + eight * 6 + sign + 1;
        let unsigned: u64 = 1 - op_sign;
        let subop_lt: u64 = if lt == 1 && unsigned == 1 {
            RelOp::UnsignedLt.code() * OPCODE_ARG0_UNIT
        } else {
            0
        };
        let subop_le: u64 = if le == 1 && unsigned == 1 {
            RelOp::UnsignedLe.code() * OPCODE_ARG0_UNIT
        } else {
            0
        };
        proof {
            let k1 = RelOp::UnsignedLt.spec_code() * OPCODE_ARG0_UNIT;
            let k2 = RelOp::UnsignedLe.spec_code() * OPCODE_ARG0_UNIT;
            assert(subop_lt == lt * unsigned * k1) by (nonlinear_arith)
                requires
                    lt == 0 || lt == 1,
                    unsigned == 0 || unsigned == 1,
                    subop_lt == (if lt == 1 && unsigned == 1 { k1 } else { 0 }),
            ;
            assert(subop_le == le * unsigned * k2) by (nonlinear_arith)
                requires
                    le == 0 || le == 1,
                    unsigned == 0 || unsigned == 1,
                    subop_le == (if le == 1 && unsigned == 1 { k2 } else { 0 }),
            ;
        }
        OpcodeClass::Rel.tag() * OPCODE_CLASS_UNIT + subop_lt + subop_le + vtype * OPCODE_ARG1_UNIT
    }

    pub open spec fn spec_mtable_lookup(self, row: &Row, step: StepState, item: MLookupItem) -> Option<MemoryAccess> {
        let vtype = self.spec_vtype(row) as u64;
        match item {
            MLookupItem::First => Some(
                spec_stack_read(step.eid, 1, (step.sp + 1) as u64, vtype, row.val(self.rhs) as u64),
            ),
            MLookupItem::Second => Some(
                spec_stack_read(step.eid, 2, (step.sp + 2) as u64, vtype, row.val(self.lhs) as u64),
            ),
            MLookupItem::Third => Some(
                spec_stack_write(
                    step.eid,
                    3,
                    (step.sp + 2) as u64,
                    VarType::I32.spec_tag(),
                    row.val(self.res) as u64,
                ),
            ),
            MLookupItem::Fourth => None,
        }
    }

    /// The memory-access key a row of this configuration emits in each
    /// access slot: the two operand reads and the result write.
    pub fn mtable_lookup(&self, row: &Row, step: &StepState, item: MLookupItem) -> (r: Option<
        MemoryAccess,
    >)
        requires
            self.wf(),
            row.wf(),
            self.base + REL_CELLS <= row.spec_len(),
            self.readable(row),
        ensures
            r == self.spec_mtable_lookup(row, *step, item),
    {
        let four = row.get(self.is_four_bytes).low_u64();
        let eight = row.get(self.is_eight_bytes).low_u64();
        let sign = row.get(self.is_sign).low_u64();
        let vtype: u64 = four * 4 + eight * 6 + sign + 1;
        match item {
            MLookupItem::First => Some(
                encode_stack_read(
                    step.eid,
                    1,
                    step.sp as u64 + 1,
                    vtype,
                    row.get(self.rhs).low_u64(),
                ),
            ),
            MLookupItem::Second => Some(
                encode_stack_read(
                    step.eid,
                    2,
                    step.sp as u64 + 2,
                    vtype,
                    row.get(self.lhs).low_u64(),
                ),
            ),
            MLookupItem::Third => Some(
                encode_stack_write(
                    step.eid,
                    3,
                    step.sp as u64 + 2,
                    VarType::I32.tag(),
                    row.get(self.res).low_u64(),
                ),
            ),
            MLookupItem::Fourth => None,
        }
    }
}

/// A row assigned for an unsigned comparison claims the opcode of that
/// comparison on 32-bit values, and emits in each access slot exactly the
/// key its lookup cell holds.
pub proof fn lemma_rel_row_matches_tables(
    cfg: RelConfig,
    row: &Row,
    step: StepState,
    op: RelOp,
    left: i32,
    right: i32,
    value: bool,
)
    requires
        cfg.wf(),
        row.wf(),
        cfg.base + REL_CELLS <= row.spec_len(),
        op.spec_is_supported(),
        cfg.assigned(row, step, op, left, right, value),
    ensures
        cfg.readable(row),
        cfg.spec_opcode(row) == spec_rel_instruction_opcode(op, VarType::I32),
        cfg.spec_mtable_lookup(row, step, MLookupItem::First) == row.access(cfg.lookup_stack_read_lhs),
        cfg.spec_mtable_lookup(row, step, MLookupItem::Second) == row.access(cfg.lookup_stack_read_rhs),
        cfg.spec_mtable_lookup(row, step, MLookupItem::Third) == row.access(cfg.lookup_stack_write_res),
        cfg.spec_mtable_lookup(row, step, MLookupItem::Fourth) is None,
{
    assert(cfg.spec_vtype(row) == 6);
    let lt = row.val(cfg.op_is_lt);
    let le = row.val(cfg.op_is_le);
    assert(row.val(cfg.op_is_sign) == 0);
    if op == RelOp::UnsignedLt {
        assert(lt == 1 && le == 0);
    } else {
        assert(lt == 0 && le == 1);
    }
}

} // verus!
