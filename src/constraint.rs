//! Constraints as data: a named gate applied to a list of cells, collected in
//! an append-only registry. What a gate asks of a row is `gate_holds`.
use vstd::prelude::*;
use crate::cell::{Cell, Row};
use crate::field::vanishes;

verus! {

/// The polynomial gates.
#[derive(Clone, Copy, Debug, PartialEq, Eq, Structural)]
pub enum Gate {
    CompareDiff,
    CompareOp,
    CompareBytes,
    CompareLeadingBit,
    CompareOpRes,
    SelectCondZero,
    SelectCondNonZero,
}

impl Gate {
    /// The constraint's name.
    pub fn name(&self) -> &'static str {
        match self {
            Gate::CompareDiff => "compare diff",
            Gate::CompareOp => "compare op",
            Gate::CompareBytes => "compare bytes",
            Gate::CompareLeadingBit => "compare leading bit",
            Gate::CompareOpRes => "compare op res",
            Gate::SelectCondZero => "select: cond is zero",
            Gate::SelectCondNonZero => "select: cond is not zero",
        }
    }
}

/// The `k`-th nibble (4 bits) of `v`, counted from the least significant.
pub open spec fn nibble(v: int, k: nat) -> int {
    (v / vstd::arithmetic::power::pow(16, k)) % 16
}

/// The identities of gate `g`, on the values `v` of its cells in order. Each
/// polynomial must vanish in the field.
pub open spec fn gate_holds(g: Gate, v: Seq<int>) -> bool {
    match g {
        // cells: lhs, rhs, diff, diff_inv, res_is_eq, res_is_lt, res_is_gt
        Gate::CompareDiff => {
            &&& vanishes(v[0] + v[5] * v[2] - v[6] * v[2] - v[1])
            &&& vanishes(v[6] + v[5] + v[4] - 1)
            &&& vanishes(v[2] * v[4])
            &&& vanishes(v[2] * v[3] + v[4] - 1)
        },
        // cells: op_is_eq, op_is_ne, op_is_lt, op_is_gt, op_is_le, op_is_ge
        Gate::CompareOp => vanishes(v[0] + v[1] + v[2] + v[3] + v[4] + v[5] - 1),
        // cells: is_four_bytes, is_eight_bytes
        Gate::CompareBytes => vanishes(v[0] + v[1] - 1),
        // cells: lhs_leading_bit, lhs_rem_value, rhs_leading_bit, rhs_rem_value,
        // is_four_bytes, is_eight_bytes, lhs, rhs, op_is_sign
        Gate::CompareLeadingBit => {
            &&& vanishes(v[0] * 8 + v[1] - (v[4] * nibble(v[6], 7) + v[5] * nibble(v[6], 15)) * v[8])
            &&& vanishes(v[2] * 8 + v[3] - (v[4] * nibble(v[7], 7) + v[5] * nibble(v[7], 15)) * v[8])
        },
        // cells: op_is_eq, op_is_ne, op_is_lt, op_is_gt, op_is_le, op_is_ge, res,
        // res_is_eq, res_is_lt, res_is_gt, lhs_leading_bit, rhs_leading_bit
        Gate::CompareOpRes => {
            let pp = (1 - v[10]) * (1 - v[11]);
            let pn = (1 - v[10]) * v[11];
            let np = v[10] * (1 - v[11]);
            let nn = v[10] * v[11];
            &&& vanishes(v[0] * (v[6] - v[7]))
            &&& vanishes(v[1] * (v[6] - 1 + v[7]))
            &&& vanishes(v[2] * (v[6] - np - pp * v[8] - nn * v[9]))
            &&& vanishes(v[3] * (v[6] - pn - pp * v[9] - nn * v[8]))
            &&& vanishes(v[4] * (v[6] - np - pp * v[8] - nn * v[9] - v[7]))
            &&& vanishes(v[5] * (v[6] - pn - pp * v[9] - nn * v[8] - v[7]))
        },
        // cells: cond, cond_inv, res, val2
        Gate::SelectCondZero => vanishes((1 - v[0] * v[1]) * (v[2] - v[3])),
        // cells: cond, res, val1
        Gate::SelectCondNonZero => vanishes(v[0] * (v[1] - v[2])),
    }
}

/// The values of `cells` in `row`.
pub open spec fn cell_values(row: Seq<crate::field::Fe>, cells: Seq<Cell>) -> Seq<int> {
    Seq::new(cells.len(), |i: int| row[cells[i].index as int].val())
}

/// A registered constraint: gate `gate` over `cells`.
pub struct Constraint {
    pub gate: Gate,
    pub cells: Vec<Cell>,
}

impl Constraint {
    pub open spec fn view(&self) -> (Gate, Seq<Cell>) {
        (self.gate, self.cells@)
    }
}

/// `row` meets the constraint `c`.
pub open spec fn constraint_holds(c: (Gate, Seq<Cell>), row: &Row) -> bool {
    gate_holds(c.0, cell_values(row.values@, c.1))
}

/// The registry of constraints, in order of registration.
pub struct ConstraintBuilder {
    pub constraints: Vec<Constraint>,
}

impl ConstraintBuilder {
    pub open spec fn view(&self) -> Seq<(Gate, Seq<Cell>)> {
        Seq::new(self.constraints@.len(), |i: int| self.constraints@[i].view())
    }

    pub fn new() -> (r: ConstraintBuilder)
        ensures
            r.view().len() == 0,
    {
        ConstraintBuilder { constraints: Vec::new() }
    }

    pub fn len(&self) -> (r: usize)
        ensures
            r == self.view().len(),
    {
        self.constraints.len()
    }

    /// Registers gate `gate` over `cells`.
    pub fn push(&mut self, gate: Gate, cells: Vec<Cell>)
        ensures
            final(self).view() == old(self).view().push((gate, cells@)),
    {
        let ghost cs = cells@;
        self.constraints.push(Constraint { gate, cells });
        assert(self.view() =~= old(self).view().push((gate, cs)));
    }
}

} // verus!
