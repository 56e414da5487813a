use num_bigint::BigInt;
use zkwasm_etable::cell::{EventTableCellAllocator, Row};
use zkwasm_etable::constraint::{ConstraintBuilder, Gate};
use zkwasm_etable::field::Fe;
use zkwasm_etable::mtable::{MLookupItem, MemoryAccess};
use zkwasm_etable::op_rel::{rel_instruction_opcode, RelConfig, RelConfigBuilder};
use zkwasm_etable::step::{AssignError, RelOp, StepInfo, StepState, VarType};

fn modulus() -> BigInt {
    BigInt::parse_bytes(
        b"30644e72e131a029b85045b68181585d2833e84879b9709143e1f593f0000001",
        16,
    )
    .unwrap()
}

fn fe_value(f: &Fe) -> BigInt {
    (BigInt::from(f.hi) << 128) + BigInt::from(f.lo)
}

fn vanishes(p: BigInt) -> bool {
    let m = modulus();
    ((p % &m) + &m) % &m == BigInt::from(0)
}

fn nibble(v: &BigInt, k: usize) -> BigInt {
    (v >> (4 * k)) & BigInt::from(15)
}

fn gate_holds(g: Gate, v: &[BigInt]) -> bool {
    let one = BigInt::from(1);
    match g {
        Gate::CompareDiff => {
            vanishes(&v[0] + &v[5] * &v[2] - &v[6] * &v[2] - &v[1])
                && vanishes(&v[6] + &v[5] + &v[4] - &one)
                && vanishes(&v[2] * &v[4])
                && vanishes(&v[2] * &v[3] + &v[4] - &one)
        }
        Gate::CompareOp => vanishes(&v[0] + &v[1] + &v[2] + &v[3] + &v[4] + &v[5] - &one),
        Gate::CompareBytes => vanishes(&v[0] + &v[1] - &one),
        Gate::CompareLeadingBit => {
            vanishes(
                &v[0] * BigInt::from(8) + &v[1]
                    - (&v[4] * nibble(&v[6], 7) + &v[5] * nibble(&v[6], 15)) * &v[8],
            ) && vanishes(
                &v[2] * BigInt::from(8) + &v[3]
                    - (&v[4] * nibble(&v[7], 7) + &v[5] * nibble(&v[7], 15)) * &v[8],
            )
        }
        Gate::CompareOpRes => {
            let pp = (&one - &v[10]) * (&one - &v[11]);
            let pn = (&one - &v[10]) * &v[11];
            let np = &v[10] * (&one - &v[11]);
            let nn = &v[10] * &v[11];
            vanishes(&v[0] * (&v[6] - &v[7]))
                && vanishes(&v[1] * (&v[6] - &one + &v[7]))
                && vanishes(&v[2] * (&v[6] - &np - &pp * &v[8] - &nn * &v[9]))
                && vanishes(&v[3] * (&v[6] - &pn - &pp * &v[9] - &nn * &v[8]))
                && vanishes(&v[4] * (&v[6] - &np - &pp * &v[8] - &nn * &v[9] - &v[7]))
                && vanishes(&v[5] * (&v[6] - &pn - &pp * &v[9] - &nn * &v[8] - &v[7]))
        }
        Gate::SelectCondZero => vanishes((&one - &v[0] * &v[1]) * (&v[2] - &v[3])),
        Gate::SelectCondNonZero => vanishes(&v[0] * (&v[1] - &v[2])),
    }
}

fn all_hold(builder: &ConstraintBuilder, row: &Row) -> bool {
    builder.constraints.iter().all(|c| {
        let v: Vec<BigInt> = c.cells.iter().map(|cell| fe_value(&row.values[cell.index])).collect();
        gate_holds(c.gate, &v)
    })
}

fn val(row: &Row, cell: zkwasm_etable::cell::Cell) -> BigInt {
    fe_value(&row.values[cell.index])
}

/// Configures a relational compare, assigns one entry and reports whether
/// every constraint holds.
fn run(class: RelOp, left: i32, right: i32, value: bool) -> (RelConfig, Row, bool) {
    let mut alloc = EventTableCellAllocator::new();
    let mut builder = ConstraintBuilder::new();
    let cfg = RelConfigBuilder::configure(&mut alloc, &mut builder);
    let mut row = Row::new(alloc.len());
    let step = StepState { eid: 1, sp: 10 };
    let entry = StepInfo::I32Comp { class, left, right, value };
    cfg.assign(&mut row, &step, &entry).unwrap();
    let ok = all_hold(&builder, &row);
    (cfg, row, ok)
}

fn circuit_ok(class: RelOp, left: i32, right: i32, value: bool) -> Result<(), String> {
    let (_, _, ok) = run(class, left, right, value);
    if ok {
        Ok(())
    } else {
        Err(String::from("constraints not satisfied"))
    }
}

// (i32.const 1) (i32.const 0) (i32.le_u)
#[test]
fn test_i32_le_u_1_ok() {
    circuit_ok(RelOp::UnsignedLe, 1, 0, 1u32 <= 0u32).unwrap()
}

// (i32.const 1) (i32.const 1) (i32.le_u)
#[test]
fn test_i32_le_u_2_ok() {
    circuit_ok(RelOp::UnsignedLe, 1, 1, 1u32 <= 1u32).unwrap()
}

// (i32.const 0) (i32.const 1) (i32.le_u)
#[test]
fn test_i32_le_u_3_ok() {
    circuit_ok(RelOp::UnsignedLe, 0, 1, 0u32 <= 1u32).unwrap()
}

// (i32.const 1) (i32.const 0) (i32.lt_u)
#[test]
fn test_i32_lt_u_1_ok() {
    circuit_ok(RelOp::UnsignedLt, 1, 0, 1u32 < 0u32).unwrap()
}

// (i32.const 1) (i32.const 1) (i32.lt_u)
#[test]
fn test_i32_lt_u_2_ok() {
    circuit_ok(RelOp::UnsignedLt, 1, 1, 1u32 < 1u32).unwrap()
}

// (i32.const 0) (i32.const 1) (i32.lt_u)
#[test]
fn test_i32_lt_u_3_ok() {
    circuit_ok(RelOp::UnsignedLt, 0, 1, 0u32 < 1u32).unwrap()
}

#[test]
fn le_u_left_greater_sets_gt_and_false() {
    let (cfg, row, ok) = run(RelOp::UnsignedLe, 1, 0, false);
    assert!(ok);
    assert_eq!(val(&row, cfg.op_is_le), BigInt::from(1));
    assert_eq!(val(&row, cfg.res_is_gt), BigInt::from(1));
    assert_eq!(val(&row, cfg.res_is_eq), BigInt::from(0));
    assert_eq!(val(&row, cfg.res_is_lt), BigInt::from(0));
    assert_eq!(val(&row, cfg.res), BigInt::from(0));
}

#[test]
fn le_u_equal_sets_eq_and_true() {
    let (cfg, row, ok) = run(RelOp::UnsignedLe, 1, 1, true);
    assert!(ok);
    assert_eq!(val(&row, cfg.res_is_eq), BigInt::from(1));
    assert_eq!(val(&row, cfg.res), BigInt::from(1));
    assert_eq!(val(&row, cfg.diff_inv), BigInt::from(0));
}

#[test]
fn lt_u_left_smaller_sets_lt_and_true() {
    let (cfg, row, ok) = run(RelOp::UnsignedLt, 0, 1, true);
    assert!(ok);
    assert_eq!(val(&row, cfg.res_is_lt), BigInt::from(1));
    assert_eq!(val(&row, cfg.op_is_lt), BigInt::from(1));
    assert_eq!(val(&row, cfg.res), BigInt::from(1));
}

#[test]
fn wrong_claimed_result_breaks_constraints() {
    assert!(!run(RelOp::UnsignedLt, 0, 1, false).2);
    assert!(!run(RelOp::UnsignedLe, 1, 0, true).2);
    assert!(!run(RelOp::UnsignedLe, 5, 5, false).2);
}

#[test]
fn unsigned_reading_of_negative_operands() {
    // -1 reads as 0xffff_ffff, above every other 32-bit value.
    let (cfg, row, ok) = run(RelOp::UnsignedLt, -1, 7, false);
    assert!(ok);
    assert_eq!(val(&row, cfg.lhs), BigInt::from(0xffff_ffffu64));
    assert_eq!(val(&row, cfg.diff), BigInt::from(0xffff_ffffu64 - 7));
    assert!(run(RelOp::UnsignedLt, 7, -1, true).2);
    assert!(run(RelOp::UnsignedLe, i32::MIN, i32::MAX, false).2);
}

#[test]
fn diff_inverse_is_field_inverse() {
    let (cfg, row, _) = run(RelOp::UnsignedLt, 3, 10, true);
    let inv = val(&row, cfg.diff_inv);
    assert_ne!(inv, BigInt::from(7));
    assert_eq!((BigInt::from(7) * inv) % modulus(), BigInt::from(1));
}

#[test]
fn exactly_one_selector_and_ordering_flag() {
    for (l, r) in [(0, 0), (1, 2), (2, 1), (-5, 3)] {
        for op in [RelOp::UnsignedLt, RelOp::UnsignedLe] {
            let (cfg, row, _) = run(op, l, r, false);
            let ops = [cfg.op_is_eq, cfg.op_is_ne, cfg.op_is_lt, cfg.op_is_gt, cfg.op_is_le, cfg.op_is_ge];
            let sum: BigInt = ops.iter().map(|c| val(&row, *c)).sum();
            assert_eq!(sum, BigInt::from(1));
            let flags = val(&row, cfg.res_is_eq) + val(&row, cfg.res_is_lt) + val(&row, cfg.res_is_gt);
            assert_eq!(flags, BigInt::from(1));
        }
    }
}

#[test]
fn unimplemented_sub_operations_are_reported() {
    for op in [RelOp::Eq, RelOp::Ne, RelOp::SignedGt, RelOp::UnsignedGt, RelOp::SignedGe, RelOp::UnsignedGe] {
        let mut alloc = EventTableCellAllocator::new();
        let mut builder = ConstraintBuilder::new();
        let cfg = RelConfigBuilder::configure(&mut alloc, &mut builder);
        let mut row = Row::new(alloc.len());
        let entry = StepInfo::I32Comp { class: op, left: 1, right: 2, value: false };
        let r = cfg.assign(&mut row, &StepState { eid: 0, sp: 0 }, &entry);
        assert_eq!(r, Err(AssignError::UnsupportedOperation(op)));
        assert!(row.values.iter().all(|f| f.hi == 0 && f.lo == 0));
    }
}

#[test]
fn select_entry_is_mismatched_for_compare() {
    let mut alloc = EventTableCellAllocator::new();
    let mut builder = ConstraintBuilder::new();
    let cfg = RelConfigBuilder::configure(&mut alloc, &mut builder);
    let mut row = Row::new(alloc.len());
    let entry = StepInfo::Select { val1: 1, val2: 2, cond: 0, result: 2, vtype: VarType::I32 };
    assert_eq!(cfg.assign(&mut row, &StepState { eid: 0, sp: 0 }, &entry), Err(AssignError::MismatchedEntry));
}

#[test]
fn compare_lookup_keys_and_costs() {
    let (cfg, row, _) = run(RelOp::UnsignedLe, 4, 9, true);
    let step = StepState { eid: 1, sp: 10 };
    let first = MemoryAccess { eid: 1, emid: 1, addr: 11, vtype: 6, value: 9, is_write: false };
    let second = MemoryAccess { eid: 1, emid: 2, addr: 12, vtype: 6, value: 4, is_write: false };
    let third = MemoryAccess { eid: 1, emid: 3, addr: 12, vtype: 6, value: 1, is_write: true };
    assert_eq!(row.accesses[cfg.lookup_stack_read_lhs.index], Some(first));
    assert_eq!(row.accesses[cfg.lookup_stack_read_rhs.index], Some(second));
    assert_eq!(row.accesses[cfg.lookup_stack_write_res.index], Some(third));
    assert_eq!(cfg.mtable_lookup(&row, &step, MLookupItem::First), Some(first));
    assert_eq!(cfg.mtable_lookup(&row, &step, MLookupItem::Second), Some(second));
    assert_eq!(cfg.mtable_lookup(&row, &step, MLookupItem::Third), Some(third));
    assert_eq!(cfg.mtable_lookup(&row, &step, MLookupItem::Fourth), None);
    assert_eq!(cfg.mops(), 3);
    assert_eq!(cfg.sp_diff(), 1);
}

#[test]
fn compare_opcode_matches_instruction() {
    let (cfg, row, _) = run(RelOp::UnsignedLt, 4, 9, true);
    let expected = 19u64 * (1 << 48) + 6 * (1 << 32) + 6 * (1 << 16);
    assert_eq!(cfg.opcode(&row), expected);
    assert_eq!(rel_instruction_opcode(RelOp::UnsignedLt, VarType::I32), expected);
    let (cfg, row, _) = run(RelOp::UnsignedLe, 4, 9, true);
    assert_eq!(cfg.opcode(&row), rel_instruction_opcode(RelOp::UnsignedLe, VarType::I32));
}

#[test]
fn configure_is_deterministic() {
    let build = || {
        let mut alloc = EventTableCellAllocator::new();
        let mut builder = ConstraintBuilder::new();
        let _ = alloc.alloc_bit();
        let cfg = RelConfigBuilder::configure(&mut alloc, &mut builder);
        let cs: Vec<(Gate, Vec<usize>)> = builder
            .constraints
            .iter()
            .map(|c| (c.gate, c.cells.iter().map(|x| x.index).collect()))
            .collect();
        (cfg, alloc.kinds.clone(), cs)
    };
    let a = build();
    let b = build();
    assert_eq!(a.0, b.0);
    assert_eq!(a.1, b.1);
    assert_eq!(a.2, b.2);
    assert_eq!(a.0.base, 1);
    assert_eq!(a.2.len(), 5);
}
