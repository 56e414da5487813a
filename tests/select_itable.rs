use num_bigint::BigUint;
use zkwasm_etable::cell::{EventTableCellAllocator, Row};
use zkwasm_etable::constraint::{ConstraintBuilder, Gate};
use zkwasm_etable::etable::EventTableOpcodeConfig;
use zkwasm_etable::field::Fe;
use zkwasm_etable::itable::{IEntry, Inst, InstTableChip};
use zkwasm_etable::mtable::MemoryAccess;
use zkwasm_etable::op_select::{SelectConfig, SelectConfigBuilder};
use zkwasm_etable::step::{AssignError, MemoryRwRecord, OpcodeClass, RelOp, StepInfo, StepState, VarType};
use zkwasm_etable::witness::WitnessContext;

fn modulus() -> BigUint {
    BigUint::parse_bytes(
        b"30644e72e131a029b85045b68181585d2833e84879b9709143e1f593f0000001",
        16,
    )
    .unwrap()
}

fn fe_value(f: &Fe) -> BigUint {
    (BigUint::from(f.hi) << 128) + BigUint::from(f.lo)
}

fn records() -> Vec<MemoryRwRecord> {
    vec![MemoryRwRecord { start_eid: 0, end_eid: 9 }; 4]
}

/// Both select identities, evaluated in the field.
fn select_holds(cfg: &SelectConfig, row: &Row) -> bool {
    let m = modulus();
    let v = |c: zkwasm_etable::cell::Cell| fe_value(&row.values[c.index]);
    let (cond, inv, res, val1, val2) = (v(cfg.cond), v(cfg.cond_inv), v(cfg.res), v(cfg.val1), v(cfg.val2));
    // (1 - cond * inv) * (res - val2) and cond * (res - val1), reduced mod m
    let one_minus = (&m + 1u32 - (&cond * &inv) % &m) % &m;
    let d2 = (&m + &res - &val2) % &m;
    let d1 = (&m + &res - &val1) % &m;
    (one_minus * d2) % &m == BigUint::from(0u32) && (cond * d1) % &m == BigUint::from(0u32)
}

fn run_select(val1: u64, val2: u64, cond: u64, result: u64, vtype: VarType) -> (SelectConfig, Row, Result<(), AssignError>) {
    let mut alloc = EventTableCellAllocator::new();
    let mut builder = ConstraintBuilder::new();
    let cfg = SelectConfigBuilder::configure(&mut alloc, &mut builder);
    let mut row = Row::new(alloc.len());
    let entry = StepInfo::Select { val1, val2, cond, result, vtype };
    let r = cfg.assign(&mut row, &StepState { eid: 5, sp: 20 }, &entry, &records());
    (cfg, row, r)
}

#[test]
fn select_zero_cond_takes_val2() {
    let (cfg, row, r) = run_select(7, 42, 0, 42, VarType::I32);
    assert_eq!(r, Ok(()));
    assert_eq!(fe_value(&row.values[cfg.res.index]), BigUint::from(42u32));
    assert_eq!(fe_value(&row.values[cfg.is_i32.index]), BigUint::from(1u32));
    assert!(select_holds(&cfg, &row));
}

#[test]
fn select_nonzero_cond_takes_val1() {
    let (cfg, row, r) = run_select(7, 42, 3, 7, VarType::I64);
    assert_eq!(r, Ok(()));
    assert_eq!(fe_value(&row.values[cfg.is_i32.index]), BigUint::from(0u32));
    assert!(select_holds(&cfg, &row));
    let (cfg, row, _) = run_select(u64::MAX, 0, u64::MAX, u64::MAX, VarType::I64);
    assert!(select_holds(&cfg, &row));
}

#[test]
fn select_wrong_result_breaks_constraints() {
    let (cfg, row, _) = run_select(7, 42, 0, 7, VarType::I32);
    assert!(!select_holds(&cfg, &row));
    let (cfg, row, _) = run_select(7, 42, 1, 42, VarType::I32);
    assert!(!select_holds(&cfg, &row));
}

#[test]
fn select_cond_inverse() {
    let (cfg, row, _) = run_select(1, 2, 5, 1, VarType::I32);
    let inv = fe_value(&row.values[cfg.cond_inv.index]);
    assert_eq!((BigUint::from(5u32) * inv) % modulus(), BigUint::from(1u32));
    let (cfg, row, _) = run_select(1, 2, 0, 2, VarType::I32);
    assert_eq!(fe_value(&row.values[cfg.cond_inv.index]), BigUint::from(0u32));
}

#[test]
fn select_costs_and_keys() {
    let (cfg, row, _) = run_select(7, 42, 0, 42, VarType::I32);
    assert_eq!(cfg.sp_diff(), 2);
    assert_eq!(cfg.mops(), 4);
    assert_eq!(cfg.memory_writing_ops(&StepInfo::Select { val1: 7, val2: 42, cond: 0, result: 42, vtype: VarType::I32 }), 1);
    assert_eq!(cfg.opcode(), 17u64 << 48);
    assert_eq!(
        row.accesses[cfg.memory_table_lookup_stack_read_cond.index],
        Some(MemoryAccess { eid: 5, emid: 1, addr: 21, vtype: 6, value: 0, is_write: false })
    );
    assert_eq!(
        row.accesses[cfg.memory_table_lookup_stack_read_val2.index],
        Some(MemoryAccess { eid: 5, emid: 2, addr: 22, vtype: 6, value: 42, is_write: false })
    );
    assert_eq!(
        row.accesses[cfg.memory_table_lookup_stack_read_val1.index],
        Some(MemoryAccess { eid: 5, emid: 3, addr: 23, vtype: 6, value: 7, is_write: false })
    );
    assert_eq!(
        row.accesses[cfg.memory_table_lookup_stack_write.index],
        Some(MemoryAccess { eid: 5, emid: 4, addr: 23, vtype: 6, value: 42, is_write: true })
    );
}

#[test]
fn select_errors() {
    let mut alloc = EventTableCellAllocator::new();
    let mut builder = ConstraintBuilder::new();
    let cfg = SelectConfigBuilder::configure(&mut alloc, &mut builder);
    let mut row = Row::new(alloc.len());
    let step = StepState { eid: 5, sp: 0 };
    let entry = StepInfo::Select { val1: 1, val2: 2, cond: 0, result: 2, vtype: VarType::I32 };
    let short = vec![MemoryRwRecord { start_eid: 0, end_eid: 9 }; 3];
    assert_eq!(cfg.assign(&mut row, &step, &entry, &short), Err(AssignError::MissingMemoryRecord));
    let mut stale = records();
    stale[1] = MemoryRwRecord { start_eid: 0, end_eid: 5 };
    assert_eq!(cfg.assign(&mut row, &step, &entry, &stale), Err(AssignError::InvalidMemoryInterval));
    let cmp = StepInfo::I32Comp { class: RelOp::UnsignedLt, left: 0, right: 1, value: true };
    assert_eq!(cfg.assign(&mut row, &step, &cmp, &records()), Err(AssignError::MismatchedEntry));
    assert!(row.values.iter().all(|f| f.hi == 0 && f.lo == 0));
    assert!(row.accesses.iter().all(|a| a.is_none()));
}

#[test]
fn select_constraints_registered() {
    let mut alloc = EventTableCellAllocator::new();
    let mut builder = ConstraintBuilder::new();
    let cfg = SelectConfigBuilder::configure(&mut alloc, &mut builder);
    assert_eq!(alloc.len(), 10);
    assert_eq!(builder.len(), 2);
    assert_eq!(builder.constraints[0].gate, Gate::SelectCondZero);
    assert_eq!(builder.constraints[1].gate.name(), "select: cond is not zero");
    assert_eq!(cfg.base, 0);
}

#[test]
fn dispatch_by_class() {
    let mut alloc = EventTableCellAllocator::new();
    let mut builder = ConstraintBuilder::new();
    let rel = EventTableOpcodeConfig::configure(OpcodeClass::Rel, &mut alloc, &mut builder);
    let sel = EventTableOpcodeConfig::configure(OpcodeClass::Select, &mut alloc, &mut builder);
    assert_eq!(alloc.len(), 35);
    assert_eq!(builder.len(), 7);
    assert_eq!(rel.opcode_class(), OpcodeClass::Rel);
    assert_eq!(sel.opcode_class(), OpcodeClass::Select);
    assert_eq!((rel.mops(), rel.sp_diff()), (3, 1));
    assert_eq!((sel.mops(), sel.sp_diff()), (4, 2));
    let mut row = Row::new(alloc.len());
    let step = StepState { eid: 2, sp: 4 };
    let entry = StepInfo::Select { val1: 9, val2: 8, cond: 1, result: 9, vtype: VarType::I32 };
    assert_eq!(sel.assign(&mut row, &step, &entry, &records()), Ok(()));
    assert_eq!(rel.assign(&mut row, &step, &entry, &records()), Err(AssignError::MismatchedEntry));
}

fn biguint_encode(i: &Inst) -> BigUint {
    let mut bn = BigUint::from(0u32);
    for f in [i.moid, i.mmid, i.fid, i.bid, i.iid] {
        bn <<= 16u8;
        bn += f;
    }
    bn <<= 64u8;
    bn += i.opcode;
    bn <<= 64u8;
    bn += i.aux;
    bn
}

fn key_value(hi: u128, lo: u128) -> BigUint {
    (BigUint::from(hi) << 128) + BigUint::from(lo)
}

#[test]
fn encode_matches_shift_and_add() {
    let i = Inst::new(1, 2, 3, 4, 5, 6, 7);
    let k = i.encode();
    assert_eq!(key_value(k.hi, k.lo), biguint_encode(&i));
    assert_eq!(i.encode_addr(), (1u128 << 64) + (2 << 48) + (3 << 32) + (4 << 16) + 5);
    let max = Inst::new(u16::MAX, u16::MAX, u16::MAX, u16::MAX, u16::MAX, u64::MAX, u64::MAX);
    let k = max.encode();
    assert_eq!(key_value(k.hi, k.lo), biguint_encode(&max));
    assert_eq!(key_value(k.hi, k.lo), (BigUint::from(1u32) << 208) - 1u32);
}

#[test]
fn encode_decode_round_trip() {
    for i in [
        Inst::new(0, 0, 0, 0, 0, 0, 0),
        Inst::new(1, 2, 3, 4, 5, 6, 7),
        Inst::new(u16::MAX, 0, u16::MAX, 0, u16::MAX, 0, u64::MAX),
        Inst::new(0, u16::MAX, 0, u16::MAX, 0, u64::MAX, 0),
    ] {
        assert_eq!(Inst::decode(&i.encode()), i);
    }
}

#[test]
fn distinct_addresses_do_not_collide() {
    let a = Inst::new(0, 1, 0, 0, 0, 0, 0).encode();
    let b = Inst::new(0, 0, 1, 0, 0, 0, 0).encode();
    let c = Inst::new(0, 0, 0, 0, 0, 1, 0).encode();
    assert_ne!(a, b);
    assert_ne!(b, c);
}

#[test]
fn instruction_from_trace_entry() {
    let e = IEntry { module_instance_index: 3, func_index: 4, pc: 5, opcode: 99 };
    assert_eq!(Inst::from_entry(&e), Inst::new(3, 3, 4, 0, 5, 99, 0));
}

#[test]
fn inst_table_appends_keys() {
    let mut chip = InstTableChip::new();
    let i = Inst::new(1, 1, 2, 0, 3, 8, 0);
    chip.add_inst(i);
    chip.add_inst(Inst::new(0, 0, 0, 0, 0, 0, 0));
    assert_eq!(chip.entries.len(), 2);
    assert_eq!(fe_value(&chip.entries[0]), biguint_encode(&i));
    assert_eq!(fe_value(&chip.entries[1]), BigUint::from(0u32));
}

#[test]
fn field_inverse_through_public_api() {
    let inv = Fe::inverse_or_zero(2);
    assert_ne!(fe_value(&inv), BigUint::from(2u32));
    assert_eq!((fe_value(&inv) * 2u32) % modulus(), BigUint::from(1u32));
    assert_eq!(fe_value(&Fe::inverse_or_zero(0)), BigUint::from(0u32));
    let big = Fe::inverse_or_zero(u64::MAX);
    assert_eq!((fe_value(&big) * u64::MAX) % modulus(), BigUint::from(1u32));
    assert_eq!(Fe::from_u64(77).to_u64(), Some(77));
    assert_eq!(Fe { hi: 1, lo: 0 }.to_u64(), None);
}

#[test]
fn witness_fifo_when_all_inserted_first() {
    let mut w = WitnessContext::new();
    w.witness_insert(1);
    w.witness_insert(2);
    w.witness_insert(3);
    assert_eq!(w.buf, vec![3, 2, 1]);
    assert_eq!(w.witness_pop(), 1);
    assert_eq!(w.witness_pop(), 2);
    assert_eq!(w.witness_pop(), 3);
    assert!(w.buf.is_empty());
}

#[test]
fn witness_interleaved_is_lifo_like() {
    let mut w = WitnessContext::default();
    w.witness_insert(1);
    w.witness_insert(2);
    assert_eq!(w.witness_pop(), 1);
    w.witness_insert(3);
    assert_eq!(w.witness_pop(), 2);
    assert_eq!(w.witness_pop(), 3);
}
