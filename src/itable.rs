//! The instruction table: each decoded instruction packed into one key.
use vstd::prelude::*;
use crate::field::{lemma_modulus_bounds, modulus, two128, Fe};
use vstd::arithmetic::div_mod::{lemma_fundamental_div_mod_converse_div, lemma_fundamental_div_mod_converse_mod};

verus! {

/// 2^16, the width of one address field.
pub open spec fn two16() -> int {
    0x1_0000
}

/// 2^64, the width of the opcode and of the auxiliary word.
pub open spec fn two64() -> int {
    0x1_0000_0000_0000_0000
}

/// A key of up to 256 bits, as two 128-bit halves.
#[derive(Clone, Copy, Debug, PartialEq, Eq, Structural)]
pub struct Key256 {
    pub hi: u128,
    pub lo: u128,
}

impl Key256 {
    pub open spec fn val(self) -> int {
        self.hi as int * two128() + self.lo as int
    }
}

/// One instruction of the program: where it is, and what it is.
#[derive(Clone, Copy, Debug, PartialEq, Eq, Structural)]
pub struct Inst {
    pub moid: u16,
    pub mmid: u16,
    pub fid: u16,
    pub bid: u16,
    pub iid: u16,
    pub opcode: u64,
    pub aux: u64,
}

/// An instruction as the tracer reports it.
#[derive(Clone, Copy, Debug, PartialEq, Eq, Structural)]
pub struct IEntry {
    pub module_instance_index: u16,
    pub func_index: u16,
    pub pc: u16,
    pub opcode: u64,
}

/// The address fields packed big-endian, 16 bits each.
pub open spec fn spec_encode_addr(i: Inst) -> int {
    (((i.moid as int * two16() + i.mmid as int) * two16() + i.fid as int) * two16() + i.bid as int)
        * two16() + i.iid as int
}

/// The whole instruction: the address, then the opcode, then the auxiliary
/// word, 64 bits each.
pub open spec fn spec_encode(i: Inst) -> int {
    (spec_encode_addr(i) * two64() + i.opcode as int) * two64() + i.aux as int
}

/// Reads the fields back from a key by inverse shifts.
pub open spec fn spec_decode(k: Key256) -> Inst {
    let a = k.hi as int;
    Inst {
        moid: (a / two16() / two16() / two16() / two16()) as u16,
        mmid: ((a / two16() / two16() / two16()) % two16()) as u16,
        fid: ((a / two16() / two16()) % two16()) as u16,
        bid: ((a / two16()) % two16()) as u16,
        iid: (a % two16()) as u16,
        opcode: (k.lo as int / two64()) as u64,
        aux: (k.lo as int % two64()) as u64,
    }
}

/// The key of an instruction, as halves.
pub open spec fn spec_encode_key(i: Inst) -> Key256 {
    Key256 {
        hi: spec_encode_addr(i) as u128,
        lo: (i.opcode as int * two64() + i.aux as int) as u128,
    }
}

proof fn lemma_div_mod_step(q: int, d: int, r: int)
    requires
        0 < d,
        0 <= r < d,
    ensures
        (q * d + r) / d == q,
        (q * d + r) % d == r,
{
    lemma_fundamental_div_mod_converse_div(q * d + r, d, q, r);
    lemma_fundamental_div_mod_converse_mod(q * d + r, d, q, r);
}

proof fn lemma_addr_bounds(i: Inst)
    ensures
        0 <= spec_encode_addr(i) < 0x1_0000_0000_0000_0000_0000,
{
    let b = two16();
    let (m, mm, f, bb, ii) = (i.moid as int, i.mmid as int, i.fid as int, i.bid as int, i.iid as int);
    assert(0 <= (((m * b + mm) * b + f) * b + bb) * b + ii < b * b * b * b * b) by (nonlinear_arith)
        requires
            b == 0x1_0000,
            0 <= m < b,
            0 <= mm < b,
            0 <= f < b,
            0 <= bb < b,
            0 <= ii < b,
    ;
}

/// Instruction encoding round trip: for all 16-bit address fields and
/// 64-bit opcode and auxiliary word, the key's value is the packed
/// instruction, and reading the fields back by inverse shifts gives exactly
/// the seven fields it was built from.
pub proof fn lemma_encode_round_trip(i: Inst)
    ensures
        spec_encode_key(i).val() == spec_encode(i),
        spec_decode(spec_encode_key(i)) == i,
{
    lemma_addr_bounds(i);
    let b = two16();
    let w = two64();
    let a = spec_encode_addr(i);
    let lo = i.opcode as int * w + i.aux as int;
    assert(0 <= lo < w * w) by (nonlinear_arith)
        requires
            w == 0x1_0000_0000_0000_0000,
            0 <= i.opcode < w,
            0 <= i.aux < w,
            lo == i.opcode as int * w + i.aux as int,
    ;
    assert(w * w == two128());
    let k = spec_encode_key(i);
    assert(k.hi as int == a);
    assert(k.lo as int == lo);
    assert(k.val() == spec_encode(i)) by (nonlinear_arith)
        requires
            k.val() == a * two128() + lo,
            two128() == w * w,
            lo == i.opcode as int * w + i.aux as int,
            spec_encode(i) == (a * w + i.opcode as int) * w + i.aux as int,
    ;
    let a1 = ((i.moid as int * b + i.mmid as int) * b + i.fid as int) * b + i.bid as int;
    let a2 = (i.moid as int * b + i.mmid as int) * b + i.fid as int;
    let a3 = i.moid as int * b + i.mmid as int;
    lemma_div_mod_step(a1, b, i.iid as int);
    lemma_div_mod_step(a2, b, i.bid as int);
    lemma_div_mod_step(a3, b, i.fid as int);
    lemma_div_mod_step(i.moid as int, b, i.mmid as int);
    lemma_div_mod_step(i.opcode as int, w, i.aux as int);
}

impl Inst {
    pub fn new(moid: u16, mmid: u16, fid: u16, bid: u16, iid: u16, opcode: u64, aux: u64) -> (r: Self)
        ensures
            r == (Inst { moid, mmid, fid, bid, iid, opcode, aux }),
    {
        Inst { moid, mmid, fid, bid, iid, opcode, aux }
    }

    /// The instruction at a traced program point: the module instance
    /// stands for both module ids, the block id is zero and no auxiliary
    /// word is carried.
    pub fn from_entry(i_entry: &IEntry) -> (r: Self)
        ensures
            r == (Inst {
                moid: i_entry.module_instance_index,
                mmid: i_entry.module_instance_index,
                fid: i_entry.func_index,
                bid: 0,
                iid: i_entry.pc,
                opcode: i_entry.opcode,
                aux: 0,
            }),
    {
        Inst {
            moid: i_entry.module_instance_index,
            mmid: i_entry.module_instance_index,
            fid: i_entry.func_index,
            bid: 0,
            iid: i_entry.pc,
            opcode: i_entry.opcode,
            aux: 0,
        }
    }

    /// The address fields packed big-endian, 16 bits each.
    pub fn encode_addr(&self) -> (r: u128)
        ensures
            r as int == spec_encode_addr(*self),
            r < 0x1_0000_0000_0000_0000_0000,
    {
        proof {
            lemma_addr_bounds(*self);
        }
        let b: u128 = 0x1_0000;
        let mut bn: u128 = 0;
        bn = bn * b + self.moid as u128;
        assert(bn < 0x1_0000);
        bn = bn * b + self.mmid as u128;
        assert(bn < 0x1_0000_0000) by (nonlinear_arith)
            requires
                bn == self.moid as int * 0x1_0000 + self.mmid as int,
                self.moid < 0x1_0000,
                self.mmid < 0x1_0000,
        ;
        bn = bn * b + self.fid as u128;
        assert(bn < 0x1_0000_0000_0000) by (nonlinear_arith)
            requires
                bn == (self.moid as int * 0x1_0000 + self.mmid as int) * 0x1_0000 + self.fid as int,
                self.moid < 0x1_0000,
                self.mmid < 0x1_0000,
                self.fid < 0x1_0000,
        ;
        bn = bn * b + self.bid as u128;
        assert(bn < 0x1_0000_0000_0000_0000) by (nonlinear_arith)
            requires
                bn == ((self.moid as int * 0x1_0000 + self.mmid as int) * 0x1_0000
                    + self.fid as int) * 0x1_0000 + self.bid as int,
                self.moid < 0x1_0000,
                self.mmid < 0x1_0000,
                self.fid < 0x1_0000,
                self.bid < 0x1_0000,
        ;
        bn = bn * b + self.iid as u128;
        bn
    }

    /// The whole instruction key: the address, then the opcode, then the
    /// auxiliary word.
    pub fn encode(&self) -> (r: Key256)
        ensures
            r == spec_encode_key(*self),
            r.val() == spec_encode(*self),
    {
        proof {
            lemma_encode_round_trip(*self);
        }
        let hi = self.encode_addr();
        let lo: u128 = (self.opcode as u128) * 0x1_0000_0000_0000_0000u128 + self.aux as u128;
        Key256 { hi, lo }
    }

    /// Reads an instruction back from its key by inverse shifts.
    pub fn decode(key: &Key256) -> (r: Inst)
        ensures
            r == spec_decode(*key),
    {
        let b: u128 = 0x1_0000;
        let a = key.hi;
        let a1 = a / b;
        let a2 = a1 / b;
        let a3 = a2 / b;
        let a4 = a3 / b;
        Inst {
            moid: a4 as u16,
            mmid: (a3 % b) as u16,
            fid: (a2 % b) as u16,
            bid: (a1 % b) as u16,
            iid: (a % b) as u16,
            opcode: (key.lo / 0x1_0000_0000_0000_0000u128) as u64,
            aux: (key.lo % 0x1_0000_0000_0000_0000u128) as u64,
        }
    }
}

/// The fixed instruction-table column, filled one instruction per row.
pub struct InstTableChip {
    pub entries: Vec<Fe>,
}

impl InstTableChip {
    pub fn new() -> (r: InstTableChip)
        ensures
            r.entries@.len() == 0,
    {
        InstTableChip { entries: Vec::new() }
    }

    /// Appends the key of `inst`, as a field element, to the column.
    pub fn add_inst(&mut self, inst: Inst)
        ensures
            final(self).entries@.len() == old(self).entries@.len() + 1,
            final(self).entries@.drop_last() == old(self).entries@,
            final(self).entries@.last().val() == spec_encode(inst),
            final(self).entries@.last().wf(),
    {
        let key = inst.encode();
        proof {
            lemma_modulus_bounds();
            lemma_addr_bounds(inst);
            assert(key.val() < modulus()) by (nonlinear_arith)
                requires
                    key.val() == key.hi as int * two128() + key.lo as int,
                    (key.hi as int) < 0x1_0000_0000_0000_0000_0000,
                    (key.lo as int) < two128(),
                    two128() == 0x1_0000_0000_0000_0000_0000_0000_0000_0000int,
                    modulus() > two128() * 0x1_0000_0000_0000_0000_0000,
            ;
        }
        self.entries.push(Fe { hi: key.hi, lo: key.lo });
        assert(self.entries@.drop_last() =~= old(self).entries@);
    }
}

} // verus!
