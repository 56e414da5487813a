//! Memory-access keys: what a row emits for every stack access of a step, to
//! be found verbatim in the memory table.
use vstd::prelude::*;

verus! {

/// One stack or memory access as a lookup key.
#[derive(Clone, Copy, Debug, PartialEq, Eq, Structural)]
pub struct MemoryAccess {
    /// Step id of the access.
    pub eid: u32,
    /// Order of the access within its step, from one.
    pub emid: u32,
    /// Stack offset or address.
    pub addr: u64,
    /// Value-type tag.
    pub vtype: u64,
    pub value: u64,
    pub is_write: bool,
}

/// The key of a stack read.
pub open spec fn spec_stack_read(eid: u32, emid: u32, addr: u64, vtype: u64, value: u64) -> MemoryAccess {
    MemoryAccess { eid, emid, addr, vtype, value, is_write: false }
}

/// The key of a stack write.
pub open spec fn spec_stack_write(eid: u32, emid: u32, addr: u64, vtype: u64, value: u64) -> MemoryAccess {
    MemoryAccess { eid, emid, addr, vtype, value, is_write: true }
}

pub fn encode_stack_read(eid: u32, emid: u32, addr: u64, vtype: u64, value: u64) -> (r: MemoryAccess)
    ensures
        r == spec_stack_read(eid, emid, addr, vtype, value),
{
    MemoryAccess { eid, emid, addr, vtype, value, is_write: false }
}

pub fn encode_stack_write(eid: u32, emid: u32, addr: u64, vtype: u64, value: u64) -> (r: MemoryAccess)
    ensures
        r == spec_stack_write(eid, emid, addr, vtype, value),
{
    MemoryAccess { eid, emid, addr, vtype, value, is_write: true }
}

/// The access slots a row may fill.
#[derive(Clone, Copy, Debug, PartialEq, Eq, Structural)]
pub enum MLookupItem {
    First,
    Second,
    Third,
    Fourth,
}

} // verus!
