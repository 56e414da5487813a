//! What one trace entry carries: step state, opcode classes, sub-operations,
//! value types and the memory records the tracer resolved for the step.
use vstd::prelude::*;

verus! {

/// Weight of the opcode class within an encoded opcode (bit 48 on).
pub const OPCODE_CLASS_UNIT: u64 = 0x1_0000_0000_0000;

/// Weight of the first opcode argument, the sub-operation (bit 32 on).
pub const OPCODE_ARG0_UNIT: u64 = 0x1_0000_0000;

/// Weight of the second opcode argument, the value type (bit 16 on).
pub const OPCODE_ARG1_UNIT: u64 = 0x1_0000;

/// The fixed family of opcode classes this compiler knows.
#[derive(Clone, Copy, Debug, PartialEq, Eq, Structural)]
pub enum OpcodeClass {
    Select,
    Rel,
}

impl OpcodeClass {
    pub open spec fn spec_tag(self) -> u64 {
        match self {
            OpcodeClass::Select => 17,
            OpcodeClass::Rel => 19,
        }
    }

    /// The class tag placed in the encoded opcode.
    pub fn tag(&self) -> (r: u64)
        ensures
            r == self.spec_tag(),
    {
        match self {
            OpcodeClass::Select => 17,
            OpcodeClass::Rel => 19,
        }
    }
}

/// Relational sub-operations.
#[derive(Clone, Copy, Debug, PartialEq, Eq, Structural)]
pub enum RelOp {
    Eq,
    Ne,
    SignedGt,
    UnsignedGt,
    SignedGe,
    UnsignedGe,
    UnsignedLt,
    UnsignedLe,
}

impl RelOp {
    pub open spec fn spec_code(self) -> u64 {
        match self {
            RelOp::Eq => 0,
            RelOp::Ne => 1,
            RelOp::SignedGt => 2,
            RelOp::UnsignedGt => 3,
            RelOp::SignedGe => 4,
            RelOp::UnsignedGe => 5,
            RelOp::UnsignedLt => 6,
            RelOp::UnsignedLe => 7,
        }
    }

    /// The sub-operation code placed in the encoded opcode.
    pub fn code(&self) -> (r: u64)
        ensures
            r == self.spec_code(),
    {
        match self {
            RelOp::Eq => 0,
            RelOp::Ne => 1,
            RelOp::SignedGt => 2,
            RelOp::UnsignedGt => 3,
            RelOp::SignedGe => 4,
            RelOp::UnsignedGe => 5,
            RelOp::UnsignedLt => 6,
            RelOp::UnsignedLe => 7,
        }
    }

    /// The sub-operations whose assignment is implemented.
    pub open spec fn spec_is_supported(self) -> bool {
        self == RelOp::UnsignedLt || self == RelOp::UnsignedLe
    }
}

/// Value types of stack and memory cells.
#[derive(Clone, Copy, Debug, PartialEq, Eq, Structural)]
pub enum VarType {
    U8,
    I8,
    U16,
    I16,
    U32,
    I32,
    U64,
    I64,
}

impl VarType {
    pub open spec fn spec_tag(self) -> u64 {
        match self {
            VarType::U8 => 1,
            VarType::I8 => 2,
            VarType::U16 => 3,
            VarType::I16 => 4,
            VarType::U32 => 5,
            VarType::I32 => 6,
            VarType::U64 => 7,
            VarType::I64 => 8,
        }
    }

    /// The tag written into memory-access keys.
    pub fn tag(&self) -> (r: u64)
        ensures
            r == self.spec_tag(),
    {
        match self {
            VarType::U8 => 1,
            VarType::I8 => 2,
            VarType::U16 => 3,
            VarType::I16 => 4,
            VarType::U32 => 5,
            VarType::I32 => 6,
            VarType::U64 => 7,
            VarType::I64 => 8,
        }
    }
}

/// Machine state at the start of a step.
#[derive(Clone, Copy, Debug, PartialEq, Eq, Structural)]
pub struct StepState {
    /// Step id.
    pub eid: u32,
    /// Stack pointer before the step.
    pub sp: u32,
}

/// The opcode-specific payload of a trace entry.
#[derive(Clone, Copy, Debug, PartialEq, Eq, Structural)]
pub enum StepInfo {
    I32Comp { class: RelOp, left: i32, right: i32, value: bool },
    Select { val1: u64, val2: u64, cond: u64, result: u64, vtype: VarType },
}

/// The validity interval `[start_eid, end_eid)` of the memory record that
/// one access of a step is matched against.
#[derive(Clone, Copy, Debug, PartialEq, Eq, Structural)]
pub struct MemoryRwRecord {
    pub start_eid: u32,
    pub end_eid: u32,
}

/// Why a trace entry could not be assigned.
#[derive(Clone, Copy, Debug, PartialEq, Eq, Structural)]
pub enum AssignError {
    /// The payload belongs to another opcode class.
    MismatchedEntry,
    /// A declared sub-operation that has no assignment.
    UnsupportedOperation(RelOp),
    /// Fewer memory records than the step performs accesses.
    MissingMemoryRecord,
    /// A read whose record is not valid at the step.
    InvalidMemoryInterval,
}

} // verus!
