//! The event table's opcode configurations as one closed family, dispatched
//! by opcode class.
use vstd::prelude::*;
use crate::cell::{CellKind, EventTableCellAllocator, Row};
use crate::constraint::{ConstraintBuilder, Gate};
use crate::cell::Cell;
use crate::op_rel::{rel_kinds, RelConfig, RelConfigBuilder, REL_CELLS};
use crate::op_select::{read_valid_at, select_kinds, SelectConfig, SelectConfigBuilder, SELECT_CELLS};
use crate::step::{AssignError, MemoryRwRecord, OpcodeClass, StepInfo, StepState};

verus! {

/// A compiled configuration of one opcode class.
#[derive(Clone, Copy, Debug, PartialEq, Eq, Structural)]
pub enum EventTableOpcodeConfig {
    Rel(RelConfig),
    Select(SelectConfig),
}

/// Number of cells the configuration of `class` owns.
pub open spec fn spec_cell_count(class: OpcodeClass) -> usize {
    match class {
        OpcodeClass::Rel => REL_CELLS,
        OpcodeClass::Select => SELECT_CELLS,
    }
}

/// The configuration of `class` whose cells start at `base`.
pub open spec fn spec_config_at(class: OpcodeClass, base: usize) -> EventTableOpcodeConfig {
    match class {
        OpcodeClass::Rel => EventTableOpcodeConfig::Rel(RelConfig::at(base)),
        OpcodeClass::Select => EventTableOpcodeConfig::Select(SelectConfig::at(base)),
    }
}

/// Kinds of the cells the configuration of `class` allocates.
pub open spec fn spec_class_kinds(class: OpcodeClass) -> Seq<CellKind> {
    match class {
        OpcodeClass::Rel => rel_kinds(),
        OpcodeClass::Select => select_kinds(),
    }
}

impl EventTableOpcodeConfig {
    pub open spec fn wf(self) -> bool {
        match self {
            EventTableOpcodeConfig::Rel(c) => c.wf(),
            EventTableOpcodeConfig::Select(c) => c.wf(),
        }
    }

    pub open spec fn spec_base(self) -> usize {
        match self {
            EventTableOpcodeConfig::Rel(c) => c.base,
            EventTableOpcodeConfig::Select(c) => c.base,
        }
    }

    pub open spec fn spec_class(self) -> OpcodeClass {
        match self {
            EventTableOpcodeConfig::Rel(_) => OpcodeClass::Rel,
            EventTableOpcodeConfig::Select(_) => OpcodeClass::Select,
        }
    }

    pub open spec fn constraints(self) -> Seq<(Gate, Seq<Cell>)> {
        match self {
            EventTableOpcodeConfig::Rel(c) => c.constraints(),
            EventTableOpcodeConfig::Select(c) => c.constraints(),
        }
    }

    /// Builds the configuration of `class`: allocates its cells and
    /// registers its constraints.
    pub fn configure(
        class: OpcodeClass,
        allocator: &mut EventTableCellAllocator,
        constraint_builder: &mut ConstraintBuilder,
    ) -> (r: EventTableOpcodeConfig)
        requires
            old(allocator).kinds@.len() + spec_cell_count(class) <= usize::MAX,
        ensures
            r == spec_config_at(class, old(allocator).kinds@.len() as usize),
            r.wf(),
            final(allocator).kinds@ == old(allocator).kinds@ + spec_class_kinds(class),
            final(constraint_builder).view() == old(constraint_builder).view() + r.constraints(),
    {
        match class {
            OpcodeClass::Rel => EventTableOpcodeConfig::Rel(
                RelConfigBuilder::configure(allocator, constraint_builder),
            ),
            OpcodeClass::Select => EventTableOpcodeConfig::Select(
                SelectConfigBuilder::configure(allocator, constraint_builder),
            ),
        }
    }

    pub fn opcode_class(&self) -> (r: OpcodeClass)
        ensures
            r == self.spec_class(),
    {
        match self {
            EventTableOpcodeConfig::Rel(c) => c.opcode_class(),
            EventTableOpcodeConfig::Select(c) => c.opcode_class(),
        }
    }

    /// Memory operations per row.
    pub fn mops(&self) -> (r: u64)
        ensures
            r == (match self.spec_class() {
                OpcodeClass::Rel => 3u64,
                OpcodeClass::Select => 4u64,
            }),
    {
        match self {
            EventTableOpcodeConfig::Rel(c) => c.mops(),
            EventTableOpcodeConfig::Select(c) => c.mops(),
        }
    }

    /// Stack-pointer change per row.
    pub fn sp_diff(&self) -> (r: u64)
        ensures
            r == (match self.spec_class() {
                OpcodeClass::Rel => 1u64,
                OpcodeClass::Select => 2u64,
            }),
    {
        match self {
            EventTableOpcodeConfig::Rel(c) => c.sp_diff(),
            EventTableOpcodeConfig::Select(c) => c.sp_diff(),
        }
    }

    /// Assigns one trace entry with the configuration of its class.
    pub fn assign(
        &self,
        row: &mut Row,
        step: &StepState,
        entry: &StepInfo,
        memory_rw_entries: &Vec<MemoryRwRecord>,
    ) -> (r: Result<(), AssignError>)
        requires
            self.wf(),
            old(row).wf(),
            self.spec_base() + spec_cell_count(self.spec_class()) <= old(row).spec_len(),
        ensures
            r is Err ==> *final(row) == *old(row),
            match *self {
                EventTableOpcodeConfig::Rel(c) => match *entry {
                    StepInfo::I32Comp { class, left, right, value } => if class.spec_is_supported() {
                        &&& r is Ok
                        &&& c.only_own_cells_changed(old(row), final(row))
                        &&& c.assigned(final(row), *step, class, left, right, value)
                    } else {
                        r == Err::<(), AssignError>(AssignError::UnsupportedOperation(class))
                    },
                    _ => r == Err::<(), AssignError>(AssignError::MismatchedEntry),
                },
                EventTableOpcodeConfig::Select(c) => match *entry {
                    StepInfo::Select { val1, val2, cond, result, vtype } => {
                        if memory_rw_entries@.len() < 4 {
                            r == Err::<(), AssignError>(AssignError::MissingMemoryRecord)
                        } else if !(read_valid_at(memory_rw_entries@[0], step.eid) && read_valid_at(
                            memory_rw_entries@[1],
                            step.eid,
                        ) && read_valid_at(memory_rw_entries@[2], step.eid)) {
                            r == Err::<(), AssignError>(AssignError::InvalidMemoryInterval)
                        } else {
                            &&& r is Ok
                            &&& c.only_own_cells_changed(old(row), final(row))
                            &&& c.assigned(final(row), *step, val1, val2, cond, result, vtype)
                        }
                    },
                    _ => r == Err::<(), AssignError>(AssignError::MismatchedEntry),
                },
            },
    {
        match self {
            EventTableOpcodeConfig::Rel(c) => c.assign(row, step, entry),
            EventTableOpcodeConfig::Select(c) => c.assign(row, step, entry, memory_rw_entries),
        }
    }
}

/// Configuration is deterministic: configuring a class twice from the same
/// allocator state yields identical cells and identical constraints, and
/// allocates cells of the same kinds.
pub proof fn lemma_configure_deterministic(
    class: OpcodeClass,
    kinds1: Seq<CellKind>,
    kinds2: Seq<CellKind>,
)
    requires
        kinds1 == kinds2,
        kinds1.len() + spec_cell_count(class) <= usize::MAX,
    ensures
        spec_config_at(class, kinds1.len() as usize) == spec_config_at(class, kinds2.len() as usize),
        spec_config_at(class, kinds1.len() as usize).constraints() == spec_config_at(
            class,
            kinds2.len() as usize,
        ).constraints(),
        kinds1 + spec_class_kinds(class) == kinds2 + spec_class_kinds(class),
{
}

} // verus!
