//! Event-table compiler core: cell allocation, constraints as data,
//! the relational-compare and select opcode configurations, memory-access
//! lookup keys, the instruction-table encoding and the witness buffer.
pub mod cell;
pub mod constraint;
pub mod etable;
pub mod field;
pub mod itable;
pub mod mtable;
pub mod op_rel;
pub mod op_select;
pub mod step;
pub mod witness;
