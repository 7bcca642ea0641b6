//! Decoder for 32-bit ARM7TDMI (ARMv4T) instruction words.
//!
//! A raw word and its fetch address are turned into an immutable
//! instruction descriptor carrying the decoded condition and the
//! instruction format; every other property (register indices, opcode,
//! offsets, flags, register lists) is a pure function of the raw word and
//! the format, computed on demand by the descriptor's accessors.

pub mod bits;
pub mod cond;
pub mod error;
pub mod format;
pub mod instruction;
pub mod shift;

pub use cond::ArmCond;
pub use error::ArmError;
pub use format::ArmInstructionFormat;
pub use instruction::ArmInstruction;
pub use instruction::ArmOpCode;
pub use shift::ArmInstructionShiftValue;
pub use shift::ArmShift;
pub use shift::ArmShiftType;
