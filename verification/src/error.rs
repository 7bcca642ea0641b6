//! Decoding errors, each carrying the offending numeric field.

use vstd::prelude::*;

verus! {

/// The three ways decoding a word can fail: the word matches none of the
/// instruction-format rules, the condition field holds the reserved code,
/// or a shift-type field is out of range (kept for interface stability;
/// the decoder proves this last one unreachable for 2-bit source fields).
#[derive(Debug, PartialEq, Eq, Structural)]
pub enum ArmError {
    UnknownInstructionFormat(u32),
    UndefinedConditionCode(u32),
    InvalidShiftType(u32),
}

} // verus!
