//! Shift/operand decoder: turns a 12-bit sub-field (the low twelve bits
//! of either the offset field or the operand2 field) into an immediate
//! shift or a register shift, and decodes rotated immediates.

use vstd::prelude::*;
use crate::bits::as_signed32;
use crate::bits::bit;
use crate::bits::bit_get;
use crate::bits::bit_range;
use crate::bits::bit_range_spec;
use crate::bits::lemma_bit_range_bound;
use crate::bits::lemma_mask_values;
use crate::bits::rotate_right;
use crate::bits::rotate_right32;
use crate::bits::to_signed32;
use crate::error::ArmError;

verus! {

/// The four barrel-shifter operations, in the numeric order of their
/// 2-bit codes.
#[derive(Debug, Copy, Clone, PartialEq, Eq, Structural)]
pub enum ArmShiftType {
    LSL,
    LSR,
    ASR,
    ROR,
}

/// A decoded shift: an immediate shift amount (0-31) or the index of
/// the register whose runtime content supplies the amount.
#[derive(Debug, PartialEq, Eq, Structural)]
pub enum ArmShift {
    ImmediateShift(u32, ArmShiftType),
    RegisterShift(usize, ArmShiftType),
}

/// A decoded operand or offset: a plain 12-bit immediate, an 8-bit
/// immediate with an even rotate amount, or a register with a shift.
#[derive(Debug, PartialEq, Eq, Structural)]
pub enum ArmInstructionShiftValue {
    ImmediateValue(u32),
    RotatedImmediate(u32, u32),
    ShiftedRegister(usize, ArmShift),
}

/// The 2-bit shift-type code of a shift type.
pub open spec fn shift_type_number(t: ArmShiftType) -> u32 {
    match t {
        ArmShiftType::LSL => 0,
        ArmShiftType::LSR => 1,
        ArmShiftType::ASR => 2,
        ArmShiftType::ROR => 3,
    }
}

/// The shift type a 2-bit code selects. Codes above 3 cannot arise from
/// a 2-bit field.
pub open spec fn spec_shift_type(code: u32) -> ArmShiftType
    recommends
        code < 4,
{
    if code == 0 {
        ArmShiftType::LSL
    } else if code == 1 {
        ArmShiftType::LSR
    } else if code == 2 {
        ArmShiftType::ASR
    } else {
        ArmShiftType::ROR
    }
}

/// The shift a 12-bit sub-field decodes to: bit 4 set selects a
/// register shift (register index in bits 8-12), bit 4 clear an
/// immediate shift (amount in bits 7-12); the type sits in bits 5-7
/// either way.
pub open spec fn spec_shift(v: u32) -> ArmShift {
    let typ = spec_shift_type(bit_range_spec(v, 5, 7));
    if bit_get(v, 4) {
        ArmShift::RegisterShift(bit_range_spec(v, 8, 12) as usize, typ)
    } else {
        ArmShift::ImmediateShift(bit_range_spec(v, 7, 12), typ)
    }
}

impl ArmShift {
    /// Decodes the shift part of a 12-bit sub-field. The result type is
    /// fallible for interface stability, but the 2-bit shift-type field
    /// cannot hold an out-of-range code, so decoding always succeeds:
    /// the invalid-shift-type path is provably unreachable.
    pub fn decode(v: u32) -> (r: Result<ArmShift, ArmError>)
        ensures
            r == Ok::<ArmShift, ArmError>(spec_shift(v)),
    {
        let code: u32 = bit_range(v, 5, 7);
        proof {
            lemma_bit_range_bound(v, 5, 7);
            lemma_mask_values();
        }
        let typ: ArmShiftType = if code == 0 {
            ArmShiftType::LSL
        } else if code == 1 {
            ArmShiftType::LSR
        } else if code == 2 {
            ArmShiftType::ASR
        } else if code == 3 {
            ArmShiftType::ROR
        } else {
            return Err(ArmError::InvalidShiftType(code));
        };
        if bit(v, 4) {
            let rs: u32 = bit_range(v, 8, 12);
            Ok(ArmShift::RegisterShift(rs as usize, typ))
        } else {
            let amount: u32 = bit_range(v, 7, 12);
            Ok(ArmShift::ImmediateShift(amount, typ))
        }
    }
}

impl ArmInstructionShiftValue {
    /// Decodes operand2 as an immediate value: for a rotated immediate,
    /// the 8-bit value rotated right by the rotate amount and
    /// reinterpreted as a signed 32-bit integer; for the other variants
    /// there is no immediate and the result is `None`.
    pub fn decode_rotated_immediate(&self) -> (r: Option<i32>)
        ensures
            self matches ArmInstructionShiftValue::RotatedImmediate(imm, rot) ==> r == Some(
                as_signed32(rotate_right32(*imm, *rot)),
            ),
            !(self is RotatedImmediate) ==> r is None,
    {
        if let ArmInstructionShiftValue::RotatedImmediate(immediate, rot) = self {
            let rotated: u32 = rotate_right(*immediate, *rot);
            Some(to_signed32(rotated))
        } else {
            None
        }
    }
}

} // verus!
