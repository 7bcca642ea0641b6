//! Format classifier: matches the full raw word against an ordered list
//! of (mask, pattern) rules to pick one of the thirteen instruction
//! formats, or fails with an unknown-format error.
//!
//! The order of the rules is part of the contract, not an accident:
//! several narrow patterns lie inside the bit space a broader, later
//! rule would otherwise claim (the Branch-and-Exchange pattern, for
//! instance, sits inside the Data-Processing fallback). The first rule
//! whose `(raw & mask) == pattern` holds wins.

use vstd::prelude::*;
use crate::error::ArmError;

verus! {

/// The thirteen instruction formats of the 32-bit ARM encoding.
#[derive(Debug, Copy, Clone, PartialEq, Eq, Structural)]
#[allow(non_camel_case_types)]
pub enum ArmInstructionFormat {
    /// Branch and Exchange
    BX,
    /// Branch / Branch with Link
    B_BL,
    /// Multiply and Multiply-Accumulate
    MUL_MLA,
    /// Multiply Long and Multiply-Accumulate Long
    MULL_MLAL,
    /// Single Data Transfer
    LDR_STR,
    /// Halfword and Signed Data Transfer, register offset
    LDR_STR_HS_REG,
    /// Halfword and Signed Data Transfer, immediate offset
    LDR_STR_HS_IMM,
    /// Data Processing
    DP,
    /// Block Data Transfer
    LDM_STM,
    /// Single Data Swap
    SWP,
    /// Transfer PSR contents to a register
    MRS,
    /// Transfer register contents to PSR
    MSR_REG,
    /// Transfer immediate/register to PSR flags only
    MSR_FLAGS,
}

/// The ordered rule list: the format of a word is decided by the first
/// of these thirteen (mask, pattern) tests that holds, and a word that
/// passes none of them has no format.
pub open spec fn spec_classify(raw: u32) -> Result<ArmInstructionFormat, ArmError> {
    if raw & 0x0fff_fff0 == 0x012f_ff10 {
        Ok(ArmInstructionFormat::BX)
    } else if raw & 0x0e00_0000 == 0x0a00_0000 {
        Ok(ArmInstructionFormat::B_BL)
    } else if raw & 0x0fc0_00f0 == 0x0000_0090 {
        Ok(ArmInstructionFormat::MUL_MLA)
    } else if raw & 0x0f80_00f0 == 0x0080_0090 {
        Ok(ArmInstructionFormat::MULL_MLAL)
    } else if raw & 0x0c00_0000 == 0x0400_0000 {
        Ok(ArmInstructionFormat::LDR_STR)
    } else if raw & 0x0e40_0f90 == 0x0000_0090 {
        Ok(ArmInstructionFormat::LDR_STR_HS_REG)
    } else if raw & 0x0e40_0090 == 0x0040_0090 {
        Ok(ArmInstructionFormat::LDR_STR_HS_IMM)
    } else if raw & 0x0e00_0000 == 0x0800_0000 {
        Ok(ArmInstructionFormat::LDM_STM)
    } else if raw & 0x0fb0_0ff0 == 0x0100_0090 {
        Ok(ArmInstructionFormat::SWP)
    } else if raw & 0x0fbf_0fff == 0x010f_0000 {
        Ok(ArmInstructionFormat::MRS)
    } else if raw & 0x0fbf_fff0 == 0x0129_f000 {
        Ok(ArmInstructionFormat::MSR_REG)
    } else if raw & 0x0dbf_f000 == 0x0128_f000 {
        Ok(ArmInstructionFormat::MSR_FLAGS)
    } else if raw & 0x0c00_0000 == 0x0000_0000 {
        Ok(ArmInstructionFormat::DP)
    } else {
        Err(ArmError::UnknownInstructionFormat(raw))
    }
}

/// Whether any of the thirteen classification rules accepts the word.
pub open spec fn matches_any_rule(raw: u32) -> bool {
    ||| raw & 0x0fff_fff0 == 0x012f_ff10
    ||| raw & 0x0e00_0000 == 0x0a00_0000
    ||| raw & 0x0fc0_00f0 == 0x0000_0090
    ||| raw & 0x0f80_00f0 == 0x0080_0090
    ||| raw & 0x0c00_0000 == 0x0400_0000
    ||| raw & 0x0e40_0f90 == 0x0000_0090
    ||| raw & 0x0e40_0090 == 0x0040_0090
    ||| raw & 0x0e00_0000 == 0x0800_0000
    ||| raw & 0x0fb0_0ff0 == 0x0100_0090
    ||| raw & 0x0fbf_0fff == 0x010f_0000
    ||| raw & 0x0fbf_fff0 == 0x0129_f000
    ||| raw & 0x0dbf_f000 == 0x0128_f000
    ||| raw & 0x0c00_0000 == 0x0000_0000
}

/// Classification is total but partial: every word either satisfies
/// some rule and gets exactly one format, or satisfies none and gets
/// the unknown-format error carrying the word itself — never both,
/// never neither.
pub proof fn lemma_classification_total(raw: u32)
    ensures
        matches_any_rule(raw) <==> spec_classify(raw) is Ok,
        !matches_any_rule(raw) ==> spec_classify(raw) == Err::<ArmInstructionFormat, ArmError>(
            ArmError::UnknownInstructionFormat(raw),
        ),
{
}

/// A consequence of the rule order: the Single Data Swap rule is
/// shadowed. Any word its mask/pattern accepts carries bits 4-7 =
/// 0b1001 with bits 20, 21, 23, 25-27 clear, and such a word is
/// already claimed by the register-offset halfword rule when bit 22 is
/// clear and by the immediate-offset halfword rule when bit 22 is set.
/// Reordering the rules would change this, which is why the order is a
/// contract and not an accident.
pub proof fn lemma_swp_rule_shadowed(raw: u32)
    ensures
        spec_classify(raw) != Ok::<ArmInstructionFormat, ArmError>(ArmInstructionFormat::SWP),
{
    assert(!(raw & 0x0fb0_0ff0 == 0x0100_0090 && raw & 0x0e40_0f90 != 0x0000_0090 && raw
        & 0x0e40_0090 != 0x0040_0090)) by (bit_vector);
}

impl ArmInstructionFormat {
    /// Classifies a raw word by the ordered rule list.
    pub fn classify(raw: u32) -> (r: Result<ArmInstructionFormat, ArmError>)
        ensures
            r == spec_classify(raw),
    {
        if raw & 0x0fff_fff0 == 0x012f_ff10 {
            Ok(ArmInstructionFormat::BX)
        } else if raw & 0x0e00_0000 == 0x0a00_0000 {
            Ok(ArmInstructionFormat::B_BL)
        } else if raw & 0x0fc0_00f0 == 0x0000_0090 {
            Ok(ArmInstructionFormat::MUL_MLA)
        } else if raw & 0x0f80_00f0 == 0x0080_0090 {
            Ok(ArmInstructionFormat::MULL_MLAL)
        } else if raw & 0x0c00_0000 == 0x0400_0000 {
            Ok(ArmInstructionFormat::LDR_STR)
        } else if raw & 0x0e40_0f90 == 0x0000_0090 {
            Ok(ArmInstructionFormat::LDR_STR_HS_REG)
        } else if raw & 0x0e40_0090 == 0x0040_0090 {
            Ok(ArmInstructionFormat::LDR_STR_HS_IMM)
        } else if raw & 0x0e00_0000 == 0x0800_0000 {
            Ok(ArmInstructionFormat::LDM_STM)
        } else if raw & 0x0fb0_0ff0 == 0x0100_0090 {
            Ok(ArmInstructionFormat::SWP)
        } else if raw & 0x0fbf_0fff == 0x010f_0000 {
            Ok(ArmInstructionFormat::MRS)
        } else if raw & 0x0fbf_fff0 == 0x0129_f000 {
            Ok(ArmInstructionFormat::MSR_REG)
        } else if raw & 0x0dbf_f000 == 0x0128_f000 {
            Ok(ArmInstructionFormat::MSR_FLAGS)
        } else if raw & 0x0c00_0000 == 0x0000_0000 {
            Ok(ArmInstructionFormat::DP)
        } else {
            Err(ArmError::UnknownInstructionFormat(raw))
        }
    }
}

} // verus!
