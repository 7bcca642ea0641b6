//! The instruction descriptor: one validating conversion from a raw
//! word and its fetch address, and format-aware accessors for every
//! field an execution stage needs.
//!
//! Several bit positions are reused with different meanings across
//! formats (bit 20 is "is load" for transfer formats but "set condition
//! flags" for Data Processing, and so on). The accessors come in
//! format-scoped pairs; callers branch on the descriptor's format
//! before choosing which meaning applies. An accessor applied to a
//! descriptor of a foreign format returns a numerically well-defined
//! but semantically meaningless value.

use vstd::prelude::*;
use crate::bits::bit;
use crate::bits::bit_get;
use crate::bits::bit_range;
use crate::bits::bit_range_spec;
use crate::bits::lemma_bit_range_bound;
use crate::bits::lemma_mask_values;
use crate::cond::ArmCond;
use crate::cond::lemma_condition_coverage;
use crate::cond::spec_condition;
use crate::error::ArmError;
use crate::format::ArmInstructionFormat;
use crate::format::lemma_classification_total;
use crate::format::matches_any_rule;
use crate::format::spec_classify;
use crate::shift::ArmInstructionShiftValue;
use crate::shift::ArmShift;
use crate::shift::spec_shift;

verus! {

/// The sixteen arithmetic/logical operations of the Data Processing
/// format, in the numeric order of their 4-bit codes. Meaningful only
/// when the format is Data Processing.
#[derive(Debug, Copy, Clone, PartialEq, Eq, Structural)]
pub enum ArmOpCode {
    AND,
    EOR,
    SUB,
    RSB,
    ADD,
    ADC,
    SBC,
    RSC,
    TST,
    TEQ,
    CMP,
    CMN,
    ORR,
    MOV,
    BIC,
    MVN,
}

/// The 4-bit code of an operation.
pub open spec fn opcode_number(op: ArmOpCode) -> u32 {
    match op {
        ArmOpCode::AND => 0,
        ArmOpCode::EOR => 1,
        ArmOpCode::SUB => 2,
        ArmOpCode::RSB => 3,
        ArmOpCode::ADD => 4,
        ArmOpCode::ADC => 5,
        ArmOpCode::SBC => 6,
        ArmOpCode::RSC => 7,
        ArmOpCode::TST => 8,
        ArmOpCode::TEQ => 9,
        ArmOpCode::CMP => 10,
        ArmOpCode::CMN => 11,
        ArmOpCode::ORR => 12,
        ArmOpCode::MOV => 13,
        ArmOpCode::BIC => 14,
        ArmOpCode::MVN => 15,
    }
}

/// The operation a 4-bit code selects; all sixteen codes are assigned,
/// so the lookup is total. Codes above 15 cannot arise from a 4-bit
/// field.
pub open spec fn spec_opcode(code: u32) -> ArmOpCode
    recommends
        code < 16,
{
    if code == 0 {
        ArmOpCode::AND
    } else if code == 1 {
        ArmOpCode::EOR
    } else if code == 2 {
        ArmOpCode::SUB
    } else if code == 3 {
        ArmOpCode::RSB
    } else if code == 4 {
        ArmOpCode::ADD
    } else if code == 5 {
        ArmOpCode::ADC
    } else if code == 6 {
        ArmOpCode::SBC
    } else if code == 7 {
        ArmOpCode::RSC
    } else if code == 8 {
        ArmOpCode::TST
    } else if code == 9 {
        ArmOpCode::TEQ
    } else if code == 10 {
        ArmOpCode::CMP
    } else if code == 11 {
        ArmOpCode::CMN
    } else if code == 12 {
        ArmOpCode::ORR
    } else if code == 13 {
        ArmOpCode::MOV
    } else if code == 14 {
        ArmOpCode::BIC
    } else {
        ArmOpCode::MVN
    }
}

/// Opcode coverage: the sixteen 4-bit codes select the sixteen
/// operations in numeric order, one each.
pub proof fn lemma_opcode_coverage()
    ensures
        forall|code: u32| code <= 15 ==> opcode_number(#[trigger] spec_opcode(code)) == code,
        forall|op: ArmOpCode| #[trigger] spec_opcode(opcode_number(op)) == op,
{
}

/// A fully classified instruction word: the decoded condition, the
/// instruction format, the raw word and the program-counter address of
/// its fetch. Immutable once constructed; every further property is a
/// pure function of the raw word and the format.
#[derive(Debug, Copy, Clone, PartialEq, Eq, Structural)]
pub struct ArmInstruction {
    pub cond: ArmCond,
    pub fmt: ArmInstructionFormat,
    pub raw: u32,
    pub pc: u32,
}

/// What decoding a word yields: the reserved-condition error if the
/// condition field holds code 15, otherwise the unknown-format error if
/// no classification rule accepts the word, otherwise the descriptor.
/// The first failure short-circuits; no partial descriptor exists.
pub open spec fn spec_decode(raw: u32, pc: u32) -> Result<ArmInstruction, ArmError> {
    match spec_condition(bit_range_spec(raw, 28, 32)) {
        Ok(cond) => match spec_classify(raw) {
            Ok(fmt) => Ok(ArmInstruction { cond, fmt, raw, pc }),
            Err(e) => Err(e),
        },
        Err(e) => Err(e),
    }
}

/// The base register field: bits 12-16 for Multiply, bits 8-12 for
/// Multiply Long, bits 0-4 for Branch-and-Exchange, bits 16-20
/// otherwise.
pub open spec fn spec_rn(raw: u32, fmt: ArmInstructionFormat) -> u32 {
    match fmt {
        ArmInstructionFormat::MUL_MLA => bit_range_spec(raw, 12, 16),
        ArmInstructionFormat::MULL_MLAL => bit_range_spec(raw, 8, 12),
        ArmInstructionFormat::BX => bit_range_spec(raw, 0, 4),
        _ => bit_range_spec(raw, 16, 20),
    }
}

/// The destination register field: bits 16-20 for Multiply, bits 12-16
/// otherwise.
pub open spec fn spec_rd(raw: u32, fmt: ArmInstructionFormat) -> u32 {
    match fmt {
        ArmInstructionFormat::MUL_MLA => bit_range_spec(raw, 16, 20),
        _ => bit_range_spec(raw, 12, 16),
    }
}

/// The operand/shift register field: always bits 0-4.
pub open spec fn spec_rm(raw: u32) -> u32 {
    bit_range_spec(raw, 0, 4)
}

/// The branch displacement: bits 0-24 sign-extended, times 4 (word
/// displacement to bytes), plus 8 (the two-instruction prefetch the
/// observed program counter is ahead by).
pub open spec fn spec_branch_offset(raw: u32) -> int {
    let ofs = bit_range_spec(raw, 0, 24) as int;
    (if ofs >= 0x80_0000 {
        ofs - 0x100_0000
    } else {
        ofs
    }) * 4 + 8
}

/// Bit 20 read as "is load" (transfer formats).
pub open spec fn spec_is_load(raw: u32) -> bool {
    bit_get(raw, 20)
}

/// Bit 20 read as "update condition flags" (Data Processing).
pub open spec fn spec_is_set_cond(raw: u32) -> bool {
    bit_get(raw, 20)
}

/// Bit 21: write-back.
pub open spec fn spec_is_write_back(raw: u32) -> bool {
    bit_get(raw, 21)
}

/// Bit 22 read as the transfer size: 1 byte when set, 4 bytes when
/// clear.
pub open spec fn spec_transfer_size(raw: u32) -> usize {
    if bit_get(raw, 22) {
        1usize
    } else {
        4usize
    }
}

/// Bit 22 read as "force user mode on a PSR load" (Block Data
/// Transfer).
pub open spec fn spec_is_loading_psr_and_forcing_user_mode(raw: u32) -> bool {
    bit_get(raw, 22)
}

/// Bit 22 read as "the target PSR is the SPSR" (PSR transfers).
pub open spec fn spec_is_spsr(raw: u32) -> bool {
    bit_get(raw, 22)
}

/// Bit 23: the offset is added when set, subtracted when clear.
pub open spec fn spec_is_ofs_added(raw: u32) -> bool {
    bit_get(raw, 23)
}

/// Bit 24 read as pre-indexing (transfer formats).
pub open spec fn spec_is_pre_indexing(raw: u32) -> bool {
    bit_get(raw, 24)
}

/// Bit 24 read as the link bit (branches).
pub open spec fn spec_is_linked_branch(raw: u32) -> bool {
    bit_get(raw, 24)
}

/// The offset field (bits 0-12): with bit 25 of the word set, a
/// shifted register (index in bits 0-4); clear, a plain 12-bit
/// immediate.
pub open spec fn spec_offset(raw: u32) -> ArmInstructionShiftValue {
    let ofs = bit_range_spec(raw, 0, 12);
    if bit_get(raw, 25) {
        ArmInstructionShiftValue::ShiftedRegister(bit_range_spec(ofs, 0, 4) as usize, spec_shift(ofs))
    } else {
        ArmInstructionShiftValue::ImmediateValue(ofs)
    }
}

/// The operand2 field (bits 0-12): with bit 25 of the word set, an
/// 8-bit immediate (bits 0-8) with rotate amount twice bits 8-12 (even,
/// 0-30); clear, a shifted register (index in bits 0-4).
pub open spec fn spec_operand2(raw: u32) -> ArmInstructionShiftValue {
    let op2 = bit_range_spec(raw, 0, 12);
    if bit_get(raw, 25) {
        ArmInstructionShiftValue::RotatedImmediate(
            bit_range_spec(op2, 0, 8),
            (2 * bit_range_spec(op2, 8, 12)) as u32,
        )
    } else {
        ArmInstructionShiftValue::ShiftedRegister(bit_range_spec(op2, 0, 4) as usize, spec_shift(op2))
    }
}

/// Determinism: any two results that decoding the same word at the
/// same address can return are equal, descriptor for descriptor or
/// error for error.
pub proof fn lemma_decode_deterministic(
    raw: u32,
    pc: u32,
    r1: Result<ArmInstruction, ArmError>,
    r2: Result<ArmInstruction, ArmError>,
)
    requires
        r1 == spec_decode(raw, pc),
        r2 == spec_decode(raw, pc),
    ensures
        r1 == r2,
{
}

/// When decoding succeeds and which error comes first: a descriptor is
/// owed exactly when the condition code is assigned and some
/// classification rule accepts the word; the reserved-condition error
/// always precedes the unknown-format error; and a descriptor carries
/// the raw word, the address, and the decoded condition and format
/// unchanged.
pub proof fn lemma_decode_totality(raw: u32, pc: u32)
    ensures
        spec_decode(raw, pc) is Ok <==> (bit_range_spec(raw, 28, 32) <= 14 && matches_any_rule(
            raw,
        )),
        spec_decode(raw, pc) matches Ok(ins) ==> (ins.raw == raw && ins.pc == pc && Ok::<
            ArmCond,
            ArmError,
        >(ins.cond) == spec_condition(bit_range_spec(raw, 28, 32)) && Ok::<
            ArmInstructionFormat,
            ArmError,
        >(ins.fmt) == spec_classify(raw)),
        bit_range_spec(raw, 28, 32) > 14 ==> spec_decode(raw, pc) == Err::<
            ArmInstruction,
            ArmError,
        >(ArmError::UndefinedConditionCode(bit_range_spec(raw, 28, 32))),
        bit_range_spec(raw, 28, 32) <= 14 && !matches_any_rule(raw) ==> spec_decode(raw, pc)
            == Err::<ArmInstruction, ArmError>(ArmError::UnknownInstructionFormat(raw)),
{
    lemma_condition_coverage();
    lemma_classification_total(raw);
}

/// Bit reuse across formats: the "is load" and "set condition flags"
/// accessors read the same bit 20 of any word, the "SPSR target" and
/// "force user mode" accessors the same bit 22, and the pre-indexing
/// and link-bit accessors the same bit 24. Which meaning applies is
/// decided by the descriptor's format, not by the bit.
pub proof fn lemma_dual_meaning(raw: u32)
    ensures
        spec_is_load(raw) == spec_is_set_cond(raw),
        spec_is_spsr(raw) == spec_is_loading_psr_and_forcing_user_mode(raw),
        spec_is_pre_indexing(raw) == spec_is_linked_branch(raw),
{
}

impl ArmInstruction {
    /// The single validating conversion: decodes the condition field,
    /// then classifies the format, and builds the descriptor; the
    /// first failure short-circuits.
    pub fn decode(raw: u32, pc: u32) -> (r: Result<ArmInstruction, ArmError>)
        ensures
            r == spec_decode(raw, pc),
    {
        let code: u32 = bit_range(raw, 28, 32);
        let cond: ArmCond = match ArmCond::decode(code) {
            Ok(c) => c,
            Err(e) => {
                return Err(e);
            },
        };
        let fmt: ArmInstructionFormat = match ArmInstructionFormat::classify(raw) {
            Ok(f) => f,
            Err(e) => {
                return Err(e);
            },
        };
        Ok(ArmInstruction { cond, fmt, raw, pc })
    }

    /// The base register index of this instruction's format.
    pub fn rn(&self) -> (r: usize)
        ensures
            r == spec_rn(self.raw, self.fmt) as usize,
            r < 16,
    {
        proof {
            lemma_bit_range_bound(self.raw, 12, 16);
            lemma_bit_range_bound(self.raw, 8, 12);
            lemma_bit_range_bound(self.raw, 0, 4);
            lemma_bit_range_bound(self.raw, 16, 20);
            lemma_mask_values();
        }
        match self.fmt {
            ArmInstructionFormat::MUL_MLA => bit_range(self.raw, 12, 16) as usize,
            ArmInstructionFormat::MULL_MLAL => bit_range(self.raw, 8, 12) as usize,
            ArmInstructionFormat::BX => bit_range(self.raw, 0, 4) as usize,
            _ => bit_range(self.raw, 16, 20) as usize,
        }
    }

    /// The destination register index of this instruction's format.
    pub fn rd(&self) -> (r: usize)
        ensures
            r == spec_rd(self.raw, self.fmt) as usize,
            r < 16,
    {
        proof {
            lemma_bit_range_bound(self.raw, 16, 20);
            lemma_bit_range_bound(self.raw, 12, 16);
            lemma_mask_values();
        }
        match self.fmt {
            ArmInstructionFormat::MUL_MLA => bit_range(self.raw, 16, 20) as usize,
            _ => bit_range(self.raw, 12, 16) as usize,
        }
    }

    /// The operand/shift register index, bits 0-4 in every format.
    pub fn rm(&self) -> (r: usize)
        ensures
            r == spec_rm(self.raw) as usize,
            r < 16,
    {
        proof {
            lemma_bit_range_bound(self.raw, 0, 4);
            lemma_mask_values();
        }
        bit_range(self.raw, 0, 4) as usize
    }

    /// The Data Processing operation in bits 21-25. All sixteen codes
    /// are assigned, so the lookup never fails; the result is
    /// meaningful only when the format is Data Processing.
    pub fn opcode(&self) -> (r: Option<ArmOpCode>)
        ensures
            r == Some(spec_opcode(bit_range_spec(self.raw, 21, 25))),
    {
        let code: u32 = bit_range(self.raw, 21, 25);
        let op: ArmOpCode = if code == 0 {
            ArmOpCode::AND
        } else if code == 1 {
            ArmOpCode::EOR
        } else if code == 2 {
            ArmOpCode::SUB
        } else if code == 3 {
            ArmOpCode::RSB
        } else if code == 4 {
            ArmOpCode::ADD
        } else if code == 5 {
            ArmOpCode::ADC
        } else if code == 6 {
            ArmOpCode::SBC
        } else if code == 7 {
            ArmOpCode::RSC
        } else if code == 8 {
            ArmOpCode::TST
        } else if code == 9 {
            ArmOpCode::TEQ
        } else if code == 10 {
            ArmOpCode::CMP
        } else if code == 11 {
            ArmOpCode::CMN
        } else if code == 12 {
            ArmOpCode::ORR
        } else if code == 13 {
            ArmOpCode::MOV
        } else if code == 14 {
            ArmOpCode::BIC
        } else {
            ArmOpCode::MVN
        };
        Some(op)
    }

    /// The branch displacement in bytes, relative to the observed
    /// program counter: sign-extended bits 0-24, times 4, plus 8.
    pub fn branch_offset(&self) -> (r: i32)
        ensures
            r as int == spec_branch_offset(self.raw),
            8 - 0x200_0000 <= r as int <= 8 + 0x1ff_fffc,
    {
        let ofs: u32 = bit_range(self.raw, 0, 24);
        proof {
            lemma_bit_range_bound(self.raw, 0, 24);
            lemma_mask_values();
        }
        let signed: i32 = if ofs >= 0x80_0000 {
            (ofs as i32) - 0x100_0000
        } else {
            ofs as i32
        };
        signed * 4 + 8
    }

    /// Bit 20 as "is load" (transfer formats).
    pub fn is_load(&self) -> (r: bool)
        ensures
            r == spec_is_load(self.raw),
    {
        bit(self.raw, 20)
    }

    /// Bit 20 as "update condition flags" (Data Processing).
    pub fn is_set_cond(&self) -> (r: bool)
        ensures
            r == spec_is_set_cond(self.raw),
    {
        bit(self.raw, 20)
    }

    /// Bit 21: write-back.
    pub fn is_write_back(&self) -> (r: bool)
        ensures
            r == spec_is_write_back(self.raw),
    {
        bit(self.raw, 21)
    }

    /// Bit 22 as the transfer size: 1 byte when set, 4 bytes when
    /// clear.
    pub fn transfer_size(&self) -> (r: usize)
        ensures
            r == spec_transfer_size(self.raw),
    {
        if bit(self.raw, 22) {
            1
        } else {
            4
        }
    }

    /// Bit 22 as "force user mode on a PSR load" (Block Data
    /// Transfer).
    pub fn is_loading_psr_and_forcing_user_mode(&self) -> (r: bool)
        ensures
            r == spec_is_loading_psr_and_forcing_user_mode(self.raw),
    {
        bit(self.raw, 22)
    }

    /// Bit 22 as "the target PSR is the SPSR" (PSR transfers).
    pub fn is_spsr(&self) -> (r: bool)
        ensures
            r == spec_is_spsr(self.raw),
    {
        bit(self.raw, 22)
    }

    /// Bit 23: the offset is added when set, subtracted when clear.
    pub fn is_ofs_added(&self) -> (r: bool)
        ensures
            r == spec_is_ofs_added(self.raw),
    {
        bit(self.raw, 23)
    }

    /// Bit 24 as pre-indexing (transfer formats).
    pub fn is_pre_indexing(&self) -> (r: bool)
        ensures
            r == spec_is_pre_indexing(self.raw),
    {
        bit(self.raw, 24)
    }

    /// Bit 24 as the link bit (branches).
    pub fn is_linked_branch(&self) -> (r: bool)
        ensures
            r == spec_is_linked_branch(self.raw),
    {
        bit(self.raw, 24)
    }

    /// The offset field of a transfer instruction: a shifted register
    /// when bit 25 is set, a plain 12-bit immediate when it is clear.
    pub fn offset(&self) -> (r: ArmInstructionShiftValue)
        ensures
            r == spec_offset(self.raw),
    {
        let ofs: u32 = bit_range(self.raw, 0, 12);
        if bit(self.raw, 25) {
            let rm: u32 = bit_range(ofs, 0, 4);
            let shift: ArmShift = ArmShift::decode(ofs).unwrap();
            ArmInstructionShiftValue::ShiftedRegister(rm as usize, shift)
        } else {
            ArmInstructionShiftValue::ImmediateValue(ofs)
        }
    }

    /// The operand2 field of a Data Processing instruction: a rotated
    /// immediate when bit 25 is set, a shifted register when it is
    /// clear.
    pub fn operand2(&self) -> (r: ArmInstructionShiftValue)
        ensures
            r == spec_operand2(self.raw),
    {
        let op2: u32 = bit_range(self.raw, 0, 12);
        if bit(self.raw, 25) {
            let immediate: u32 = bit_range(op2, 0, 8);
            proof {
                lemma_bit_range_bound(op2, 8, 12);
                lemma_mask_values();
            }
            let rotate: u32 = 2 * bit_range(op2, 8, 12);
            ArmInstructionShiftValue::RotatedImmediate(immediate, rotate)
        } else {
            let reg: u32 = bit_range(op2, 0, 4);
            let shift: ArmShift = ArmShift::decode(op2).unwrap();
            ArmInstructionShiftValue::ShiftedRegister(reg as usize, shift)
        }
    }

    /// The register list of a Block Data Transfer: the strictly
    /// ascending list of the indices (0-15) whose bits are set in the
    /// low sixteen bits of the word.
    pub fn register_list(&self) -> (r: Vec<usize>)
        ensures
            forall|k: int|
                0 <= k < r@.len() ==> ((#[trigger] r@[k]) < 16 && bit_get(
                    self.raw,
                    r@[k] as u32,
                )),
            forall|k1: int, k2: int| 0 <= k1 < k2 < r@.len() ==> r@[k1] < r@[k2],
            forall|i: u32| i < 16 && #[trigger] bit_get(self.raw, i) ==> r@.contains(i as usize),
            r@.len() <= 16,
    {
        let mut list: Vec<usize> = Vec::new();
        let mut i: u32 = 0;
        while i < 16
            invariant
                i <= 16,
                list@.len() <= i,
                forall|k: int|
                    0 <= k < list@.len() ==> ((#[trigger] list@[k]) < i as usize && bit_get(
                        self.raw,
                        list@[k] as u32,
                    )),
                forall|k1: int, k2: int| 0 <= k1 < k2 < list@.len() ==> list@[k1] < list@[k2],
                forall|j: u32|
                    j < i && #[trigger] bit_get(self.raw, j) ==> list@.contains(j as usize),
            decreases 16 - i,
        {
            if bit(self.raw, i) {
                let ghost previous = list@;
                list.push(i as usize);
                proof {
                    assert forall|j: u32|
                        j < i + 1 && #[trigger] bit_get(self.raw, j) implies list@.contains(
                        j as usize,
                    ) by {
                        if j < i {
                            let k = choose|k: int|
                                0 <= k < previous.len() && previous[k] == j as usize;
                            assert(list@[k] == j as usize);
                        } else {
                            assert(list@[list@.len() - 1] == i as usize);
                        }
                    }
                }
            }
            i = i + 1;
        }
        list
    }
}

} // verus!
