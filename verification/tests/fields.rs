use arm7tdmi::ArmInstruction;
use arm7tdmi::ArmInstructionFormat;
use arm7tdmi::ArmInstructionShiftValue;
use arm7tdmi::ArmOpCode;
use arm7tdmi::ArmShift;
use arm7tdmi::ArmShiftType;

fn decoded(raw: u32) -> ArmInstruction {
    ArmInstruction::decode(raw, 0).unwrap()
}

#[test]
fn mov_immediate_word_decodes_fully() {
    // Top nibble Always, bits 27-26 clear select Data Processing,
    // opcode MOV, destination register 0, bit 25 set selects a rotated
    // immediate with value 1 and rotate 0.
    let ins = decoded(0xE3A0_0001);
    assert_eq!(ins.fmt, ArmInstructionFormat::DP);
    assert_eq!(ins.opcode(), Some(ArmOpCode::MOV));
    assert_eq!(ins.rd(), 0);
    let op2 = ins.operand2();
    assert_eq!(op2, ArmInstructionShiftValue::RotatedImmediate(1, 0));
    assert_eq!(op2.decode_rotated_immediate(), Some(1));
}

#[test]
fn base_register_by_format() {
    // Multiply: base in bits 12-16.
    assert_eq!(decoded(0xE021_4392).rn(), 4);
    // Multiply long: base in bits 8-12.
    assert_eq!(decoded(0xE083_2190).rn(), 1);
    // Branch-and-Exchange: base in bits 0-4.
    assert_eq!(decoded(0xE12F_FF13).rn(), 3);
    // Everything else: bits 16-20.
    assert_eq!(decoded(0xE590_0123).rn(), 0);
    assert_eq!(decoded(0xE59A_0123).rn(), 10);
}

#[test]
fn destination_register_by_format() {
    // Multiply: destination in bits 16-20.
    assert_eq!(decoded(0xE021_4392).rd(), 1);
    // Everything else: bits 12-16.
    assert_eq!(decoded(0xE021_4392).rn(), 4);
    assert_eq!(decoded(0xE3A0_C001).rd(), 12);
}

#[test]
fn operand_register_is_low_nibble() {
    assert_eq!(decoded(0xE021_4392).rm(), 2);
    assert_eq!(decoded(0xE3A0_000F).rm(), 15);
}

#[test]
fn opcodes_cover_all_sixteen_in_order() {
    let expected = [
        ArmOpCode::AND,
        ArmOpCode::EOR,
        ArmOpCode::SUB,
        ArmOpCode::RSB,
        ArmOpCode::ADD,
        ArmOpCode::ADC,
        ArmOpCode::SBC,
        ArmOpCode::RSC,
        ArmOpCode::TST,
        ArmOpCode::TEQ,
        ArmOpCode::CMP,
        ArmOpCode::CMN,
        ArmOpCode::ORR,
        ArmOpCode::MOV,
        ArmOpCode::BIC,
        ArmOpCode::MVN,
    ];
    for code in 0u32..16 {
        let raw = 0xE000_0000 | (code << 21);
        let ins = ArmInstruction::decode(raw, 0).unwrap();
        assert_eq!(ins.opcode(), Some(expected[code as usize]));
    }
}

#[test]
fn branch_offset_scales_and_compensates_prefetch() {
    // Low 24 bits 1: displacement 1*4 + 8.
    assert_eq!(decoded(0xEA00_0001).branch_offset(), 12);
    // Low 24 bits all ones (-1): displacement -4 + 8.
    assert_eq!(decoded(0xEAFF_FFFF).branch_offset(), 4);
    // Zero displacement still carries the prefetch compensation.
    assert_eq!(decoded(0xEA00_0000).branch_offset(), 8);
    // The most negative 24-bit displacement.
    assert_eq!(decoded(0xEA80_0000).branch_offset(), -0x200_0000 + 8);
}

#[test]
fn bit20_meaning_follows_the_format() {
    // Data Processing with bit 20 set: "update condition flags".
    let ands = decoded(0xE011_0002);
    assert_eq!(ands.fmt, ArmInstructionFormat::DP);
    assert!(ands.is_set_cond());
    // Single Data Transfer with the same bit set: "is load".
    let ldr = decoded(0xE591_0000);
    assert_eq!(ldr.fmt, ArmInstructionFormat::LDR_STR);
    assert!(ldr.is_load());
    // The raw bit is identical; only its meaning differs by format.
    assert_eq!(ands.is_load(), ands.is_set_cond());
    assert_eq!(ldr.is_load(), ldr.is_set_cond());
    // And with bit 20 clear both read false.
    let and = decoded(0xE001_0002);
    assert!(!and.is_set_cond());
    assert!(!and.is_load());
}

#[test]
fn write_back_is_bit_21() {
    assert!(decoded(0xE5B1_0000).is_write_back());
    assert!(!decoded(0xE591_0000).is_write_back());
}

#[test]
fn transfer_size_is_one_byte_when_bit_22_is_set() {
    assert_eq!(decoded(0xE5D1_0000).transfer_size(), 1);
    assert_eq!(decoded(0xE591_0000).transfer_size(), 4);
}

#[test]
fn bit22_dual_meaning_accessors_agree() {
    let ldmb = decoded(0xE8D0_0003);
    assert!(ldmb.is_loading_psr_and_forcing_user_mode());
    assert!(ldmb.is_spsr());
    let ldm = decoded(0xE890_0003);
    assert!(!ldm.is_loading_psr_and_forcing_user_mode());
    assert!(!ldm.is_spsr());
}

#[test]
fn offset_direction_is_bit_23() {
    assert!(decoded(0xE591_0000).is_ofs_added());
    assert!(!decoded(0xE511_0000).is_ofs_added());
}

#[test]
fn bit24_is_pre_indexing_or_link_by_format() {
    let ldr_pre = decoded(0xE591_0000);
    assert!(ldr_pre.is_pre_indexing());
    let ldr_post = decoded(0xE491_0000);
    assert!(!ldr_post.is_pre_indexing());
    let bl = decoded(0xEB00_0001);
    assert!(bl.is_linked_branch());
    let b = decoded(0xEA00_0001);
    assert!(!b.is_linked_branch());
    // Same bit, two meanings.
    assert_eq!(bl.is_pre_indexing(), bl.is_linked_branch());
}

#[test]
fn offset_immediate_form() {
    let ins = decoded(0xE590_0123);
    assert_eq!(ins.offset(), ArmInstructionShiftValue::ImmediateValue(0x123));
}

#[test]
fn offset_shifted_register_form() {
    // Bit 25 set: register 2 shifted left by immediate amount 2.
    let ins = decoded(0xE790_1102);
    assert_eq!(
        ins.offset(),
        ArmInstructionShiftValue::ShiftedRegister(2, ArmShift::ImmediateShift(2, ArmShiftType::LSL))
    );
}

#[test]
fn operand2_register_shift_form() {
    // Bit 25 clear, bit 4 of the sub-field set: register 2 shifted by
    // the content of register 3.
    let ins = decoded(0xE011_0312);
    assert_eq!(
        ins.operand2(),
        ArmInstructionShiftValue::ShiftedRegister(
            2,
            ArmShift::RegisterShift(3, ArmShiftType::LSL)
        )
    );
}

#[test]
fn shift_decode_covers_all_four_types() {
    assert_eq!(
        ArmShift::decode(0x000),
        Ok(ArmShift::ImmediateShift(0, ArmShiftType::LSL))
    );
    assert_eq!(
        ArmShift::decode(0x020),
        Ok(ArmShift::ImmediateShift(0, ArmShiftType::LSR))
    );
    assert_eq!(
        ArmShift::decode(0x040),
        Ok(ArmShift::ImmediateShift(0, ArmShiftType::ASR))
    );
    assert_eq!(
        ArmShift::decode(0x060),
        Ok(ArmShift::ImmediateShift(0, ArmShiftType::ROR))
    );
    // Bit 4 set selects a register shift; the amount field becomes a
    // register index in bits 8-12.
    assert_eq!(
        ArmShift::decode(0xF50),
        Ok(ArmShift::RegisterShift(15, ArmShiftType::ASR))
    );
}

#[test]
fn rotated_immediate_rotates_and_sign_reinterprets() {
    // 0xFF rotated right by 2*4 = 8 puts the byte in the top bits.
    let ins = decoded(0xE3A0_04FF);
    let op2 = ins.operand2();
    assert_eq!(op2, ArmInstructionShiftValue::RotatedImmediate(0xFF, 8));
    assert_eq!(op2.decode_rotated_immediate(), Some(0xFF00_0000u32 as i32));
}

#[test]
fn rotated_immediate_is_none_for_other_variants() {
    let imm = ArmInstructionShiftValue::ImmediateValue(7);
    assert_eq!(imm.decode_rotated_immediate(), None);
    let reg = ArmInstructionShiftValue::ShiftedRegister(
        1,
        ArmShift::ImmediateShift(0, ArmShiftType::LSL),
    );
    assert_eq!(reg.decode_rotated_immediate(), None);
}

#[test]
fn register_list_is_ascending_set_bits() {
    // Low sixteen bits 0b101: registers 0 and 2, ascending, length 2.
    let ins = decoded(0xE890_0005);
    assert_eq!(ins.register_list(), vec![0usize, 2]);
}

#[test]
fn register_list_edge_cases() {
    let none = decoded(0xE890_0000);
    assert_eq!(none.register_list(), Vec::<usize>::new());
    let all = decoded(0xE890_FFFF);
    let list = all.register_list();
    assert_eq!(list.len(), 16);
    for (k, reg) in list.iter().enumerate() {
        assert_eq!(*reg, k);
    }
    let top = decoded(0xE890_8000);
    assert_eq!(top.register_list(), vec![15usize]);
}
