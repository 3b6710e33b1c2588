use lc3::{InstructionDecode, OpCode, Reg, TrapCode};

#[test]
fn decode_opcode_all_sixteen() {
    let expected = [
        OpCode::Br,
        OpCode::Add,
        OpCode::Ld,
        OpCode::St,
        OpCode::Jsr,
        OpCode::And,
        OpCode::Ldr,
        OpCode::Str,
        OpCode::Rti,
        OpCode::Not,
        OpCode::Ldi,
        OpCode::Sti,
        OpCode::Jmp,
        OpCode::Res,
        OpCode::Lea,
        OpCode::Trap,
    ];
    for (i, op) in expected.iter().enumerate() {
        let word = (i as u16) << 12 | 0x0ABC & 0x0FFF;
        assert_eq!(word.opcode(), *op);
    }
}

#[test]
fn decode_condcodes_mask() {
    // BRz #1: mask bits [11:9] are 010.
    let cc = 0x0401u16.condcodes();
    assert!(cc.zero());
    assert!(!cc.negative());
    assert!(!cc.positive());
}

#[test]
fn decode_registers() {
    // 0x127F: DR = R1, SR1 = R1; reg3 of 0x1042 is R2.
    assert_eq!(0x127Fu16.reg1(), Reg::R1);
    assert_eq!(0x127Fu16.reg2(), Reg::R1);
    assert_eq!(0x1042u16.reg3(), Reg::R2);
    assert_eq!(0xC1C0u16.reg2(), Reg::R7);
}

#[test]
fn decode_trapcode_range() {
    assert!(matches!(0xF020u16.trapcode(), Some(TrapCode::Getc)));
    assert!(matches!(0xF021u16.trapcode(), Some(TrapCode::Out)));
    assert!(matches!(0xF022u16.trapcode(), Some(TrapCode::Puts)));
    assert!(matches!(0xF023u16.trapcode(), Some(TrapCode::In)));
    assert!(matches!(0xF024u16.trapcode(), Some(TrapCode::PutSp)));
    assert!(matches!(0xF025u16.trapcode(), Some(TrapCode::Halt)));
    assert!(0xF01Fu16.trapcode().is_none());
    assert!(0xF026u16.trapcode().is_none());
}

#[test]
fn decode_isbitset() {
    assert!(0x0020u16.isbitset(5));
    assert!(!0x0000u16.isbitset(5));
    assert!(0x8000u16.isbitset(15));
    assert!(0x4802u16.isbitset(11));
}

#[test]
fn decode_imm5_sign_extension_round_trip() {
    // Encoding imm5 = -1 (0b11111) decodes to the 16-bit word 0xFFFF.
    assert_eq!(0x001Fu16.imm5(), 0xFFFF);
    assert_eq!(0x0010u16.imm5(), 0xFFF0);
    assert_eq!(0x000Fu16.imm5(), 0x000F);
    assert_eq!(0x0000u16.imm5(), 0x0000);
}

#[test]
fn decode_imm_widths() {
    assert_eq!(0x003Fu16.imm6(), 0xFFFF);
    assert_eq!(0x001Fu16.imm6(), 0x001F);
    assert_eq!(0x00FFu16.imm8(), 0xFFFF);
    assert_eq!(0x0025u16.imm8(), 0x0025);
    assert_eq!(0x01FFu16.imm9(), 0xFFFF);
    assert_eq!(0x00FFu16.imm9(), 0x00FF);
    assert_eq!(0x07FFu16.imm11(), 0xFFFF);
    assert_eq!(0x03FFu16.imm11(), 0x03FF);
    assert_eq!(0x4802u16.imm11(), 0x0002);
}

#[test]
fn decode_reg_from_u16_masks() {
    assert_eq!(Reg::from_u16(0), Reg::R0);
    assert_eq!(Reg::from_u16(7), Reg::R7);
    assert_eq!(Reg::from_u16(0xFFFA), Reg::R2);
}
