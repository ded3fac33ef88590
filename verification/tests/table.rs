use mos6502::opcodes::{decode, AddrMode, Mnemonic, OpCode};

#[test]
fn table_has_151_documented_opcodes() {
    let mut documented = 0;
    for byte in 0..=255u8 {
        match decode(byte) {
            OpCode::Instruction(_, _) => documented += 1,
            OpCode::Unknown(b) => assert_eq!(b, byte),
        }
    }
    assert_eq!(documented, 151);
}

#[test]
fn named_opcodes_have_their_documented_bytes() {
    assert_eq!(OpCode::INS_JSR, 0x20);
    assert_eq!(OpCode::INS_NOP, 0xEA);
    assert_eq!(OpCode::INS_LDA_IM, 0xA9);
    assert_eq!(OpCode::INS_LDA_ZP, 0xA5);
    assert_eq!(OpCode::INS_LDA_ZPX, 0xB5);
    assert_eq!(OpCode::INS_LDA_ABS, 0xAD);
    assert_eq!(OpCode::INS_LDA_ABSX, 0xBD);
    assert_eq!(OpCode::INS_LDA_ABSY, 0xB9);
    assert_eq!(OpCode::INS_LDA_INDX, 0xA1);
    assert_eq!(OpCode::INS_LDA_INDY, 0xB1);
    assert_eq!(OpCode::INS_STA_ABSX, 0x9D);
    assert_eq!(OpCode::INS_BEQ, 0xF0);
    assert_eq!(OpCode::INS_BRK, 0x00);
    assert_eq!(OpCode::INS_JMP_IND, 0x6C);
}

#[test]
fn decode_known_opcodes() {
    assert_eq!(decode(0xA9), OpCode::Instruction(Mnemonic::Lda, AddrMode::Immediate));
    assert_eq!(decode(0xB1), OpCode::Instruction(Mnemonic::Lda, AddrMode::IndirectY));
    assert_eq!(decode(0x9D), OpCode::Instruction(Mnemonic::Sta, AddrMode::AbsoluteX));
    assert_eq!(decode(0x96), OpCode::Instruction(Mnemonic::Stx, AddrMode::ZeroPageY));
    assert_eq!(decode(0x0A), OpCode::Instruction(Mnemonic::Asl, AddrMode::Accumulator));
    assert_eq!(decode(0x6C), OpCode::Instruction(Mnemonic::Jmp, AddrMode::Indirect));
    assert_eq!(decode(0xF0), OpCode::Instruction(Mnemonic::Beq, AddrMode::Relative));
    assert_eq!(decode(0x00), OpCode::Instruction(Mnemonic::Brk, AddrMode::Implied));
    assert_eq!(decode(0xEA), OpCode::Instruction(Mnemonic::Nop, AddrMode::Implied));
    assert_eq!(decode(0xC9), OpCode::Instruction(Mnemonic::Cmp, AddrMode::Immediate));
    assert_eq!(decode(OpCode::INS_ROR_ABSX), OpCode::Instruction(Mnemonic::Ror, AddrMode::AbsoluteX));
}

#[test]
fn decode_unknown_opcodes() {
    assert_eq!(decode(0x02), OpCode::Unknown(0x02));
    assert_eq!(decode(0xFF), OpCode::Unknown(0xFF));
    assert_eq!(decode(0x80), OpCode::Unknown(0x80));
    assert_eq!(decode(0x1A), OpCode::Unknown(0x1A));
}
