//! The opcode table: which instruction and which addressing mode each of the
//! 256 opcode bytes stands for.

use vstd::prelude::*;

verus! {

/// What an opcode byte stands for. The associated constants name the opcode
/// bytes of the documented instruction set.
#[derive(Clone, Copy, Debug, PartialEq, Eq, Structural)]
pub enum OpCode {
    /// A documented instruction in one of its addressing modes.
    Instruction(Mnemonic, AddrMode),
    /// A byte that the documented instruction set gives no meaning.
    Unknown(u8),
}

impl OpCode {
    pub const INS_JSR: u8 = 0x20;

    pub const INS_NOP: u8 = 0xEA;

    pub const INS_LDA_IM: u8 = 0xA9;
    pub const INS_LDA_ZP: u8 = 0xA5;
    pub const INS_LDA_ZPX: u8 = 0xB5;
    pub const INS_LDA_ABS: u8 = 0xAD;
    pub const INS_LDA_ABSX: u8 = 0xBD;
    pub const INS_LDA_ABSY: u8 = 0xB9;
    pub const INS_LDA_INDX: u8 = 0xA1;
    pub const INS_LDA_INDY: u8 = 0xB1;

    pub const INS_LDX_IM: u8 = 0xA2;
    pub const INS_LDX_ZP: u8 = 0xA6;
    pub const INS_LDX_ZPY: u8 = 0xB6;
    pub const INS_LDX_ABS: u8 = 0xAE;
    pub const INS_LDX_ABSY: u8 = 0xBE;

    pub const INS_LDY_IM: u8 = 0xA0;
    pub const INS_LDY_ZP: u8 = 0xA4;
    pub const INS_LDY_ZPX: u8 = 0xB4;
    pub const INS_LDY_ABS: u8 = 0xAC;
    pub const INS_LDY_ABSX: u8 = 0xBC;

    pub const INS_STA_ZP: u8 = 0x85;
    pub const INS_STA_ZPX: u8 = 0x95;
    pub const INS_STA_ABS: u8 = 0x8D;
    pub const INS_STA_ABSX: u8 = 0x9D;
    pub const INS_STA_ABSY: u8 = 0x99;
    pub const INS_STA_INDX: u8 = 0x81;
    pub const INS_STA_INDY: u8 = 0x91;

    pub const INS_STX_ZP: u8 = 0x86;
    pub const INS_STX_ZPY: u8 = 0x96;
    pub const INS_STX_ABS: u8 = 0x8E;

    pub const INS_STY_ZP: u8 = 0x84;
    pub const INS_STY_ZPX: u8 = 0x94;
    pub const INS_STY_ABS: u8 = 0x8C;

    pub const INS_ADC_IM: u8 = 0x69;
    pub const INS_ADC_ZP: u8 = 0x65;
    pub const INS_ADC_ZPX: u8 = 0x75;
    pub const INS_ADC_ABS: u8 = 0x6D;
    pub const INS_ADC_ABSX: u8 = 0x7D;
    pub const INS_ADC_ABSY: u8 = 0x79;
    pub const INS_ADC_INDX: u8 = 0x61;
    pub const INS_ADC_INDY: u8 = 0x71;

    pub const INS_SBC_IM: u8 = 0xE9;
    pub const INS_SBC_ZP: u8 = 0xE5;
    pub const INS_SBC_ZPX: u8 = 0xF5;
    pub const INS_SBC_ABS: u8 = 0xED;
    pub const INS_SBC_ABSX: u8 = 0xFD;
    pub const INS_SBC_ABSY: u8 = 0xF9;
    pub const INS_SBC_INDX: u8 = 0xE1;
    pub const INS_SBC_INDY: u8 = 0xF1;

    pub const INS_AND_IM: u8 = 0x29;
    pub const INS_AND_ZP: u8 = 0x25;
    pub const INS_AND_ZPX: u8 = 0x35;
    pub const INS_AND_ABS: u8 = 0x2D;
    pub const INS_AND_ABSX: u8 = 0x3D;
    pub const INS_AND_ABSY: u8 = 0x39;
    pub const INS_AND_INDX: u8 = 0x21;
    pub const INS_AND_INDY: u8 = 0x31;

    pub const INS_ORA_IM: u8 = 0x09;
    pub const INS_ORA_ZP: u8 = 0x05;
    pub const INS_ORA_ZPX: u8 = 0x15;
    pub const INS_ORA_ABS: u8 = 0x0D;
    pub const INS_ORA_ABSX: u8 = 0x1D;
    pub const INS_ORA_ABSY: u8 = 0x19;
    pub const INS_ORA_INDX: u8 = 0x01;
    pub const INS_ORA_INDY: u8 = 0x11;

    pub const INS_EOR_IM: u8 = 0x49;
    pub const INS_EOR_ZP: u8 = 0x45;
    pub const INS_EOR_ZPX: u8 = 0x55;
    pub const INS_EOR_ABS: u8 = 0x4D;
    pub const INS_EOR_ABSX: u8 = 0x5D;
    pub const INS_EOR_ABSY: u8 = 0x59;
    pub const INS_EOR_INDX: u8 = 0x41;
    pub const INS_EOR_INDY: u8 = 0x51;

    pub const INS_ASL_ACC: u8 = 0x0A;
    pub const INS_ASL_ZP: u8 = 0x06;
    pub const INS_ASL_ZPX: u8 = 0x16;
    pub const INS_ASL_ABS: u8 = 0x0E;
    pub const INS_ASL_ABSX: u8 = 0x1E;

    pub const INS_LSR_ACC: u8 = 0x4A;
    pub const INS_LSR_ZP: u8 = 0x46;
    pub const INS_LSR_ZPX: u8 = 0x56;
    pub const INS_LSR_ABS: u8 = 0x4E;
    pub const INS_LSR_ABSX: u8 = 0x5E;

    pub const INS_ROL_ACC: u8 = 0x2A;
    pub const INS_ROL_ZP: u8 = 0x26;
    pub const INS_ROL_ZPX: u8 = 0x36;
    pub const INS_ROL_ABS: u8 = 0x2E;
    pub const INS_ROL_ABSX: u8 = 0x3E;

    pub const INS_ROR_ACC: u8 = 0x6A;
    pub const INS_ROR_ZP: u8 = 0x66;
    pub const INS_ROR_ZPX: u8 = 0x76;
    pub const INS_ROR_ABS: u8 = 0x6E;
    pub const INS_ROR_ABSX: u8 = 0x7E;

    pub const INS_INC_ZP: u8 = 0xE6;
    pub const INS_INC_ZPX: u8 = 0xF6;
    pub const INS_INC_ABS: u8 = 0xEE;
    pub const INS_INC_ABSX: u8 = 0xFE;

    pub const INS_INX: u8 = 0xE8;

    pub const INS_INY: u8 = 0xC8;

    pub const INS_DEC_ZP: u8 = 0xC6;
    pub const INS_DEC_ZPX: u8 = 0xD6;
    pub const INS_DEC_ABS: u8 = 0xCE;
    pub const INS_DEC_ABSX: u8 = 0xDE;

    pub const INS_DEX: u8 = 0xCA;

    pub const INS_DEY: u8 = 0x88;

    pub const INS_CMP_IM: u8 = 0xC9;
    pub const INS_CMP_ZP: u8 = 0xC5;
    pub const INS_CMP_ZPX: u8 = 0xD5;
    pub const INS_CMP_ABS: u8 = 0xCD;
    pub const INS_CMP_ABSX: u8 = 0xDD;
    pub const INS_CMP_ABSY: u8 = 0xD9;
    pub const INS_CMP_INDX: u8 = 0xC1;
    pub const INS_CMP_INDY: u8 = 0xD1;

    pub const INS_CPX_IM: u8 = 0xE0;
    pub const INS_CPX_ZP: u8 = 0xE4;
    pub const INS_CPX_ABS: u8 = 0xEC;

    pub const INS_CPY_IM: u8 = 0xC0;
    pub const INS_CPY_ZP: u8 = 0xC4;
    pub const INS_CPY_ABS: u8 = 0xCC;

    pub const INS_BCC: u8 = 0x90;

    pub const INS_BCS: u8 = 0xB0;

    pub const INS_BEQ: u8 = 0xF0;

    pub const INS_BMI: u8 = 0x30;

    pub const INS_BNE: u8 = 0xD0;

    pub const INS_BPL: u8 = 0x10;

    pub const INS_BVC: u8 = 0x50;

    pub const INS_BVS: u8 = 0x70;

    pub const INS_CLC: u8 = 0x18;

    pub const INS_CLD: u8 = 0xD8;

    pub const INS_CLI: u8 = 0x58;

    pub const INS_CLV: u8 = 0xB8;

    pub const INS_SEC: u8 = 0x38;

    pub const INS_SED: u8 = 0xF8;

    pub const INS_SEI: u8 = 0x78;

    pub const INS_PHA: u8 = 0x48;

    pub const INS_PHP: u8 = 0x08;

    pub const INS_PLA: u8 = 0x68;

    pub const INS_PLP: u8 = 0x28;

    pub const INS_TSX: u8 = 0xBA;

    pub const INS_TXS: u8 = 0x9A;

    pub const INS_TAX: u8 = 0xAA;

    pub const INS_TAY: u8 = 0xA8;

    pub const INS_TXA: u8 = 0x8A;

    pub const INS_TYA: u8 = 0x98;

    pub const INS_JMP_ABS: u8 = 0x4C;
    pub const INS_JMP_IND: u8 = 0x6C;

    pub const INS_RTS: u8 = 0x60;

    pub const INS_RTI: u8 = 0x40;

    pub const INS_BIT_ZP: u8 = 0x24;
    pub const INS_BIT_ABS: u8 = 0x2C;

    pub const INS_BRK: u8 = 0x00;
}

/// The operation an instruction performs.
#[derive(Clone, Copy, Debug, PartialEq, Eq, Structural)]
pub enum Mnemonic {
    Adc,
    And,
    Asl,
    Bcc,
    Bcs,
    Beq,
    Bit,
    Bmi,
    Bne,
    Bpl,
    Brk,
    Bvc,
    Bvs,
    Clc,
    Cld,
    Cli,
    Clv,
    Cmp,
    Cpx,
    Cpy,
    Dec,
    Dex,
    Dey,
    Eor,
    Inc,
    Inx,
    Iny,
    Jmp,
    Jsr,
    Lda,
    Ldx,
    Ldy,
    Lsr,
    Nop,
    Ora,
    Pha,
    Php,
    Pla,
    Plp,
    Rol,
    Ror,
    Rti,
    Rts,
    Sbc,
    Sec,
    Sed,
    Sei,
    Sta,
    Stx,
    Sty,
    Tax,
    Tay,
    Tsx,
    Txa,
    Txs,
    Tya,
}

/// The rule by which an instruction finds its operand.
#[derive(Clone, Copy, Debug, PartialEq, Eq, Structural)]
pub enum AddrMode {
    /// No operand.
    Implied,
    /// The operand is the accumulator.
    Accumulator,
    /// The operand is the byte that follows the opcode.
    Immediate,
    /// The byte that follows the opcode is an address in page zero.
    ZeroPage,
    /// Page-zero address plus X, wrapping inside page zero.
    ZeroPageX,
    /// Page-zero address plus Y, wrapping inside page zero.
    ZeroPageY,
    /// The word that follows the opcode is the address.
    Absolute,
    /// Absolute address plus X.
    AbsoluteX,
    /// Absolute address plus Y.
    AbsoluteY,
    /// The word that follows the opcode is the address of the address.
    Indirect,
    /// The page-zero cell at (operand + X) holds the address.
    IndirectX,
    /// The page-zero cell at the operand holds a base address; Y is added.
    IndirectY,
    /// The byte that follows the opcode is a signed offset from the next instruction.
    Relative,
}

/// The opcode table as a function, in the order of the opcode bytes.
pub open spec fn decode_spec(opcode: u8) -> OpCode {
    match opcode {
        0x00 => OpCode::Instruction(Mnemonic::Brk, AddrMode::Implied),
        0x01 => OpCode::Instruction(Mnemonic::Ora, AddrMode::IndirectX),
        0x05 => OpCode::Instruction(Mnemonic::Ora, AddrMode::ZeroPage),
        0x06 => OpCode::Instruction(Mnemonic::Asl, AddrMode::ZeroPage),
        0x08 => OpCode::Instruction(Mnemonic::Php, AddrMode::Implied),
        0x09 => OpCode::Instruction(Mnemonic::Ora, AddrMode::Immediate),
        0x0A => OpCode::Instruction(Mnemonic::Asl, AddrMode::Accumulator),
        0x0D => OpCode::Instruction(Mnemonic::Ora, AddrMode::Absolute),
        0x0E => OpCode::Instruction(Mnemonic::Asl, AddrMode::Absolute),
        0x10 => OpCode::Instruction(Mnemonic::Bpl, AddrMode::Relative),
        0x11 => OpCode::Instruction(Mnemonic::Ora, AddrMode::IndirectY),
        0x15 => OpCode::Instruction(Mnemonic::Ora, AddrMode::ZeroPageX),
        0x16 => OpCode::Instruction(Mnemonic::Asl, AddrMode::ZeroPageX),
        0x18 => OpCode::Instruction(Mnemonic::Clc, AddrMode::Implied),
        0x19 => OpCode::Instruction(Mnemonic::Ora, AddrMode::AbsoluteY),
        0x1D => OpCode::Instruction(Mnemonic::Ora, AddrMode::AbsoluteX),
        0x1E => OpCode::Instruction(Mnemonic::Asl, AddrMode::AbsoluteX),
        0x20 => OpCode::Instruction(Mnemonic::Jsr, AddrMode::Absolute),
        0x21 => OpCode::Instruction(Mnemonic::And, AddrMode::IndirectX),
        0x24 => OpCode::Instruction(Mnemonic::Bit, AddrMode::ZeroPage),
        0x25 => OpCode::Instruction(Mnemonic::And, AddrMode::ZeroPage),
        0x26 => OpCode::Instruction(Mnemonic::Rol, AddrMode::ZeroPage),
        0x28 => OpCode::Instruction(Mnemonic::Plp, AddrMode::Implied),
        0x29 => OpCode::Instruction(Mnemonic::And, AddrMode::Immediate),
        0x2A => OpCode::Instruction(Mnemonic::Rol, AddrMode::Accumulator),
        0x2C => OpCode::Instruction(Mnemonic::Bit, AddrMode::Absolute),
        0x2D => OpCode::Instruction(Mnemonic::And, AddrMode::Absolute),
        0x2E => OpCode::Instruction(Mnemonic::Rol, AddrMode::Absolute),
        0x30 => OpCode::Instruction(Mnemonic::Bmi, AddrMode::Relative),
        0x31 => OpCode::Instruction(Mnemonic::And, AddrMode::IndirectY),
        0x35 => OpCode::Instruction(Mnemonic::And, AddrMode::ZeroPageX),
        0x36 => OpCode::Instruction(Mnemonic::Rol, AddrMode::ZeroPageX),
        0x38 => OpCode::Instruction(Mnemonic::Sec, AddrMode::Implied),
        0x39 => OpCode::Instruction(Mnemonic::And, AddrMode::AbsoluteY),
        0x3D => OpCode::Instruction(Mnemonic::And, AddrMode::AbsoluteX),
        0x3E => OpCode::Instruction(Mnemonic::Rol, AddrMode::AbsoluteX),
        0x40 => OpCode::Instruction(Mnemonic::Rti, AddrMode::Implied),
        0x41 => OpCode::Instruction(Mnemonic::Eor, AddrMode::IndirectX),
        0x45 => OpCode::Instruction(Mnemonic::Eor, AddrMode::ZeroPage),
        0x46 => OpCode::Instruction(Mnemonic::Lsr, AddrMode::ZeroPage),
        0x48 => OpCode::Instruction(Mnemonic::Pha, AddrMode::Implied),
        0x49 => OpCode::Instruction(Mnemonic::Eor, AddrMode::Immediate),
        0x4A => OpCode::Instruction(Mnemonic::Lsr, AddrMode::Accumulator),
        0x4C => OpCode::Instruction(Mnemonic::Jmp, AddrMode::Absolute),
        0x4D => OpCode::Instruction(Mnemonic::Eor, AddrMode::Absolute),
        0x4E => OpCode::Instruction(Mnemonic::Lsr, AddrMode::Absolute),
        0x50 => OpCode::Instruction(Mnemonic::Bvc, AddrMode::Relative),
        0x51 => OpCode::Instruction(Mnemonic::Eor, AddrMode::IndirectY),
        0x55 => OpCode::Instruction(Mnemonic::Eor, AddrMode::ZeroPageX),
        0x56 => OpCode::Instruction(Mnemonic::Lsr, AddrMode::ZeroPageX),
        0x58 => OpCode::Instruction(Mnemonic::Cli, AddrMode::Implied),
        0x59 => OpCode::Instruction(Mnemonic::Eor, AddrMode::AbsoluteY),
        0x5D => OpCode::Instruction(Mnemonic::Eor, AddrMode::AbsoluteX),
        0x5E => OpCode::Instruction(Mnemonic::Lsr, AddrMode::AbsoluteX),
        0x60 => OpCode::Instruction(Mnemonic::Rts, AddrMode::Implied),
        0x61 => OpCode::Instruction(Mnemonic::Adc, AddrMode::IndirectX),
        0x65 => OpCode::Instruction(Mnemonic::Adc, AddrMode::ZeroPage),
        0x66 => OpCode::Instruction(Mnemonic::Ror, AddrMode::ZeroPage),
        0x68 => OpCode::Instruction(Mnemonic::Pla, AddrMode::Implied),
        0x69 => OpCode::Instruction(Mnemonic::Adc, AddrMode::Immediate),
        0x6A => OpCode::Instruction(Mnemonic::Ror, AddrMode::Accumulator),
        0x6C => OpCode::Instruction(Mnemonic::Jmp, AddrMode::Indirect),
        0x6D => OpCode::Instruction(Mnemonic::Adc, AddrMode::Absolute),
        0x6E => OpCode::Instruction(Mnemonic::Ror, AddrMode::Absolute),
        0x70 => OpCode::Instruction(Mnemonic::Bvs, AddrMode::Relative),
        0x71 => OpCode::Instruction(Mnemonic::Adc, AddrMode::IndirectY),
        0x75 => OpCode::Instruction(Mnemonic::Adc, AddrMode::ZeroPageX),
        0x76 => OpCode::Instruction(Mnemonic::Ror, AddrMode::ZeroPageX),
        0x78 => OpCode::Instruction(Mnemonic::Sei, AddrMode::Implied),
        0x79 => OpCode::Instruction(Mnemonic::Adc, AddrMode::AbsoluteY),
        0x7D => OpCode::Instruction(Mnemonic::Adc, AddrMode::AbsoluteX),
        0x7E => OpCode::Instruction(Mnemonic::Ror, AddrMode::AbsoluteX),
        0x81 => OpCode::Instruction(Mnemonic::Sta, AddrMode::IndirectX),
        0x84 => OpCode::Instruction(Mnemonic::Sty, AddrMode::ZeroPage),
        0x85 => OpCode::Instruction(Mnemonic::Sta, AddrMode::ZeroPage),
        0x86 => OpCode::Instruction(Mnemonic::Stx, AddrMode::ZeroPage),
        0x88 => OpCode::Instruction(Mnemonic::Dey, AddrMode::Implied),
        0x8A => OpCode::Instruction(Mnemonic::Txa, AddrMode::Implied),
        0x8C => OpCode::Instruction(Mnemonic::Sty, AddrMode::Absolute),
        0x8D => OpCode::Instruction(Mnemonic::Sta, AddrMode::Absolute),
        0x8E => OpCode::Instruction(Mnemonic::Stx, AddrMode::Absolute),
        0x90 => OpCode::Instruction(Mnemonic::Bcc, AddrMode::Relative),
        0x91 => OpCode::Instruction(Mnemonic::Sta, AddrMode::IndirectY),
        0x94 => OpCode::Instruction(Mnemonic::Sty, AddrMode::ZeroPageX),
        0x95 => OpCode::Instruction(Mnemonic::Sta, AddrMode::ZeroPageX),
        0x96 => OpCode::Instruction(Mnemonic::Stx, AddrMode::ZeroPageY),
        0x98 => OpCode::Instruction(Mnemonic::Tya, AddrMode::Implied),
        0x99 => OpCode::Instruction(Mnemonic::Sta, AddrMode::AbsoluteY),
        0x9A => OpCode::Instruction(Mnemonic::Txs, AddrMode::Implied),
        0x9D => OpCode::Instruction(Mnemonic::Sta, AddrMode::AbsoluteX),
        0xA0 => OpCode::Instruction(Mnemonic::Ldy, AddrMode::Immediate),
        0xA1 => OpCode::Instruction(Mnemonic::Lda, AddrMode::IndirectX),
        0xA2 => OpCode::Instruction(Mnemonic::Ldx, AddrMode::Immediate),
        0xA4 => OpCode::Instruction(Mnemonic::Ldy, AddrMode::ZeroPage),
        0xA5 => OpCode::Instruction(Mnemonic::Lda, AddrMode::ZeroPage),
        0xA6 => OpCode::Instruction(Mnemonic::Ldx, AddrMode::ZeroPage),
        0xA8 => OpCode::Instruction(Mnemonic::Tay, AddrMode::Implied),
        0xA9 => OpCode::Instruction(Mnemonic::Lda, AddrMode::Immediate),
        0xAA => OpCode::Instruction(Mnemonic::Tax, AddrMode::Implied),
        0xAC => OpCode::Instruction(Mnemonic::Ldy, AddrMode::Absolute),
        0xAD => OpCode::Instruction(Mnemonic::Lda, AddrMode::Absolute),
        0xAE => OpCode::Instruction(Mnemonic::Ldx, AddrMode::Absolute),
        0xB0 => OpCode::Instruction(Mnemonic::Bcs, AddrMode::Relative),
        0xB1 => OpCode::Instruction(Mnemonic::Lda, AddrMode::IndirectY),
        0xB4 => OpCode::Instruction(Mnemonic::Ldy, AddrMode::ZeroPageX),
        0xB5 => OpCode::Instruction(Mnemonic::Lda, AddrMode::ZeroPageX),
        0xB6 => OpCode::Instruction(Mnemonic::Ldx, AddrMode::ZeroPageY),
        0xB8 => OpCode::Instruction(Mnemonic::Clv, AddrMode::Implied),
        0xB9 => OpCode::Instruction(Mnemonic::Lda, AddrMode::AbsoluteY),
        0xBA => OpCode::Instruction(Mnemonic::Tsx, AddrMode::Implied),
        0xBC => OpCode::Instruction(Mnemonic::Ldy, AddrMode::AbsoluteX),
        0xBD => OpCode::Instruction(Mnemonic::Lda, AddrMode::AbsoluteX),
        0xBE => OpCode::Instruction(Mnemonic::Ldx, AddrMode::AbsoluteY),
        0xC0 => OpCode::Instruction(Mnemonic::Cpy, AddrMode::Immediate),
        0xC1 => OpCode::Instruction(Mnemonic::Cmp, AddrMode::IndirectX),
        0xC4 => OpCode::Instruction(Mnemonic::Cpy, AddrMode::ZeroPage),
        0xC5 => OpCode::Instruction(Mnemonic::Cmp, AddrMode::ZeroPage),
        0xC6 => OpCode::Instruction(Mnemonic::Dec, AddrMode::ZeroPage),
        0xC8 => OpCode::Instruction(Mnemonic::Iny, AddrMode::Implied),
        0xC9 => OpCode::Instruction(Mnemonic::Cmp, AddrMode::Immediate),
        0xCA => OpCode::Instruction(Mnemonic::Dex, AddrMode::Implied),
        0xCC => OpCode::Instruction(Mnemonic::Cpy, AddrMode::Absolute),
        0xCD => OpCode::Instruction(Mnemonic::Cmp, AddrMode::Absolute),
        0xCE => OpCode::Instruction(Mnemonic::Dec, AddrMode::Absolute),
        0xD0 => OpCode::Instruction(Mnemonic::Bne, AddrMode::Relative),
        0xD1 => OpCode::Instruction(Mnemonic::Cmp, AddrMode::IndirectY),
        0xD5 => OpCode::Instruction(Mnemonic::Cmp, AddrMode::ZeroPageX),
        0xD6 => OpCode::Instruction(Mnemonic::Dec, AddrMode::ZeroPageX),
        0xD8 => OpCode::Instruction(Mnemonic::Cld, AddrMode::Implied),
        0xD9 => OpCode::Instruction(Mnemonic::Cmp, AddrMode::AbsoluteY),
        0xDD => OpCode::Instruction(Mnemonic::Cmp, AddrMode::AbsoluteX),
        0xDE => OpCode::Instruction(Mnemonic::Dec, AddrMode::AbsoluteX),
        0xE0 => OpCode::Instruction(Mnemonic::Cpx, AddrMode::Immediate),
        0xE1 => OpCode::Instruction(Mnemonic::Sbc, AddrMode::IndirectX),
        0xE4 => OpCode::Instruction(Mnemonic::Cpx, AddrMode::ZeroPage),
        0xE5 => OpCode::Instruction(Mnemonic::Sbc, AddrMode::ZeroPage),
        0xE6 => OpCode::Instruction(Mnemonic::Inc, AddrMode::ZeroPage),
        0xE8 => OpCode::Instruction(Mnemonic::Inx, AddrMode::Implied),
        0xE9 => OpCode::Instruction(Mnemonic::Sbc, AddrMode::Immediate),
        0xEA => OpCode::Instruction(Mnemonic::Nop, AddrMode::Implied),
        0xEC => OpCode::Instruction(Mnemonic::Cpx, AddrMode::Absolute),
        0xED => OpCode::Instruction(Mnemonic::Sbc, AddrMode::Absolute),
        0xEE => OpCode::Instruction(Mnemonic::Inc, AddrMode::Absolute),
        0xF0 => OpCode::Instruction(Mnemonic::Beq, AddrMode::Relative),
        0xF1 => OpCode::Instruction(Mnemonic::Sbc, AddrMode::IndirectY),
        0xF5 => OpCode::Instruction(Mnemonic::Sbc, AddrMode::ZeroPageX),
        0xF6 => OpCode::Instruction(Mnemonic::Inc, AddrMode::ZeroPageX),
        0xF8 => OpCode::Instruction(Mnemonic::Sed, AddrMode::Implied),
        0xF9 => OpCode::Instruction(Mnemonic::Sbc, AddrMode::AbsoluteY),
        0xFD => OpCode::Instruction(Mnemonic::Sbc, AddrMode::AbsoluteX),
        0xFE => OpCode::Instruction(Mnemonic::Inc, AddrMode::AbsoluteX),
        _ => OpCode::Unknown(opcode),
    }
}

/// The addressing modes that the documented instruction set has for each
/// instruction.
pub open spec fn supports(m: Mnemonic, mode: AddrMode) -> bool {
    match m {
        Mnemonic::Lda | Mnemonic::Adc | Mnemonic::Sbc | Mnemonic::And | Mnemonic::Ora
        | Mnemonic::Eor | Mnemonic::Cmp => mode is Immediate || mode is ZeroPage
            || mode is ZeroPageX || mode is Absolute || mode is AbsoluteX || mode is AbsoluteY
            || mode is IndirectX || mode is IndirectY,
        Mnemonic::Sta => mode is ZeroPage || mode is ZeroPageX || mode is Absolute
            || mode is AbsoluteX || mode is AbsoluteY || mode is IndirectX || mode is IndirectY,
        Mnemonic::Ldx => mode is Immediate || mode is ZeroPage || mode is ZeroPageY
            || mode is Absolute || mode is AbsoluteY,
        Mnemonic::Ldy => mode is Immediate || mode is ZeroPage || mode is ZeroPageX
            || mode is Absolute || mode is AbsoluteX,
        Mnemonic::Stx => mode is ZeroPage || mode is ZeroPageY || mode is Absolute,
        Mnemonic::Sty => mode is ZeroPage || mode is ZeroPageX || mode is Absolute,
        Mnemonic::Cpx | Mnemonic::Cpy => mode is Immediate || mode is ZeroPage
            || mode is Absolute,
        Mnemonic::Bit => mode is ZeroPage || mode is Absolute,
        Mnemonic::Asl | Mnemonic::Lsr | Mnemonic::Rol | Mnemonic::Ror => mode is Accumulator
            || mode is ZeroPage || mode is ZeroPageX || mode is Absolute || mode is AbsoluteX,
        Mnemonic::Inc | Mnemonic::Dec => mode is ZeroPage || mode is ZeroPageX
            || mode is Absolute || mode is AbsoluteX,
        Mnemonic::Bcc | Mnemonic::Bcs | Mnemonic::Beq | Mnemonic::Bne | Mnemonic::Bmi
        | Mnemonic::Bpl | Mnemonic::Bvc | Mnemonic::Bvs => mode is Relative,
        Mnemonic::Jmp => mode is Absolute || mode is Indirect,
        Mnemonic::Jsr => mode is Absolute,
        _ => mode is Implied,
    }
}

/// The opcode table pairs an instruction only with a mode that the
/// instruction has.
pub proof fn lemma_table_is_supported(opcode: u8)
    ensures
        decode_spec(opcode) matches OpCode::Instruction(m, mode) ==> supports(m, mode),
{
}

/// No two opcode bytes stand for the same instruction in the same mode: the
/// opcode table can be read backwards.
pub proof fn lemma_table_is_injective(first: u8, second: u8)
    requires
        decode_spec(first) is Instruction,
        decode_spec(first) == decode_spec(second),
    ensures
        first == second,
{
}

/// Looks `opcode` up in the opcode table.
pub fn decode(opcode: u8) -> (found: OpCode)
    ensures
        found == decode_spec(opcode),
{
    
    if opcode == OpCode::INS_JSR {
        OpCode::Instruction(Mnemonic::Jsr, AddrMode::Absolute)
    } else if opcode == OpCode::INS_NOP {
        OpCode::Instruction(Mnemonic::Nop, AddrMode::Implied)
    } else if opcode == OpCode::INS_LDA_IM {
        OpCode::Instruction(Mnemonic::Lda, AddrMode::Immediate)
    } else if opcode == OpCode::INS_LDA_ZP {
        OpCode::Instruction(Mnemonic::Lda, AddrMode::ZeroPage)
    } else if opcode == OpCode::INS_LDA_ZPX {
        OpCode::Instruction(Mnemonic::Lda, AddrMode::ZeroPageX)
    } else if opcode == OpCode::INS_LDA_ABS {
        OpCode::Instruction(Mnemonic::Lda, AddrMode::Absolute)
    } else if opcode == OpCode::INS_LDA_ABSX {
        OpCode::Instruction(Mnemonic::Lda, AddrMode::AbsoluteX)
    } else if opcode == OpCode::INS_LDA_ABSY {
        OpCode::Instruction(Mnemonic::Lda, AddrMode::AbsoluteY)
    } else if opcode == OpCode::INS_LDA_INDX {
        OpCode::Instruction(Mnemonic::Lda, AddrMode::IndirectX)
    } else if opcode == OpCode::INS_LDA_INDY {
        OpCode::Instruction(Mnemonic::Lda, AddrMode::IndirectY)
    } else if opcode == OpCode::INS_LDX_IM {
        OpCode::Instruction(Mnemonic::Ldx, AddrMode::Immediate)
    } else if opcode == OpCode::INS_LDX_ZP {
        OpCode::Instruction(Mnemonic::Ldx, AddrMode::ZeroPage)
    } else if opcode == OpCode::INS_LDX_ZPY {
        OpCode::Instruction(Mnemonic::Ldx, AddrMode::ZeroPageY)
    } else if opcode == OpCode::INS_LDX_ABS {
        OpCode::Instruction(Mnemonic::Ldx, AddrMode::Absolute)
    } else if opcode == OpCode::INS_LDX_ABSY {
        OpCode::Instruction(Mnemonic::Ldx, AddrMode::AbsoluteY)
    } else if opcode == OpCode::INS_LDY_IM {
        OpCode::Instruction(Mnemonic::Ldy, AddrMode::Immediate)
    } else if opcode == OpCode::INS_LDY_ZP {
        OpCode::Instruction(Mnemonic::Ldy, AddrMode::ZeroPage)
    } else if opcode == OpCode::INS_LDY_ZPX {
        OpCode::Instruction(Mnemonic::Ldy, AddrMode::ZeroPageX)
    } else if opcode == OpCode::INS_LDY_ABS {
        OpCode::Instruction(Mnemonic::Ldy, AddrMode::Absolute)
    } else if opcode == OpCode::INS_LDY_ABSX {
        OpCode::Instruction(Mnemonic::Ldy, AddrMode::AbsoluteX)
    } else if opcode == OpCode::INS_STA_ZP {
        OpCode::Instruction(Mnemonic::Sta, AddrMode::ZeroPage)
    } else if opcode == OpCode::INS_STA_ZPX {
        OpCode::Instruction(Mnemonic::Sta, AddrMode::ZeroPageX)
    } else if opcode == OpCode::INS_STA_ABS {
        OpCode::Instruction(Mnemonic::Sta, AddrMode::Absolute)
    } else if opcode == OpCode::INS_STA_ABSX {
        OpCode::Instruction(Mnemonic::Sta, AddrMode::AbsoluteX)
    } else if opcode == OpCode::INS_STA_ABSY {
        OpCode::Instruction(Mnemonic::Sta, AddrMode::AbsoluteY)
    } else if opcode == OpCode::INS_STA_INDX {
        OpCode::Instruction(Mnemonic::Sta, AddrMode::IndirectX)
    } else if opcode == OpCode::INS_STA_INDY {
        OpCode::Instruction(Mnemonic::Sta, AddrMode::IndirectY)
    } else if opcode == OpCode::INS_STX_ZP {
        OpCode::Instruction(Mnemonic::Stx, AddrMode::ZeroPage)
    } else if opcode == OpCode::INS_STX_ZPY {
        OpCode::Instruction(Mnemonic::Stx, AddrMode::ZeroPageY)
    } else if opcode == OpCode::INS_STX_ABS {
        OpCode::Instruction(Mnemonic::Stx, AddrMode::Absolute)
    } else if opcode == OpCode::INS_STY_ZP {
        OpCode::Instruction(Mnemonic::Sty, AddrMode::ZeroPage)
    } else if opcode == OpCode::INS_STY_ZPX {
        OpCode::Instruction(Mnemonic::Sty, AddrMode::ZeroPageX)
    } else if opcode == OpCode::INS_STY_ABS {
        OpCode::Instruction(Mnemonic::Sty, AddrMode::Absolute)
    } else if opcode == OpCode::INS_ADC_IM {
        OpCode::Instruction(Mnemonic::Adc, AddrMode::Immediate)
    } else if opcode == OpCode::INS_ADC_ZP {
        OpCode::Instruction(Mnemonic::Adc, AddrMode::ZeroPage)
    } else if opcode == OpCode::INS_ADC_ZPX {
        OpCode::Instruction(Mnemonic::Adc, AddrMode::ZeroPageX)
    } else if opcode == OpCode::INS_ADC_ABS {
        OpCode::Instruction(Mnemonic::Adc, AddrMode::Absolute)
    } else if opcode == OpCode::INS_ADC_ABSX {
        OpCode::Instruction(Mnemonic::Adc, AddrMode::AbsoluteX)
    } else if opcode == OpCode::INS_ADC_ABSY {
        OpCode::Instruction(Mnemonic::Adc, AddrMode::AbsoluteY)
    } else if opcode == OpCode::INS_ADC_INDX {
        OpCode::Instruction(Mnemonic::Adc, AddrMode::IndirectX)
    } else if opcode == OpCode::INS_ADC_INDY {
        OpCode::Instruction(Mnemonic::Adc, AddrMode::IndirectY)
    } else if opcode == OpCode::INS_SBC_IM {
        OpCode::Instruction(Mnemonic::Sbc, AddrMode::Immediate)
    } else if opcode == OpCode::INS_SBC_ZP {
        OpCode::Instruction(Mnemonic::Sbc, AddrMode::ZeroPage)
    } else if opcode == OpCode::INS_SBC_ZPX {
        OpCode::Instruction(Mnemonic::Sbc, AddrMode::ZeroPageX)
    } else if opcode == OpCode::INS_SBC_ABS {
        OpCode::Instruction(Mnemonic::Sbc, AddrMode::Absolute)
    } else if opcode == OpCode::INS_SBC_ABSX {
        OpCode::Instruction(Mnemonic::Sbc, AddrMode::AbsoluteX)
    } else if opcode == OpCode::INS_SBC_ABSY {
        OpCode::Instruction(Mnemonic::Sbc, AddrMode::AbsoluteY)
    } else if opcode == OpCode::INS_SBC_INDX {
        OpCode::Instruction(Mnemonic::Sbc, AddrMode::IndirectX)
    } else if opcode == OpCode::INS_SBC_INDY {
        OpCode::Instruction(Mnemonic::Sbc, AddrMode::IndirectY)
    } else if opcode == OpCode::INS_AND_IM {
        OpCode::Instruction(Mnemonic::And, AddrMode::Immediate)
    } else if opcode == OpCode::INS_AND_ZP {
        OpCode::Instruction(Mnemonic::And, AddrMode::ZeroPage)
    } else if opcode == OpCode::INS_AND_ZPX {
        OpCode::Instruction(Mnemonic::And, AddrMode::ZeroPageX)
    } else if opcode == OpCode::INS_AND_ABS {
        OpCode::Instruction(Mnemonic::And, AddrMode::Absolute)
    } else if opcode == OpCode::INS_AND_ABSX {
        OpCode::Instruction(Mnemonic::And, AddrMode::AbsoluteX)
    } else if opcode == OpCode::INS_AND_ABSY {
        OpCode::Instruction(Mnemonic::And, AddrMode::AbsoluteY)
    } else if opcode == OpCode::INS_AND_INDX {
        OpCode::Instruction(Mnemonic::And, AddrMode::IndirectX)
    } else if opcode == OpCode::INS_AND_INDY {
        OpCode::Instruction(Mnemonic::And, AddrMode::IndirectY)
    } else if opcode == OpCode::INS_ORA_IM {
        OpCode::Instruction(Mnemonic::Ora, AddrMode::Immediate)
    } else if opcode == OpCode::INS_ORA_ZP {
        OpCode::Instruction(Mnemonic::Ora, AddrMode::ZeroPage)
    } else if opcode == OpCode::INS_ORA_ZPX {
        OpCode::Instruction(Mnemonic::Ora, AddrMode::ZeroPageX)
    } else if opcode == OpCode::INS_ORA_ABS {
        OpCode::Instruction(Mnemonic::Ora, AddrMode::Absolute)
    } else if opcode == OpCode::INS_ORA_ABSX {
        OpCode::Instruction(Mnemonic::Ora, AddrMode::AbsoluteX)
    } else if opcode == OpCode::INS_ORA_ABSY {
        OpCode::Instruction(Mnemonic::Ora, AddrMode::AbsoluteY)
    } else if opcode == OpCode::INS_ORA_INDX {
        OpCode::Instruction(Mnemonic::Ora, AddrMode::IndirectX)
    } else if opcode == OpCode::INS_ORA_INDY {
        OpCode::Instruction(Mnemonic::Ora, AddrMode::IndirectY)
    } else if opcode == OpCode::INS_EOR_IM {
        OpCode::Instruction(Mnemonic::Eor, AddrMode::Immediate)
    } else if opcode == OpCode::INS_EOR_ZP {
        OpCode::Instruction(Mnemonic::Eor, AddrMode::ZeroPage)
    } else if opcode == OpCode::INS_EOR_ZPX {
        OpCode::Instruction(Mnemonic::Eor, AddrMode::ZeroPageX)
    } else if opcode == OpCode::INS_EOR_ABS {
        OpCode::Instruction(Mnemonic::Eor, AddrMode::Absolute)
    } else if opcode == OpCode::INS_EOR_ABSX {
        OpCode::Instruction(Mnemonic::Eor, AddrMode::AbsoluteX)
    } else if opcode == OpCode::INS_EOR_ABSY {
        OpCode::Instruction(Mnemonic::Eor, AddrMode::AbsoluteY)
    } else if opcode == OpCode::INS_EOR_INDX {
        OpCode::Instruction(Mnemonic::Eor, AddrMode::IndirectX)
    } else if opcode == OpCode::INS_EOR_INDY {
        OpCode::Instruction(Mnemonic::Eor, AddrMode::IndirectY)
    } else if opcode == OpCode::INS_ASL_ACC {
        OpCode::Instruction(Mnemonic::Asl, AddrMode::Accumulator)
    } else if opcode == OpCode::INS_ASL_ZP {
        OpCode::Instruction(Mnemonic::Asl, AddrMode::ZeroPage)
    } else if opcode == OpCode::INS_ASL_ZPX {
        OpCode::Instruction(Mnemonic::Asl, AddrMode::ZeroPageX)
    } else if opcode == OpCode::INS_ASL_ABS {
        OpCode::Instruction(Mnemonic::Asl, AddrMode::Absolute)
    } else if opcode == OpCode::INS_ASL_ABSX {
        OpCode::Instruction(Mnemonic::Asl, AddrMode::AbsoluteX)
    } else if opcode == OpCode::INS_LSR_ACC {
        OpCode::Instruction(Mnemonic::Lsr, AddrMode::Accumulator)
    } else if opcode == OpCode::INS_LSR_ZP {
        OpCode::Instruction(Mnemonic::Lsr, AddrMode::ZeroPage)
    } else if opcode == OpCode::INS_LSR_ZPX {
        OpCode::Instruction(Mnemonic::Lsr, AddrMode::ZeroPageX)
    } else if opcode == OpCode::INS_LSR_ABS {
        OpCode::Instruction(Mnemonic::Lsr, AddrMode::Absolute)
    } else if opcode == OpCode::INS_LSR_ABSX {
        OpCode::Instruction(Mnemonic::Lsr, AddrMode::AbsoluteX)
    } else if opcode == OpCode::INS_ROL_ACC {
        OpCode::Instruction(Mnemonic::Rol, AddrMode::Accumulator)
    } else if opcode == OpCode::INS_ROL_ZP {
        OpCode::Instruction(Mnemonic::Rol, AddrMode::ZeroPage)
    } else if opcode == OpCode::INS_ROL_ZPX {
        OpCode::Instruction(Mnemonic::Rol, AddrMode::ZeroPageX)
    } else if opcode == OpCode::INS_ROL_ABS {
        OpCode::Instruction(Mnemonic::Rol, AddrMode::Absolute)
    } else if opcode == OpCode::INS_ROL_ABSX {
        OpCode::Instruction(Mnemonic::Rol, AddrMode::AbsoluteX)
    } else if opcode == OpCode::INS_ROR_ACC {
        OpCode::Instruction(Mnemonic::Ror, AddrMode::Accumulator)
    } else if opcode == OpCode::INS_ROR_ZP {
        OpCode::Instruction(Mnemonic::Ror, AddrMode::ZeroPage)
    } else if opcode == OpCode::INS_ROR_ZPX {
        OpCode::Instruction(Mnemonic::Ror, AddrMode::ZeroPageX)
    } else if opcode == OpCode::INS_ROR_ABS {
        OpCode::Instruction(Mnemonic::Ror, AddrMode::Absolute)
    } else if opcode == OpCode::INS_ROR_ABSX {
        OpCode::Instruction(Mnemonic::Ror, AddrMode::AbsoluteX)
    } else if opcode == OpCode::INS_INC_ZP {
        OpCode::Instruction(Mnemonic::Inc, AddrMode::ZeroPage)
    } else if opcode == OpCode::INS_INC_ZPX {
        OpCode::Instruction(Mnemonic::Inc, AddrMode::ZeroPageX)
    } else if opcode == OpCode::INS_INC_ABS {
        OpCode::Instruction(Mnemonic::Inc, AddrMode::Absolute)
    } else if opcode == OpCode::INS_INC_ABSX {
        OpCode::Instruction(Mnemonic::Inc, AddrMode::AbsoluteX)
    } else if opcode == OpCode::INS_INX {
        OpCode::Instruction(Mnemonic::Inx, AddrMode::Implied)
    } else if opcode == OpCode::INS_INY {
        OpCode::Instruction(Mnemonic::Iny, AddrMode::Implied)
    } else if opcode == OpCode::INS_DEC_ZP {
        OpCode::Instruction(Mnemonic::Dec, AddrMode::ZeroPage)
    } else if opcode == OpCode::INS_DEC_ZPX {
        OpCode::Instruction(Mnemonic::Dec, AddrMode::ZeroPageX)
    } else if opcode == OpCode::INS_DEC_ABS {
        OpCode::Instruction(Mnemonic::Dec, AddrMode::Absolute)
    } else if opcode == OpCode::INS_DEC_ABSX {
        OpCode::Instruction(Mnemonic::Dec, AddrMode::AbsoluteX)
    } else if opcode == OpCode::INS_DEX {
        OpCode::Instruction(Mnemonic::Dex, AddrMode::Implied)
    } else if opcode == OpCode::INS_DEY {
        OpCode::Instruction(Mnemonic::Dey, AddrMode::Implied)
    } else if opcode == OpCode::INS_CMP_IM {
        OpCode::Instruction(Mnemonic::Cmp, AddrMode::Immediate)
    } else if opcode == OpCode::INS_CMP_ZP {
        OpCode::Instruction(Mnemonic::Cmp, AddrMode::ZeroPage)
    } else if opcode == OpCode::INS_CMP_ZPX {
        OpCode::Instruction(Mnemonic::Cmp, AddrMode::ZeroPageX)
    } else if opcode == OpCode::INS_CMP_ABS {
        OpCode::Instruction(Mnemonic::Cmp, AddrMode::Absolute)
    } else if opcode == OpCode::INS_CMP_ABSX {
        OpCode::Instruction(Mnemonic::Cmp, AddrMode::AbsoluteX)
    } else if opcode == OpCode::INS_CMP_ABSY {
        OpCode::Instruction(Mnemonic::Cmp, AddrMode::AbsoluteY)
    } else if opcode == OpCode::INS_CMP_INDX {
        OpCode::Instruction(Mnemonic::Cmp, AddrMode::IndirectX)
    } else if opcode == OpCode::INS_CMP_INDY {
        OpCode::Instruction(Mnemonic::Cmp, AddrMode::IndirectY)
    } else if opcode == OpCode::INS_CPX_IM {
        OpCode::Instruction(Mnemonic::Cpx, AddrMode::Immediate)
    } else if opcode == OpCode::INS_CPX_ZP {
        OpCode::Instruction(Mnemonic::Cpx, AddrMode::ZeroPage)
    } else if opcode == OpCode::INS_CPX_ABS {
        OpCode::Instruction(Mnemonic::Cpx, AddrMode::Absolute)
    } else if opcode == OpCode::INS_CPY_IM {
        OpCode::Instruction(Mnemonic::Cpy, AddrMode::Immediate)
    } else if opcode == OpCode::INS_CPY_ZP {
        OpCode::Instruction(Mnemonic::Cpy, AddrMode::ZeroPage)
    } else if opcode == OpCode::INS_CPY_ABS {
        OpCode::Instruction(Mnemonic::Cpy, AddrMode::Absolute)
    } else if opcode == OpCode::INS_BCC {
        OpCode::Instruction(Mnemonic::Bcc, AddrMode::Relative)
    } else if opcode == OpCode::INS_BCS {
        OpCode::Instruction(Mnemonic::Bcs, AddrMode::Relative)
    } else if opcode == OpCode::INS_BEQ {
        OpCode::Instruction(Mnemonic::Beq, AddrMode::Relative)
    } else if opcode == OpCode::INS_BMI {
        OpCode::Instruction(Mnemonic::Bmi, AddrMode::Relative)
    } else if opcode == OpCode::INS_BNE {
        OpCode::Instruction(Mnemonic::Bne, AddrMode::Relative)
    } else if opcode == OpCode::INS_BPL {
        OpCode::Instruction(Mnemonic::Bpl, AddrMode::Relative)
    } else if opcode == OpCode::INS_BVC {
        OpCode::Instruction(Mnemonic::Bvc, AddrMode::Relative)
    } else if opcode == OpCode::INS_BVS {
        OpCode::Instruction(Mnemonic::Bvs, AddrMode::Relative)
    } else if opcode == OpCode::INS_CLC {
        OpCode::Instruction(Mnemonic::Clc, AddrMode::Implied)
    } else if opcode == OpCode::INS_CLD {
        OpCode::Instruction(Mnemonic::Cld, AddrMode::Implied)
    } else if opcode == OpCode::INS_CLI {
        OpCode::Instruction(Mnemonic::Cli, AddrMode::Implied)
    } else if opcode == OpCode::INS_CLV {
        OpCode::Instruction(Mnemonic::Clv, AddrMode::Implied)
    } else if opcode == OpCode::INS_SEC {
        OpCode::Instruction(Mnemonic::Sec, AddrMode::Implied)
    } else if opcode == OpCode::INS_SED {
        OpCode::Instruction(Mnemonic::Sed, AddrMode::Implied)
    } else if opcode == OpCode::INS_SEI {
        OpCode::Instruction(Mnemonic::Sei, AddrMode::Implied)
    } else if opcode == OpCode::INS_PHA {
        OpCode::Instruction(Mnemonic::Pha, AddrMode::Implied)
    } else if opcode == OpCode::INS_PHP {
        OpCode::Instruction(Mnemonic::Php, AddrMode::Implied)
    } else if opcode == OpCode::INS_PLA {
        OpCode::Instruction(Mnemonic::Pla, AddrMode::Implied)
    } else if opcode == OpCode::INS_PLP {
        OpCode::Instruction(Mnemonic::Plp, AddrMode::Implied)
    } else if opcode == OpCode::INS_TSX {
        OpCode::Instruction(Mnemonic::Tsx, AddrMode::Implied)
    } else if opcode == OpCode::INS_TXS {
        OpCode::Instruction(Mnemonic::Txs, AddrMode::Implied)
    } else if opcode == OpCode::INS_TAX {
        OpCode::Instruction(Mnemonic::Tax, AddrMode::Implied)
    } else if opcode == OpCode::INS_TAY {
        OpCode::Instruction(Mnemonic::Tay, AddrMode::Implied)
    } else if opcode == OpCode::INS_TXA {
        OpCode::Instruction(Mnemonic::Txa, AddrMode::Implied)
    } else if opcode == OpCode::INS_TYA {
        OpCode::Instruction(Mnemonic::Tya, AddrMode::Implied)
    } else if opcode == OpCode::INS_JMP_ABS {
        OpCode::Instruction(Mnemonic::Jmp, AddrMode::Absolute)
    } else if opcode == OpCode::INS_JMP_IND {
        OpCode::Instruction(Mnemonic::Jmp, AddrMode::Indirect)
    } else if opcode == OpCode::INS_RTS {
        OpCode::Instruction(Mnemonic::Rts, AddrMode::Implied)
    } else if opcode == OpCode::INS_RTI {
        OpCode::Instruction(Mnemonic::Rti, AddrMode::Implied)
    } else if opcode == OpCode::INS_BIT_ZP {
        OpCode::Instruction(Mnemonic::Bit, AddrMode::ZeroPage)
    } else if opcode == OpCode::INS_BIT_ABS {
        OpCode::Instruction(Mnemonic::Bit, AddrMode::Absolute)
    } else if opcode == OpCode::INS_BRK {
        OpCode::Instruction(Mnemonic::Brk, AddrMode::Implied)
    } else {
        OpCode::Unknown(opcode)
    }
}

} // verus!
