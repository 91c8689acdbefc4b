//! Decoding of single 6502 instructions into assembler text.
//!
//! An instruction is one opcode byte followed by up to two operand bytes. The
//! decoder renders it as text, reports its length, whether it ends a
//! straight-line run of code, and, for branches, jumps and subroutine calls,
//! the destination address, which it also names through the [`Labeller`].

use vstd::prelude::*;
use crate::labeller::{label_in, with_address, Labeller, Role};
use crate::text::{hex2, hex4, push_hex2, push_hex4};

verus! {

/// How an instruction encodes its operand.
#[derive(Clone, Copy, Debug, PartialEq, Eq, Structural)]
pub enum AddressingMode {
    Implied,
    Accumulator,
    Immediate,
    ZeroPage,
    ZeroPageX,
    ZeroPageY,
    Absolute,
    AbsoluteX,
    AbsoluteY,
    Indirect,
    IndexedIndirect,
    IndirectIndexed,
    Relative,
}

/// A supported opcode: its mnemonic and how its operand is encoded.
#[derive(Clone, Copy, Debug, PartialEq, Eq, Structural)]
pub struct Opcode {
    pub mnemonic: Mnemonic,
    pub mode: AddressingMode,
}

/// The instruction mnemonics of the 6502.
#[derive(Clone, Copy, Debug, PartialEq, Eq, Structural)]
pub enum Mnemonic {
    Adc,
    And,
    Asl,
    Bcc,
    Bcs,
    Beq,
    Bit,
    Bmi,
    Bne,
    Bpl,
    Brk,
    Bvc,
    Bvs,
    Clc,
    Cld,
    Cli,
    Clv,
    Cmp,
    Cpx,
    Cpy,
    Dec,
    Dex,
    Dey,
    Eor,
    Inc,
    Inx,
    Iny,
    Jmp,
    Jsr,
    Lda,
    Ldx,
    Ldy,
    Lsr,
    Nop,
    Ora,
    Pha,
    Php,
    Pla,
    Plp,
    Rol,
    Ror,
    Rti,
    Rts,
    Sbc,
    Sec,
    Sed,
    Sei,
    Sta,
    Stx,
    Sty,
    Tax,
    Tay,
    Tsx,
    Txa,
    Txs,
    Tya,
}

/// The three-letter assembler name of a mnemonic.
pub open spec fn mnemonic_name(m: Mnemonic) -> Seq<char> {
    match m {
        Mnemonic::Adc => "ADC"@,
        Mnemonic::And => "AND"@,
        Mnemonic::Asl => "ASL"@,
        Mnemonic::Bcc => "BCC"@,
        Mnemonic::Bcs => "BCS"@,
        Mnemonic::Beq => "BEQ"@,
        Mnemonic::Bit => "BIT"@,
        Mnemonic::Bmi => "BMI"@,
        Mnemonic::Bne => "BNE"@,
        Mnemonic::Bpl => "BPL"@,
        Mnemonic::Brk => "BRK"@,
        Mnemonic::Bvc => "BVC"@,
        Mnemonic::Bvs => "BVS"@,
        Mnemonic::Clc => "CLC"@,
        Mnemonic::Cld => "CLD"@,
        Mnemonic::Cli => "CLI"@,
        Mnemonic::Clv => "CLV"@,
        Mnemonic::Cmp => "CMP"@,
        Mnemonic::Cpx => "CPX"@,
        Mnemonic::Cpy => "CPY"@,
        Mnemonic::Dec => "DEC"@,
        Mnemonic::Dex => "DEX"@,
        Mnemonic::Dey => "DEY"@,
        Mnemonic::Eor => "EOR"@,
        Mnemonic::Inc => "INC"@,
        Mnemonic::Inx => "INX"@,
        Mnemonic::Iny => "INY"@,
        Mnemonic::Jmp => "JMP"@,
        Mnemonic::Jsr => "JSR"@,
        Mnemonic::Lda => "LDA"@,
        Mnemonic::Ldx => "LDX"@,
        Mnemonic::Ldy => "LDY"@,
        Mnemonic::Lsr => "LSR"@,
        Mnemonic::Nop => "NOP"@,
        Mnemonic::Ora => "ORA"@,
        Mnemonic::Pha => "PHA"@,
        Mnemonic::Php => "PHP"@,
        Mnemonic::Pla => "PLA"@,
        Mnemonic::Plp => "PLP"@,
        Mnemonic::Rol => "ROL"@,
        Mnemonic::Ror => "ROR"@,
        Mnemonic::Rti => "RTI"@,
        Mnemonic::Rts => "RTS"@,
        Mnemonic::Sbc => "SBC"@,
        Mnemonic::Sec => "SEC"@,
        Mnemonic::Sed => "SED"@,
        Mnemonic::Sei => "SEI"@,
        Mnemonic::Sta => "STA"@,
        Mnemonic::Stx => "STX"@,
        Mnemonic::Sty => "STY"@,
        Mnemonic::Tax => "TAX"@,
        Mnemonic::Tay => "TAY"@,
        Mnemonic::Tsx => "TSX"@,
        Mnemonic::Txa => "TXA"@,
        Mnemonic::Txs => "TXS"@,
        Mnemonic::Tya => "TYA"@,
    }
}

/// The assembler name of a mnemonic, as text.
fn mnemonic_str(m: Mnemonic) -> (r: &'static str)
    ensures
        r@ == mnemonic_name(m),
{
    match m {
        Mnemonic::Adc => "ADC",
        Mnemonic::And => "AND",
        Mnemonic::Asl => "ASL",
        Mnemonic::Bcc => "BCC",
        Mnemonic::Bcs => "BCS",
        Mnemonic::Beq => "BEQ",
        Mnemonic::Bit => "BIT",
        Mnemonic::Bmi => "BMI",
        Mnemonic::Bne => "BNE",
        Mnemonic::Bpl => "BPL",
        Mnemonic::Brk => "BRK",
        Mnemonic::Bvc => "BVC",
        Mnemonic::Bvs => "BVS",
        Mnemonic::Clc => "CLC",
        Mnemonic::Cld => "CLD",
        Mnemonic::Cli => "CLI",
        Mnemonic::Clv => "CLV",
        Mnemonic::Cmp => "CMP",
        Mnemonic::Cpx => "CPX",
        Mnemonic::Cpy => "CPY",
        Mnemonic::Dec => "DEC",
        Mnemonic::Dex => "DEX",
        Mnemonic::Dey => "DEY",
        Mnemonic::Eor => "EOR",
        Mnemonic::Inc => "INC",
        Mnemonic::Inx => "INX",
        Mnemonic::Iny => "INY",
        Mnemonic::Jmp => "JMP",
        Mnemonic::Jsr => "JSR",
        Mnemonic::Lda => "LDA",
        Mnemonic::Ldx => "LDX",
        Mnemonic::Ldy => "LDY",
        Mnemonic::Lsr => "LSR",
        Mnemonic::Nop => "NOP",
        Mnemonic::Ora => "ORA",
        Mnemonic::Pha => "PHA",
        Mnemonic::Php => "PHP",
        Mnemonic::Pla => "PLA",
        Mnemonic::Plp => "PLP",
        Mnemonic::Rol => "ROL",
        Mnemonic::Ror => "ROR",
        Mnemonic::Rti => "RTI",
        Mnemonic::Rts => "RTS",
        Mnemonic::Sbc => "SBC",
        Mnemonic::Sec => "SEC",
        Mnemonic::Sed => "SED",
        Mnemonic::Sei => "SEI",
        Mnemonic::Sta => "STA",
        Mnemonic::Stx => "STX",
        Mnemonic::Sty => "STY",
        Mnemonic::Tax => "TAX",
        Mnemonic::Tay => "TAY",
        Mnemonic::Tsx => "TSX",
        Mnemonic::Txa => "TXA",
        Mnemonic::Txs => "TXS",
        Mnemonic::Tya => "TYA",
    }
}

/// The supported opcodes: the documented instruction set of the 6502.
pub open spec fn opcode_table(op: u8) -> Option<Opcode> {
    match op {
        0x00 => Some(Opcode { mnemonic: Mnemonic::Brk, mode: AddressingMode::Implied }),
        0x01 => Some(Opcode { mnemonic: Mnemonic::Ora, mode: AddressingMode::IndexedIndirect }),
        0x05 => Some(Opcode { mnemonic: Mnemonic::Ora, mode: AddressingMode::ZeroPage }),
        0x06 => Some(Opcode { mnemonic: Mnemonic::Asl, mode: AddressingMode::ZeroPage }),
        0x08 => Some(Opcode { mnemonic: Mnemonic::Php, mode: AddressingMode::Implied }),
        0x09 => Some(Opcode { mnemonic: Mnemonic::Ora, mode: AddressingMode::Immediate }),
        0x0A => Some(Opcode { mnemonic: Mnemonic::Asl, mode: AddressingMode::Accumulator }),
        0x0D => Some(Opcode { mnemonic: Mnemonic::Ora, mode: AddressingMode::Absolute }),
        0x0E => Some(Opcode { mnemonic: Mnemonic::Asl, mode: AddressingMode::Absolute }),
        0x10 => Some(Opcode { mnemonic: Mnemonic::Bpl, mode: AddressingMode::Relative }),
        0x11 => Some(Opcode { mnemonic: Mnemonic::Ora, mode: AddressingMode::IndirectIndexed }),
        0x15 => Some(Opcode { mnemonic: Mnemonic::Ora, mode: AddressingMode::ZeroPageX }),
        0x16 => Some(Opcode { mnemonic: Mnemonic::Asl, mode: AddressingMode::ZeroPageX }),
        0x18 => Some(Opcode { mnemonic: Mnemonic::Clc, mode: AddressingMode::Implied }),
        0x19 => Some(Opcode { mnemonic: Mnemonic::Ora, mode: AddressingMode::AbsoluteY }),
        0x1D => Some(Opcode { mnemonic: Mnemonic::Ora, mode: AddressingMode::AbsoluteX }),
        0x1E => Some(Opcode { mnemonic: Mnemonic::Asl, mode: AddressingMode::AbsoluteX }),
        0x20 => Some(Opcode { mnemonic: Mnemonic::Jsr, mode: AddressingMode::Absolute }),
        0x21 => Some(Opcode { mnemonic: Mnemonic::And, mode: AddressingMode::IndexedIndirect }),
        0x24 => Some(Opcode { mnemonic: Mnemonic::Bit, mode: AddressingMode::ZeroPage }),
        0x25 => Some(Opcode { mnemonic: Mnemonic::And, mode: AddressingMode::ZeroPage }),
        0x26 => Some(Opcode { mnemonic: Mnemonic::Rol, mode: AddressingMode::ZeroPage }),
        0x28 => Some(Opcode { mnemonic: Mnemonic::Plp, mode: AddressingMode::Implied }),
        0x29 => Some(Opcode { mnemonic: Mnemonic::And, mode: AddressingMode::Immediate }),
        0x2A => Some(Opcode { mnemonic: Mnemonic::Rol, mode: AddressingMode::Accumulator }),
        0x2C => Some(Opcode { mnemonic: Mnemonic::Bit, mode: AddressingMode::Absolute }),
        0x2D => Some(Opcode { mnemonic: Mnemonic::And, mode: AddressingMode::Absolute }),
        0x2E => Some(Opcode { mnemonic: Mnemonic::Rol, mode: AddressingMode::Absolute }),
        0x30 => Some(Opcode { mnemonic: Mnemonic::Bmi, mode: AddressingMode::Relative }),
        0x31 => Some(Opcode { mnemonic: Mnemonic::And, mode: AddressingMode::IndirectIndexed }),
        0x35 => Some(Opcode { mnemonic: Mnemonic::And, mode: AddressingMode::ZeroPageX }),
        0x36 => Some(Opcode { mnemonic: Mnemonic::Rol, mode: AddressingMode::ZeroPageX }),
        0x38 => Some(Opcode { mnemonic: Mnemonic::Sec, mode: AddressingMode::Implied }),
        0x39 => Some(Opcode { mnemonic: Mnemonic::And, mode: AddressingMode::AbsoluteY }),
        0x3D => Some(Opcode { mnemonic: Mnemonic::And, mode: AddressingMode::AbsoluteX }),
        0x3E => Some(Opcode { mnemonic: Mnemonic::Rol, mode: AddressingMode::AbsoluteX }),
        0x40 => Some(Opcode { mnemonic: Mnemonic::Rti, mode: AddressingMode::Implied }),
        0x41 => Some(Opcode { mnemonic: Mnemonic::Eor, mode: AddressingMode::IndexedIndirect }),
        0x45 => Some(Opcode { mnemonic: Mnemonic::Eor, mode: AddressingMode::ZeroPage }),
        0x46 => Some(Opcode { mnemonic: Mnemonic::Lsr, mode: AddressingMode::ZeroPage }),
        0x48 => Some(Opcode { mnemonic: Mnemonic::Pha, mode: AddressingMode::Implied }),
        0x49 => Some(Opcode { mnemonic: Mnemonic::Eor, mode: AddressingMode::Immediate }),
        0x4A => Some(Opcode { mnemonic: Mnemonic::Lsr, mode: AddressingMode::Accumulator }),
        0x4C => Some(Opcode { mnemonic: Mnemonic::Jmp, mode: AddressingMode::Absolute }),
        0x4D => Some(Opcode { mnemonic: Mnemonic::Eor, mode: AddressingMode::Absolute }),
        0x4E => Some(Opcode { mnemonic: Mnemonic::Lsr, mode: AddressingMode::Absolute }),
        0x50 => Some(Opcode { mnemonic: Mnemonic::Bvc, mode: AddressingMode::Relative }),
        0x51 => Some(Opcode { mnemonic: Mnemonic::Eor, mode: AddressingMode::IndirectIndexed }),
        0x55 => Some(Opcode { mnemonic: Mnemonic::Eor, mode: AddressingMode::ZeroPageX }),
        0x56 => Some(Opcode { mnemonic: Mnemonic::Lsr, mode: AddressingMode::ZeroPageX }),
        0x58 => Some(Opcode { mnemonic: Mnemonic::Cli, mode: AddressingMode::Implied }),
        0x59 => Some(Opcode { mnemonic: Mnemonic::Eor, mode: AddressingMode::AbsoluteY }),
        0x5D => Some(Opcode { mnemonic: Mnemonic::Eor, mode: AddressingMode::AbsoluteX }),
        0x5E => Some(Opcode { mnemonic: Mnemonic::Lsr, mode: AddressingMode::AbsoluteX }),
        0x60 => Some(Opcode { mnemonic: Mnemonic::Rts, mode: AddressingMode::Implied }),
        0x61 => Some(Opcode { mnemonic: Mnemonic::Adc, mode: AddressingMode::IndexedIndirect }),
        0x65 => Some(Opcode { mnemonic: Mnemonic::Adc, mode: AddressingMode::ZeroPage }),
        0x66 => Some(Opcode { mnemonic: Mnemonic::Ror, mode: AddressingMode::ZeroPage }),
        0x68 => Some(Opcode { mnemonic: Mnemonic::Pla, mode: AddressingMode::Implied }),
        0x69 => Some(Opcode { mnemonic: Mnemonic::Adc, mode: AddressingMode::Immediate }),
        0x6A => Some(Opcode { mnemonic: Mnemonic::Ror, mode: AddressingMode::Accumulator }),
        0x6C => Some(Opcode { mnemonic: Mnemonic::Jmp, mode: AddressingMode::Indirect }),
        0x6D => Some(Opcode { mnemonic: Mnemonic::Adc, mode: AddressingMode::Absolute }),
        0x6E => Some(Opcode { mnemonic: Mnemonic::Ror, mode: AddressingMode::Absolute }),
        0x70 => Some(Opcode { mnemonic: Mnemonic::Bvs, mode: AddressingMode::Relative }),
        0x71 => Some(Opcode { mnemonic: Mnemonic::Adc, mode: AddressingMode::IndirectIndexed }),
        0x75 => Some(Opcode { mnemonic: Mnemonic::Adc, mode: AddressingMode::ZeroPageX }),
        0x76 => Some(Opcode { mnemonic: Mnemonic::Ror, mode: AddressingMode::ZeroPageX }),
        0x78 => Some(Opcode { mnemonic: Mnemonic::Sei, mode: AddressingMode::Implied }),
        0x79 => Some(Opcode { mnemonic: Mnemonic::Adc, mode: AddressingMode::AbsoluteY }),
        0x7D => Some(Opcode { mnemonic: Mnemonic::Adc, mode: AddressingMode::AbsoluteX }),
        0x7E => Some(Opcode { mnemonic: Mnemonic::Ror, mode: AddressingMode::AbsoluteX }),
        0x81 => Some(Opcode { mnemonic: Mnemonic::Sta, mode: AddressingMode::IndexedIndirect }),
        0x84 => Some(Opcode { mnemonic: Mnemonic::Sty, mode: AddressingMode::ZeroPage }),
        0x85 => Some(Opcode { mnemonic: Mnemonic::Sta, mode: AddressingMode::ZeroPage }),
        0x86 => Some(Opcode { mnemonic: Mnemonic::Stx, mode: AddressingMode::ZeroPage }),
        0x88 => Some(Opcode { mnemonic: Mnemonic::Dey, mode: AddressingMode::Implied }),
        0x8A => Some(Opcode { mnemonic: Mnemonic::Txa, mode: AddressingMode::Implied }),
        0x8C => Some(Opcode { mnemonic: Mnemonic::Sty, mode: AddressingMode::Absolute }),
        0x8D => Some(Opcode { mnemonic: Mnemonic::Sta, mode: AddressingMode::Absolute }),
        0x8E => Some(Opcode { mnemonic: Mnemonic::Stx, mode: AddressingMode::Absolute }),
        0x90 => Some(Opcode { mnemonic: Mnemonic::Bcc, mode: AddressingMode::Relative }),
        0x91 => Some(Opcode { mnemonic: Mnemonic::Sta, mode: AddressingMode::IndirectIndexed }),
        0x94 => Some(Opcode { mnemonic: Mnemonic::Sty, mode: AddressingMode::ZeroPageX }),
        0x95 => Some(Opcode { mnemonic: Mnemonic::Sta, mode: AddressingMode::ZeroPageX }),
        0x96 => Some(Opcode { mnemonic: Mnemonic::Stx, mode: AddressingMode::ZeroPageY }),
        0x98 => Some(Opcode { mnemonic: Mnemonic::Tya, mode: AddressingMode::Implied }),
        0x99 => Some(Opcode { mnemonic: Mnemonic::Sta, mode: AddressingMode::AbsoluteY }),
        0x9A => Some(Opcode { mnemonic: Mnemonic::Txs, mode: AddressingMode::Implied }),
        0x9D => Some(Opcode { mnemonic: Mnemonic::Sta, mode: AddressingMode::AbsoluteX }),
        0xA0 => Some(Opcode { mnemonic: Mnemonic::Ldy, mode: AddressingMode::Immediate }),
        0xA1 => Some(Opcode { mnemonic: Mnemonic::Lda, mode: AddressingMode::IndexedIndirect }),
        0xA2 => Some(Opcode { mnemonic: Mnemonic::Ldx, mode: AddressingMode::Immediate }),
        0xA4 => Some(Opcode { mnemonic: Mnemonic::Ldy, mode: AddressingMode::ZeroPage }),
        0xA5 => Some(Opcode { mnemonic: Mnemonic::Lda, mode: AddressingMode::ZeroPage }),
        0xA6 => Some(Opcode { mnemonic: Mnemonic::Ldx, mode: AddressingMode::ZeroPage }),
        0xA8 => Some(Opcode { mnemonic: Mnemonic::Tay, mode: AddressingMode::Implied }),
        0xA9 => Some(Opcode { mnemonic: Mnemonic::Lda, mode: AddressingMode::Immediate }),
        0xAA => Some(Opcode { mnemonic: Mnemonic::Tax, mode: AddressingMode::Implied }),
        0xAC => Some(Opcode { mnemonic: Mnemonic::Ldy, mode: AddressingMode::Absolute }),
        0xAD => Some(Opcode { mnemonic: Mnemonic::Lda, mode: AddressingMode::Absolute }),
        0xAE => Some(Opcode { mnemonic: Mnemonic::Ldx, mode: AddressingMode::Absolute }),
        0xB0 => Some(Opcode { mnemonic: Mnemonic::Bcs, mode: AddressingMode::Relative }),
        0xB1 => Some(Opcode { mnemonic: Mnemonic::Lda, mode: AddressingMode::IndirectIndexed }),
        0xB4 => Some(Opcode { mnemonic: Mnemonic::Ldy, mode: AddressingMode::ZeroPageX }),
        0xB5 => Some(Opcode { mnemonic: Mnemonic::Lda, mode: AddressingMode::ZeroPageX }),
        0xB6 => Some(Opcode { mnemonic: Mnemonic::Ldx, mode: AddressingMode::ZeroPageY }),
        0xB8 => Some(Opcode { mnemonic: Mnemonic::Clv, mode: AddressingMode::Implied }),
        0xB9 => Some(Opcode { mnemonic: Mnemonic::Lda, mode: AddressingMode::AbsoluteY }),
        0xBA => Some(Opcode { mnemonic: Mnemonic::Tsx, mode: AddressingMode::Implied }),
        0xBC => Some(Opcode { mnemonic: Mnemonic::Ldy, mode: AddressingMode::AbsoluteX }),
        0xBD => Some(Opcode { mnemonic: Mnemonic::Lda, mode: AddressingMode::AbsoluteX }),
        0xBE => Some(Opcode { mnemonic: Mnemonic::Ldx, mode: AddressingMode::AbsoluteY }),
        0xC0 => Some(Opcode { mnemonic: Mnemonic::Cpy, mode: AddressingMode::Immediate }),
        0xC1 => Some(Opcode { mnemonic: Mnemonic::Cmp, mode: AddressingMode::IndexedIndirect }),
        0xC4 => Some(Opcode { mnemonic: Mnemonic::Cpy, mode: AddressingMode::ZeroPage }),
        0xC5 => Some(Opcode { mnemonic: Mnemonic::Cmp, mode: AddressingMode::ZeroPage }),
        0xC6 => Some(Opcode { mnemonic: Mnemonic::Dec, mode: AddressingMode::ZeroPage }),
        0xC8 => Some(Opcode { mnemonic: Mnemonic::Iny, mode: AddressingMode::Implied }),
        0xC9 => Some(Opcode { mnemonic: Mnemonic::Cmp, mode: AddressingMode::Immediate }),
        0xCA => Some(Opcode { mnemonic: Mnemonic::Dex, mode: AddressingMode::Implied }),
        0xCC => Some(Opcode { mnemonic: Mnemonic::Cpy, mode: AddressingMode::Absolute }),
        0xCD => Some(Opcode { mnemonic: Mnemonic::Cmp, mode: AddressingMode::Absolute }),
        0xCE => Some(Opcode { mnemonic: Mnemonic::Dec, mode: AddressingMode::Absolute }),
        0xD0 => Some(Opcode { mnemonic: Mnemonic::Bne, mode: AddressingMode::Relative }),
        0xD1 => Some(Opcode { mnemonic: Mnemonic::Cmp, mode: AddressingMode::IndirectIndexed }),
        0xD5 => Some(Opcode { mnemonic: Mnemonic::Cmp, mode: AddressingMode::ZeroPageX }),
        0xD6 => Some(Opcode { mnemonic: Mnemonic::Dec, mode: AddressingMode::ZeroPageX }),
        0xD8 => Some(Opcode { mnemonic: Mnemonic::Cld, mode: AddressingMode::Implied }),
        0xD9 => Some(Opcode { mnemonic: Mnemonic::Cmp, mode: AddressingMode::AbsoluteY }),
        0xDD => Some(Opcode { mnemonic: Mnemonic::Cmp, mode: AddressingMode::AbsoluteX }),
        0xDE => Some(Opcode { mnemonic: Mnemonic::Dec, mode: AddressingMode::AbsoluteX }),
        0xE0 => Some(Opcode { mnemonic: Mnemonic::Cpx, mode: AddressingMode::Immediate }),
        0xE1 => Some(Opcode { mnemonic: Mnemonic::Sbc, mode: AddressingMode::IndexedIndirect }),
        0xE4 => Some(Opcode { mnemonic: Mnemonic::Cpx, mode: AddressingMode::ZeroPage }),
        0xE5 => Some(Opcode { mnemonic: Mnemonic::Sbc, mode: AddressingMode::ZeroPage }),
        0xE6 => Some(Opcode { mnemonic: Mnemonic::Inc, mode: AddressingMode::ZeroPage }),
        0xE8 => Some(Opcode { mnemonic: Mnemonic::Inx, mode: AddressingMode::Implied }),
        0xE9 => Some(Opcode { mnemonic: Mnemonic::Sbc, mode: AddressingMode::Immediate }),
        0xEA => Some(Opcode { mnemonic: Mnemonic::Nop, mode: AddressingMode::Implied }),
        0xEC => Some(Opcode { mnemonic: Mnemonic::Cpx, mode: AddressingMode::Absolute }),
        0xED => Some(Opcode { mnemonic: Mnemonic::Sbc, mode: AddressingMode::Absolute }),
        0xEE => Some(Opcode { mnemonic: Mnemonic::Inc, mode: AddressingMode::Absolute }),
        0xF0 => Some(Opcode { mnemonic: Mnemonic::Beq, mode: AddressingMode::Relative }),
        0xF1 => Some(Opcode { mnemonic: Mnemonic::Sbc, mode: AddressingMode::IndirectIndexed }),
        0xF5 => Some(Opcode { mnemonic: Mnemonic::Sbc, mode: AddressingMode::ZeroPageX }),
        0xF6 => Some(Opcode { mnemonic: Mnemonic::Inc, mode: AddressingMode::ZeroPageX }),
        0xF8 => Some(Opcode { mnemonic: Mnemonic::Sed, mode: AddressingMode::Implied }),
        0xF9 => Some(Opcode { mnemonic: Mnemonic::Sbc, mode: AddressingMode::AbsoluteY }),
        0xFD => Some(Opcode { mnemonic: Mnemonic::Sbc, mode: AddressingMode::AbsoluteX }),
        0xFE => Some(Opcode { mnemonic: Mnemonic::Inc, mode: AddressingMode::AbsoluteX }),
        _ => None,
    }
}

/// The mnemonic and addressing mode of an opcode byte, if it is supported.
pub fn lookup_opcode(op: u8) -> (r: Option<Opcode>)
    ensures
        r == opcode_table(op),
{
    match op {
        0x00 => Some(Opcode { mnemonic: Mnemonic::Brk, mode: AddressingMode::Implied }),
        0x01 => Some(Opcode { mnemonic: Mnemonic::Ora, mode: AddressingMode::IndexedIndirect }),
        0x05 => Some(Opcode { mnemonic: Mnemonic::Ora, mode: AddressingMode::ZeroPage }),
        0x06 => Some(Opcode { mnemonic: Mnemonic::Asl, mode: AddressingMode::ZeroPage }),
        0x08 => Some(Opcode { mnemonic: Mnemonic::Php, mode: AddressingMode::Implied }),
        0x09 => Some(Opcode { mnemonic: Mnemonic::Ora, mode: AddressingMode::Immediate }),
        0x0A => Some(Opcode { mnemonic: Mnemonic::Asl, mode: AddressingMode::Accumulator }),
        0x0D => Some(Opcode { mnemonic: Mnemonic::Ora, mode: AddressingMode::Absolute }),
        0x0E => Some(Opcode { mnemonic: Mnemonic::Asl, mode: AddressingMode::Absolute }),
        0x10 => Some(Opcode { mnemonic: Mnemonic::Bpl, mode: AddressingMode::Relative }),
        0x11 => Some(Opcode { mnemonic: Mnemonic::Ora, mode: AddressingMode::IndirectIndexed }),
        0x15 => Some(Opcode { mnemonic: Mnemonic::Ora, mode: AddressingMode::ZeroPageX }),
        0x16 => Some(Opcode { mnemonic: Mnemonic::Asl, mode: AddressingMode::ZeroPageX }),
        0x18 => Some(Opcode { mnemonic: Mnemonic::Clc, mode: AddressingMode::Implied }),
        0x19 => Some(Opcode { mnemonic: Mnemonic::Ora, mode: AddressingMode::AbsoluteY }),
        0x1D => Some(Opcode { mnemonic: Mnemonic::Ora, mode: AddressingMode::AbsoluteX }),
        0x1E => Some(Opcode { mnemonic: Mnemonic::Asl, mode: AddressingMode::AbsoluteX }),
        0x20 => Some(Opcode { mnemonic: Mnemonic::Jsr, mode: AddressingMode::Absolute }),
        0x21 => Some(Opcode { mnemonic: Mnemonic::And, mode: AddressingMode::IndexedIndirect }),
        0x24 => Some(Opcode { mnemonic: Mnemonic::Bit, mode: AddressingMode::ZeroPage }),
        0x25 => Some(Opcode { mnemonic: Mnemonic::And, mode: AddressingMode::ZeroPage }),
        0x26 => Some(Opcode { mnemonic: Mnemonic::Rol, mode: AddressingMode::ZeroPage }),
        0x28 => Some(Opcode { mnemonic: Mnemonic::Plp, mode: AddressingMode::Implied }),
        0x29 => Some(Opcode { mnemonic: Mnemonic::And, mode: AddressingMode::Immediate }),
        0x2A => Some(Opcode { mnemonic: Mnemonic::Rol, mode: AddressingMode::Accumulator }),
        0x2C => Some(Opcode { mnemonic: Mnemonic::Bit, mode: AddressingMode::Absolute }),
        0x2D => Some(Opcode { mnemonic: Mnemonic::And, mode: AddressingMode::Absolute }),
        0x2E => Some(Opcode { mnemonic: Mnemonic::Rol, mode: AddressingMode::Absolute }),
        0x30 => Some(Opcode { mnemonic: Mnemonic::Bmi, mode: AddressingMode::Relative }),
        0x31 => Some(Opcode { mnemonic: Mnemonic::And, mode: AddressingMode::IndirectIndexed }),
        0x35 => Some(Opcode { mnemonic: Mnemonic::And, mode: AddressingMode::ZeroPageX }),
        0x36 => Some(Opcode { mnemonic: Mnemonic::Rol, mode: AddressingMode::ZeroPageX }),
        0x38 => Some(Opcode { mnemonic: Mnemonic::Sec, mode: AddressingMode::Implied }),
        0x39 => Some(Opcode { mnemonic: Mnemonic::And, mode: AddressingMode::AbsoluteY }),
        0x3D => Some(Opcode { mnemonic: Mnemonic::And, mode: AddressingMode::AbsoluteX }),
        0x3E => Some(Opcode { mnemonic: Mnemonic::Rol, mode: AddressingMode::AbsoluteX }),
        0x40 => Some(Opcode { mnemonic: Mnemonic::Rti, mode: AddressingMode::Implied }),
        0x41 => Some(Opcode { mnemonic: Mnemonic::Eor, mode: AddressingMode::IndexedIndirect }),
        0x45 => Some(Opcode { mnemonic: Mnemonic::Eor, mode: AddressingMode::ZeroPage }),
        0x46 => Some(Opcode { mnemonic: Mnemonic::Lsr, mode: AddressingMode::ZeroPage }),
        0x48 => Some(Opcode { mnemonic: Mnemonic::Pha, mode: AddressingMode::Implied }),
        0x49 => Some(Opcode { mnemonic: Mnemonic::Eor, mode: AddressingMode::Immediate }),
        0x4A => Some(Opcode { mnemonic: Mnemonic::Lsr, mode: AddressingMode::Accumulator }),
        0x4C => Some(Opcode { mnemonic: Mnemonic::Jmp, mode: AddressingMode::Absolute }),
        0x4D => Some(Opcode { mnemonic: Mnemonic::Eor, mode: AddressingMode::Absolute }),
        0x4E => Some(Opcode { mnemonic: Mnemonic::Lsr, mode: AddressingMode::Absolute }),
        0x50 => Some(Opcode { mnemonic: Mnemonic::Bvc, mode: AddressingMode::Relative }),
        0x51 => Some(Opcode { mnemonic: Mnemonic::Eor, mode: AddressingMode::IndirectIndexed }),
        0x55 => Some(Opcode { mnemonic: Mnemonic::Eor, mode: AddressingMode::ZeroPageX }),
        0x56 => Some(Opcode { mnemonic: Mnemonic::Lsr, mode: AddressingMode::ZeroPageX }),
        0x58 => Some(Opcode { mnemonic: Mnemonic::Cli, mode: AddressingMode::Implied }),
        0x59 => Some(Opcode { mnemonic: Mnemonic::Eor, mode: AddressingMode::AbsoluteY }),
        0x5D => Some(Opcode { mnemonic: Mnemonic::Eor, mode: AddressingMode::AbsoluteX }),
        0x5E => Some(Opcode { mnemonic: Mnemonic::Lsr, mode: AddressingMode::AbsoluteX }),
        0x60 => Some(Opcode { mnemonic: Mnemonic::Rts, mode: AddressingMode::Implied }),
        0x61 => Some(Opcode { mnemonic: Mnemonic::Adc, mode: AddressingMode::IndexedIndirect }),
        0x65 => Some(Opcode { mnemonic: Mnemonic::Adc, mode: AddressingMode::ZeroPage }),
        0x66 => Some(Opcode { mnemonic: Mnemonic::Ror, mode: AddressingMode::ZeroPage }),
        0x68 => Some(Opcode { mnemonic: Mnemonic::Pla, mode: AddressingMode::Implied }),
        0x69 => Some(Opcode { mnemonic: Mnemonic::Adc, mode: AddressingMode::Immediate }),
        0x6A => Some(Opcode { mnemonic: Mnemonic::Ror, mode: AddressingMode::Accumulator }),
        0x6C => Some(Opcode { mnemonic: Mnemonic::Jmp, mode: AddressingMode::Indirect }),
        0x6D => Some(Opcode { mnemonic: Mnemonic::Adc, mode: AddressingMode::Absolute }),
        0x6E => Some(Opcode { mnemonic: Mnemonic::Ror, mode: AddressingMode::Absolute }),
        0x70 => Some(Opcode { mnemonic: Mnemonic::Bvs, mode: AddressingMode::Relative }),
        0x71 => Some(Opcode { mnemonic: Mnemonic::Adc, mode: AddressingMode::IndirectIndexed }),
        0x75 => Some(Opcode { mnemonic: Mnemonic::Adc, mode: AddressingMode::ZeroPageX }),
        0x76 => Some(Opcode { mnemonic: Mnemonic::Ror, mode: AddressingMode::ZeroPageX }),
        0x78 => Some(Opcode { mnemonic: Mnemonic::Sei, mode: AddressingMode::Implied }),
        0x79 => Some(Opcode { mnemonic: Mnemonic::Adc, mode: AddressingMode::AbsoluteY }),
        0x7D => Some(Opcode { mnemonic: Mnemonic::Adc, mode: AddressingMode::AbsoluteX }),
        0x7E => Some(Opcode { mnemonic: Mnemonic::Ror, mode: AddressingMode::AbsoluteX }),
        0x81 => Some(Opcode { mnemonic: Mnemonic::Sta, mode: AddressingMode::IndexedIndirect }),
        0x84 => Some(Opcode { mnemonic: Mnemonic::Sty, mode: AddressingMode::ZeroPage }),
        0x85 => Some(Opcode { mnemonic: Mnemonic::Sta, mode: AddressingMode::ZeroPage }),
        0x86 => Some(Opcode { mnemonic: Mnemonic::Stx, mode: AddressingMode::ZeroPage }),
        0x88 => Some(Opcode { mnemonic: Mnemonic::Dey, mode: AddressingMode::Implied }),
        0x8A => Some(Opcode { mnemonic: Mnemonic::Txa, mode: AddressingMode::Implied }),
        0x8C => Some(Opcode { mnemonic: Mnemonic::Sty, mode: AddressingMode::Absolute }),
        0x8D => Some(Opcode { mnemonic: Mnemonic::Sta, mode: AddressingMode::Absolute }),
        0x8E => Some(Opcode { mnemonic: Mnemonic::Stx, mode: AddressingMode::Absolute }),
        0x90 => Some(Opcode { mnemonic: Mnemonic::Bcc, mode: AddressingMode::Relative }),
        0x91 => Some(Opcode { mnemonic: Mnemonic::Sta, mode: AddressingMode::IndirectIndexed }),
        0x94 => Some(Opcode { mnemonic: Mnemonic::Sty, mode: AddressingMode::ZeroPageX }),
        0x95 => Some(Opcode { mnemonic: Mnemonic::Sta, mode: AddressingMode::ZeroPageX }),
        0x96 => Some(Opcode { mnemonic: Mnemonic::Stx, mode: AddressingMode::ZeroPageY }),
        0x98 => Some(Opcode { mnemonic: Mnemonic::Tya, mode: AddressingMode::Implied }),
        0x99 => Some(Opcode { mnemonic: Mnemonic::Sta, mode: AddressingMode::AbsoluteY }),
        0x9A => Some(Opcode { mnemonic: Mnemonic::Txs, mode: AddressingMode::Implied }),
        0x9D => Some(Opcode { mnemonic: Mnemonic::Sta, mode: AddressingMode::AbsoluteX }),
        0xA0 => Some(Opcode { mnemonic: Mnemonic::Ldy, mode: AddressingMode::Immediate }),
        0xA1 => Some(Opcode { mnemonic: Mnemonic::Lda, mode: AddressingMode::IndexedIndirect }),
        0xA2 => Some(Opcode { mnemonic: Mnemonic::Ldx, mode: AddressingMode::Immediate }),
        0xA4 => Some(Opcode { mnemonic: Mnemonic::Ldy, mode: AddressingMode::ZeroPage }),
        0xA5 => Some(Opcode { mnemonic: Mnemonic::Lda, mode: AddressingMode::ZeroPage }),
        0xA6 => Some(Opcode { mnemonic: Mnemonic::Ldx, mode: AddressingMode::ZeroPage }),
        0xA8 => Some(Opcode { mnemonic: Mnemonic::Tay, mode: AddressingMode::Implied }),
        0xA9 => Some(Opcode { mnemonic: Mnemonic::Lda, mode: AddressingMode::Immediate }),
        0xAA => Some(Opcode { mnemonic: Mnemonic::Tax, mode: AddressingMode::Implied }),
        0xAC => Some(Opcode { mnemonic: Mnemonic::Ldy, mode: AddressingMode::Absolute }),
        0xAD => Some(Opcode { mnemonic: Mnemonic::Lda, mode: AddressingMode::Absolute }),
        0xAE => Some(Opcode { mnemonic: Mnemonic::Ldx, mode: AddressingMode::Absolute }),
        0xB0 => Some(Opcode { mnemonic: Mnemonic::Bcs, mode: AddressingMode::Relative }),
        0xB1 => Some(Opcode { mnemonic: Mnemonic::Lda, mode: AddressingMode::IndirectIndexed }),
        0xB4 => Some(Opcode { mnemonic: Mnemonic::Ldy, mode: AddressingMode::ZeroPageX }),
        0xB5 => Some(Opcode { mnemonic: Mnemonic::Lda, mode: AddressingMode::ZeroPageX }),
        0xB6 => Some(Opcode { mnemonic: Mnemonic::Ldx, mode: AddressingMode::ZeroPageY }),
        0xB8 => Some(Opcode { mnemonic: Mnemonic::Clv, mode: AddressingMode::Implied }),
        0xB9 => Some(Opcode { mnemonic: Mnemonic::Lda, mode: AddressingMode::AbsoluteY }),
        0xBA => Some(Opcode { mnemonic: Mnemonic::Tsx, mode: AddressingMode::Implied }),
        0xBC => Some(Opcode { mnemonic: Mnemonic::Ldy, mode: AddressingMode::AbsoluteX }),
        0xBD => Some(Opcode { mnemonic: Mnemonic::Lda, mode: AddressingMode::AbsoluteX }),
        0xBE => Some(Opcode { mnemonic: Mnemonic::Ldx, mode: AddressingMode::AbsoluteY }),
        0xC0 => Some(Opcode { mnemonic: Mnemonic::Cpy, mode: AddressingMode::Immediate }),
        0xC1 => Some(Opcode { mnemonic: Mnemonic::Cmp, mode: AddressingMode::IndexedIndirect }),
        0xC4 => Some(Opcode { mnemonic: Mnemonic::Cpy, mode: AddressingMode::ZeroPage }),
        0xC5 => Some(Opcode { mnemonic: Mnemonic::Cmp, mode: AddressingMode::ZeroPage }),
        0xC6 => Some(Opcode { mnemonic: Mnemonic::Dec, mode: AddressingMode::ZeroPage }),
        0xC8 => Some(Opcode { mnemonic: Mnemonic::Iny, mode: AddressingMode::Implied }),
        0xC9 => Some(Opcode { mnemonic: Mnemonic::Cmp, mode: AddressingMode::Immediate }),
        0xCA => Some(Opcode { mnemonic: Mnemonic::Dex, mode: AddressingMode::Implied }),
        0xCC => Some(Opcode { mnemonic: Mnemonic::Cpy, mode: AddressingMode::Absolute }),
        0xCD => Some(Opcode { mnemonic: Mnemonic::Cmp, mode: AddressingMode::Absolute }),
        0xCE => Some(Opcode { mnemonic: Mnemonic::Dec, mode: AddressingMode::Absolute }),
        0xD0 => Some(Opcode { mnemonic: Mnemonic::Bne, mode: AddressingMode::Relative }),
        0xD1 => Some(Opcode { mnemonic: Mnemonic::Cmp, mode: AddressingMode::IndirectIndexed }),
        0xD5 => Some(Opcode { mnemonic: Mnemonic::Cmp, mode: AddressingMode::ZeroPageX }),
        0xD6 => Some(Opcode { mnemonic: Mnemonic::Dec, mode: AddressingMode::ZeroPageX }),
        0xD8 => Some(Opcode { mnemonic: Mnemonic::Cld, mode: AddressingMode::Implied }),
        0xD9 => Some(Opcode { mnemonic: Mnemonic::Cmp, mode: AddressingMode::AbsoluteY }),
        0xDD => Some(Opcode { mnemonic: Mnemonic::Cmp, mode: AddressingMode::AbsoluteX }),
        0xDE => Some(Opcode { mnemonic: Mnemonic::Dec, mode: AddressingMode::AbsoluteX }),
        0xE0 => Some(Opcode { mnemonic: Mnemonic::Cpx, mode: AddressingMode::Immediate }),
        0xE1 => Some(Opcode { mnemonic: Mnemonic::Sbc, mode: AddressingMode::IndexedIndirect }),
        0xE4 => Some(Opcode { mnemonic: Mnemonic::Cpx, mode: AddressingMode::ZeroPage }),
        0xE5 => Some(Opcode { mnemonic: Mnemonic::Sbc, mode: AddressingMode::ZeroPage }),
        0xE6 => Some(Opcode { mnemonic: Mnemonic::Inc, mode: AddressingMode::ZeroPage }),
        0xE8 => Some(Opcode { mnemonic: Mnemonic::Inx, mode: AddressingMode::Implied }),
        0xE9 => Some(Opcode { mnemonic: Mnemonic::Sbc, mode: AddressingMode::Immediate }),
        0xEA => Some(Opcode { mnemonic: Mnemonic::Nop, mode: AddressingMode::Implied }),
        0xEC => Some(Opcode { mnemonic: Mnemonic::Cpx, mode: AddressingMode::Absolute }),
        0xED => Some(Opcode { mnemonic: Mnemonic::Sbc, mode: AddressingMode::Absolute }),
        0xEE => Some(Opcode { mnemonic: Mnemonic::Inc, mode: AddressingMode::Absolute }),
        0xF0 => Some(Opcode { mnemonic: Mnemonic::Beq, mode: AddressingMode::Relative }),
        0xF1 => Some(Opcode { mnemonic: Mnemonic::Sbc, mode: AddressingMode::IndirectIndexed }),
        0xF5 => Some(Opcode { mnemonic: Mnemonic::Sbc, mode: AddressingMode::ZeroPageX }),
        0xF6 => Some(Opcode { mnemonic: Mnemonic::Inc, mode: AddressingMode::ZeroPageX }),
        0xF8 => Some(Opcode { mnemonic: Mnemonic::Sed, mode: AddressingMode::Implied }),
        0xF9 => Some(Opcode { mnemonic: Mnemonic::Sbc, mode: AddressingMode::AbsoluteY }),
        0xFD => Some(Opcode { mnemonic: Mnemonic::Sbc, mode: AddressingMode::AbsoluteX }),
        0xFE => Some(Opcode { mnemonic: Mnemonic::Inc, mode: AddressingMode::AbsoluteX }),
        _ => None,
    }
}

/// The name of a memory-mapped hardware register, for the addresses that have one.
pub open spec fn register_name(address: u16) -> Option<Seq<char>> {
    match address {
        0x2000 => Some("PpuControl_2000"@),
        0x2001 => Some("PpuMask_2001"@),
        0x2002 => Some("PpuStatus_2002"@),
        0x2003 => Some("OamAddr_2003"@),
        0x2004 => Some("OamData_2004"@),
        0x2005 => Some("PpuScroll_2005"@),
        0x2006 => Some("PpuAddr_2006"@),
        0x2007 => Some("PpuData_2007"@),
        0x4000 => Some("Sq0Duty_4000"@),
        0x4001 => Some("Sq0Sweep_4001"@),
        0x4002 => Some("Sq0Timer_4002"@),
        0x4003 => Some("Sq0Length_4003"@),
        0x4004 => Some("Sq1Duty_4004"@),
        0x4005 => Some("Sq1Sweep_4005"@),
        0x4006 => Some("Sq1Timer_4006"@),
        0x4007 => Some("Sq1Length_4007"@),
        0x4008 => Some("TrgLinear_4008"@),
        0x400A => Some("TrgTimer_400A"@),
        0x400B => Some("TrgLength_400B"@),
        0x400C => Some("NoiseVolume_400C"@),
        0x400E => Some("NoisePeriod_400E"@),
        0x400F => Some("NoiseLength_400F"@),
        0x4010 => Some("DmcFreq_4010"@),
        0x4011 => Some("DmcCounter_4011"@),
        0x4012 => Some("DmcAddress_4012"@),
        0x4013 => Some("DmcLength_4013"@),
        0x4014 => Some("SpriteDma_4014"@),
        0x4015 => Some("ApuStatus_4015"@),
        0x4016 => Some("Ctrl1_4016"@),
        0x4017 => Some("Ctrl2_FrameCtr_4017"@),
        _ => None,
    }
}

/// The register name of an address, as text.
fn register_str(address: u16) -> (r: Option<&'static str>)
    ensures
        r matches Some(s) ==> register_name(address) == Some(s@),
        r is None ==> register_name(address) is None,
{
    match address {
        0x2000 => Some("PpuControl_2000"),
        0x2001 => Some("PpuMask_2001"),
        0x2002 => Some("PpuStatus_2002"),
        0x2003 => Some("OamAddr_2003"),
        0x2004 => Some("OamData_2004"),
        0x2005 => Some("PpuScroll_2005"),
        0x2006 => Some("PpuAddr_2006"),
        0x2007 => Some("PpuData_2007"),
        0x4000 => Some("Sq0Duty_4000"),
        0x4001 => Some("Sq0Sweep_4001"),
        0x4002 => Some("Sq0Timer_4002"),
        0x4003 => Some("Sq0Length_4003"),
        0x4004 => Some("Sq1Duty_4004"),
        0x4005 => Some("Sq1Sweep_4005"),
        0x4006 => Some("Sq1Timer_4006"),
        0x4007 => Some("Sq1Length_4007"),
        0x4008 => Some("TrgLinear_4008"),
        0x400A => Some("TrgTimer_400A"),
        0x400B => Some("TrgLength_400B"),
        0x400C => Some("NoiseVolume_400C"),
        0x400E => Some("NoisePeriod_400E"),
        0x400F => Some("NoiseLength_400F"),
        0x4010 => Some("DmcFreq_4010"),
        0x4011 => Some("DmcCounter_4011"),
        0x4012 => Some("DmcAddress_4012"),
        0x4013 => Some("DmcLength_4013"),
        0x4014 => Some("SpriteDma_4014"),
        0x4015 => Some("ApuStatus_4015"),
        0x4016 => Some("Ctrl1_4016"),
        0x4017 => Some("Ctrl2_FrameCtr_4017"),
        _ => None,
    }
}

/// The byte length of an instruction in a given addressing mode.
pub open spec fn mode_length(mode: AddressingMode) -> nat {
    match mode {
        AddressingMode::Implied | AddressingMode::Accumulator => 1,
        AddressingMode::Absolute
        | AddressingMode::AbsoluteX
        | AddressingMode::AbsoluteY
        | AddressingMode::Indirect => 3,
        _ => 2,
    }
}

/// The byte length of the instruction starting with `op`; an unsupported
/// opcode counts as one byte.
pub open spec fn instruction_length(op: u8) -> nat {
    match opcode_table(op) {
        Some(e) => mode_length(e.mode),
        None => 1,
    }
}

/// Whether the instruction starting with `op` ends a straight-line run: the
/// two returns, the absolute jump, and any unsupported opcode.
pub open spec fn ends_run(op: u8) -> bool {
    match opcode_table(op) {
        Some(e) => e.mnemonic == Mnemonic::Rts || e.mnemonic == Mnemonic::Rti || (e.mnemonic
            == Mnemonic::Jmp && e.mode == AddressingMode::Absolute),
        None => true,
    }
}

/// The role under which the destination of a control transfer is labelled:
/// branches, the subroutine call and the absolute jump.
pub open spec fn label_role(e: Opcode) -> Option<Role> {
    if e.mode == AddressingMode::Relative {
        Some(Role::BranchTarget)
    } else if e.mode == AddressingMode::Absolute && e.mnemonic == Mnemonic::Jsr {
        Some(Role::Subroutine)
    } else if e.mode == AddressingMode::Absolute && e.mnemonic == Mnemonic::Jmp {
        Some(Role::JumpTarget)
    } else {
        None
    }
}

/// The value of a little-endian byte pair.
pub open spec fn word(low: u8, high: u8) -> nat {
    high as nat * 256 + low as nat
}

/// A displacement byte read as a two's-complement number.
pub open spec fn signed_byte(b: u8) -> int {
    if b < 128 {
        b as int
    } else {
        b as int - 256
    }
}

/// The destination of a relative branch whose following instruction is at
/// `next`, wrapping around the 16-bit address space.
pub open spec fn branch_destination(next: int, displacement: u8) -> nat {
    ((next + signed_byte(displacement)) % 0x10000) as nat
}

/// The destination of a control transfer at `address` with operand bytes `o1`, `o2`.
pub open spec fn destination(e: Opcode, address: nat, o1: u8, o2: u8) -> nat {
    if e.mode == AddressingMode::Relative {
        branch_destination(address + 2int, o1)
    } else {
        word(o1, o2)
    }
}

/// How an absolute address is written: the name of the hardware register at
/// that address, or `$` and four hexadecimal digits.
pub open spec fn absolute_text(address: u16) -> Seq<char> {
    match register_name(address) {
        Some(name) => name,
        None => "$"@ + hex4(address as nat),
    }
}

/// The operand part of an instruction's text; `label` stands for the
/// destination of a labelled control transfer.
pub open spec fn operand_text(e: Opcode, o1: u8, o2: u8, label: Seq<char>) -> Seq<char> {
    let abs = absolute_text(word(o1, o2) as u16);
    match e.mode {
        AddressingMode::Implied => Seq::empty(),
        AddressingMode::Accumulator => " A"@,
        AddressingMode::Immediate => " #$"@ + hex2(o1),
        AddressingMode::ZeroPage => " $"@ + hex2(o1),
        AddressingMode::ZeroPageX => " $"@ + hex2(o1) + ",X"@,
        AddressingMode::ZeroPageY => " $"@ + hex2(o1) + ",Y"@,
        AddressingMode::Absolute => if label_role(e) is Some {
            " "@ + label
        } else {
            " "@ + abs
        },
        AddressingMode::AbsoluteX => " "@ + abs + ",X"@,
        AddressingMode::AbsoluteY => " "@ + abs + ",Y"@,
        AddressingMode::Indirect => " ("@ + abs + ")"@,
        AddressingMode::IndexedIndirect => " ($"@ + hex2(o1) + ",X)"@,
        AddressingMode::IndirectIndexed => " ($"@ + hex2(o1) + "),Y"@,
        AddressingMode::Relative => " "@ + label,
    }
}

/// The diagnostic written in place of an unsupported opcode.
pub open spec fn unknown_opcode_text(address: nat, op: u8) -> Seq<char> {
    "\n***\nUNKNOWN OPCODE AT ADDRESS $"@ + hex4(address) + ": $"@ + hex2(op) + "\n***"@
}

/// The label request made while decoding the instruction at `offset`, mapped
/// at `address`: the role and the destination, for labelled control transfers.
pub open spec fn label_request(rom: Seq<u8>, offset: int, address: nat) -> Option<(Role, usize)> {
    match opcode_table(rom[offset]) {
        Some(e) => match label_role(e) {
            Some(role) => {
                let target = destination(e, address, rom[offset + 1], rom[offset + 2]);
                Some((role, target as usize))
            },
            None => None,
        },
        None => None,
    }
}

/// The destination reported to the traversal for the instruction at `offset`.
pub open spec fn discovered(rom: Seq<u8>, offset: int, address: nat) -> Option<usize> {
    match label_request(rom, offset, address) {
        Some((_, target)) => Some(target),
        None => None,
    }
}

/// The allocation order of `role` after a label request.
pub open spec fn order_after(
    order: Seq<usize>,
    role: Role,
    request: Option<(Role, usize)>,
) -> Seq<usize> {
    match request {
        Some((r, target)) => if r == role {
            with_address(order, target)
        } else {
            order
        },
        None => order,
    }
}

/// The assembler text of the instruction at `offset`, mapped at `address`,
/// given the labels as they stand once it is decoded.
pub open spec fn instruction_text(
    rom: Seq<u8>,
    offset: int,
    address: nat,
    labels: Labeller,
) -> Seq<char> {
    let op = rom[offset];
    match opcode_table(op) {
        None => unknown_opcode_text(address, op),
        Some(e) => mnemonic_name(e.mnemonic) + operand_text(
            e,
            rom[offset + 1],
            rom[offset + 2],
            match label_request(rom, offset, address) {
                Some((role, target)) => label_in(role, labels.order(role), target),
                None => Seq::empty(),
            },
        ),
    }
}

/// The bytes of an instruction in hexadecimal, each preceded by a space.
pub open spec fn hex_dump(bytes: Seq<u8>) -> Seq<char>
    decreases bytes.len(),
{
    if bytes.len() == 0 {
        Seq::empty()
    } else {
        hex_dump(bytes.drop_last()) + " "@ + hex2(bytes.last())
    }
}

/// A listing line: the instruction, its address, and the bytes it occupies.
pub open spec fn line_text(instruction: Seq<char>, address: nat, bytes: Seq<u8>) -> Seq<char> {
    "    "@ + instruction + "        # "@ + hex4(address) + " |"@ + hex_dump(bytes)
}

/// A hex dump takes three characters per byte.
pub proof fn lemma_hex_dump_length(bytes: Seq<u8>)
    ensures
        hex_dump(bytes).len() == 3 * bytes.len(),
    decreases bytes.len(),
{
    reveal_strlit(" ");
    if bytes.len() > 0 {
        lemma_hex_dump_length(bytes.drop_last());
    }
}

/// Among the supported opcodes exactly three end a run: `RTI` (0x40), `RTS`
/// (0x60) and the absolute `JMP` (0x4C).
pub proof fn lemma_run_ending_opcodes(op: u8)
    requires
        opcode_table(op) is Some,
    ensures
        ends_run(op) <==> (op == 0x40 || op == 0x60 || op == 0x4C),
{
}

/// Every instruction is one, two or three bytes long.
pub proof fn lemma_instruction_length(op: u8)
    ensures
        1 <= instruction_length(op) <= 3,
{
}

/// The 16-bit value of a little-endian byte pair.
fn create_u16(low_byte: u8, high_byte: u8) -> (r: u16)
    ensures
        r as nat == word(low_byte, high_byte),
{
    high_byte as u16 * 256 + low_byte as u16
}

/// The destination of a relative branch whose following instruction is at `address`.
fn calculate_target_address(address: u16, signed_offset: u8) -> (r: usize)
    ensures
        r as nat == branch_destination(address as int, signed_offset),
{
    let sum: u32 = address as u32 + signed_offset as u32;
    if signed_offset < 128 {
        (sum % 0x10000) as usize
    } else {
        ((sum + 0xFF00) % 0x10000) as usize
    }
}

/// The text of an absolute operand: a register name or `$` and four hex digits.
fn format_absolute_address(address: u16) -> (r: String)
    ensures
        r@ == absolute_text(address),
{
    match register_str(address) {
        Some(name) => String::from_str(name),
        None => {
            let mut s = String::from_str("$");
            push_hex4(&mut s, address);
            s
        },
    }
}

/// Appends the operand text of an instruction that names no label.
fn push_operand(text: &mut String, e: Opcode, o1: u8, o2: u8)
    requires
        label_role(e) is None,
    ensures
        final(text)@ == old(text)@ + operand_text(e, o1, o2, Seq::empty()),
{
    let ghost abs = absolute_text(word(o1, o2) as u16);
    match e.mode {
        AddressingMode::Implied => {},
        AddressingMode::Accumulator => text.append(" A"),
        AddressingMode::Immediate => {
            text.append(" #$");
            push_hex2(text, o1);
        },
        AddressingMode::ZeroPage => {
            text.append(" $");
            push_hex2(text, o1);
        },
        AddressingMode::ZeroPageX => {
            text.append(" $");
            push_hex2(text, o1);
            text.append(",X");
        },
        AddressingMode::ZeroPageY => {
            text.append(" $");
            push_hex2(text, o1);
            text.append(",Y");
        },
        AddressingMode::Absolute => {
            text.append(" ");
            text.append(format_absolute_address(create_u16(o1, o2)).as_str());
        },
        AddressingMode::AbsoluteX => {
            text.append(" ");
            text.append(format_absolute_address(create_u16(o1, o2)).as_str());
            text.append(",X");
        },
        AddressingMode::AbsoluteY => {
            text.append(" ");
            text.append(format_absolute_address(create_u16(o1, o2)).as_str());
            text.append(",Y");
        },
        AddressingMode::Indirect => {
            text.append(" (");
            text.append(format_absolute_address(create_u16(o1, o2)).as_str());
            text.append(")");
        },
        AddressingMode::IndexedIndirect => {
            text.append(" ($");
            push_hex2(text, o1);
            text.append(",X)");
        },
        AddressingMode::IndirectIndexed => {
            text.append(" ($");
            push_hex2(text, o1);
            text.append("),Y");
        },
        AddressingMode::Relative => {},
    }
    assert(text@ =~= old(text)@ + operand_text(e, o1, o2, Seq::empty()));
}

/// Appends the hex dump of `rom[offset..offset + count]`.
fn push_hex_dump(line: &mut String, rom: &[u8], offset: usize, count: usize)
    requires
        offset + count <= rom@.len(),
    ensures
        final(line)@ == old(line)@ + hex_dump(rom@.subrange(offset as int, offset + count)),
{
    let n = rom.len();
    let mut i: usize = 0;
    while i < count
        invariant
            i <= count,
            offset + count <= rom@.len(),
            n == rom@.len(),
            line@ == old(line)@ + hex_dump(rom@.subrange(offset as int, offset + i)),
        decreases count - i,
    {
        line.append(" ");
        push_hex2(line, rom[offset + i]);
        assert(rom@.subrange(offset as int, offset + i + 1).drop_last() =~= rom@.subrange(
            offset as int,
            offset + i,
        ));
        i = i + 1;
    }
}

/// Appends the text of a supported instruction and requests its label, if any.
/// Returns whether it ends a run, its length and its destination.
fn push_supported(
    line: &mut String,
    e: Opcode,
    operand1: u8,
    operand2: u8,
    address: usize,
    labeller: &mut Labeller,
) -> (r: (bool, usize, Option<usize>))
    requires
        address <= 0xFFFF,
        old(labeller).wf(),
    ensures
        ({
            let (run_ends, length, target) = r;
            let request = match label_role(e) {
                Some(role) => {
                    let target = destination(e, address as nat, operand1, operand2);
                    Some((role, target as usize))
                },
                None => None,
            };
            &&& run_ends == (e.mnemonic == Mnemonic::Rts || e.mnemonic == Mnemonic::Rti || (
            e.mnemonic == Mnemonic::Jmp && e.mode == AddressingMode::Absolute))
            &&& length == mode_length(e.mode)
            &&& target == match request {
                Some((_, t)) => Some(t),
                None => None,
            }
            &&& final(labeller).wf()
            &&& forall|role: Role| #[trigger] final(labeller).order(role) == order_after(
                old(labeller).order(role),
                role,
                request,
            )
            &&& final(line)@ == old(line)@ + mnemonic_name(e.mnemonic) + operand_text(
                e,
                operand1,
                operand2,
                match request {
                    Some((role, t)) => label_in(role, final(labeller).order(role), t),
                    None => Seq::empty(),
                },
            )
        }),
{
    line.append(mnemonic_str(e.mnemonic));
    let length: usize = match e.mode {
        AddressingMode::Implied | AddressingMode::Accumulator => 1,
        AddressingMode::Absolute
        | AddressingMode::AbsoluteX
        | AddressingMode::AbsoluteY
        | AddressingMode::Indirect => 3,
        _ => 2,
    };
    let run_ends = match e.mnemonic {
        Mnemonic::Rts | Mnemonic::Rti => true,
        Mnemonic::Jmp => e.mode == AddressingMode::Absolute,
        _ => false,
    };
    let role: Option<Role> = if e.mode == AddressingMode::Relative {
        Some(Role::BranchTarget)
    } else if e.mode == AddressingMode::Absolute && e.mnemonic == Mnemonic::Jsr {
        Some(Role::Subroutine)
    } else if e.mode == AddressingMode::Absolute && e.mnemonic == Mnemonic::Jmp {
        Some(Role::JumpTarget)
    } else {
        None
    };
    match role {
        Some(role) => {
            let target = if e.mode == AddressingMode::Relative {
                calculate_target_address(((address + 2) % 0x10000) as u16, operand1)
            } else {
                create_u16(operand1, operand2) as usize
            };
            let label = labeller.request_label(role, target);
            line.append(" ");
            line.append(label.as_str());
            (run_ends, length, Some(target))
        },
        None => {
            push_operand(line, e, operand1, operand2);
            (run_ends, length, None)
        },
    }
}

/// Decodes the instruction at `contents_offset` of the ROM, mapped at
/// `address`. Returns whether it ends the current run, its length in bytes,
/// its listing line, and the destination of a branch, jump or subroutine call,
/// whose label is requested from `labeller`.
pub fn disassemble_instruction(
    prg_rom_contents: &[u8],
    contents_offset: usize,
    address: usize,
    labeller: &mut Labeller,
) -> (r: (bool, usize, String, Option<usize>))
    requires
        contents_offset + 3 <= prg_rom_contents@.len(),
        address <= 0xFFFF,
        old(labeller).wf(),
    ensures
        ({
            let rom = prg_rom_contents@;
            let off = contents_offset as int;
            let (run_ends, length, line, target) = r;
            &&& run_ends == ends_run(rom[off])
            &&& length == instruction_length(rom[off])
            &&& 1 <= length <= 3
            &&& target == discovered(rom, off, address as nat)
            &&& final(labeller).wf()
            &&& forall|role: Role| #[trigger] final(labeller).order(role) == order_after(
                old(labeller).order(role),
                role,
                label_request(rom, off, address as nat),
            )
            &&& line@ == line_text(
                instruction_text(rom, off, address as nat, *final(labeller)),
                address as nat,
                rom.subrange(off, off + length),
            )
            &&& line@.subrange(line@.len() - 3 * length, line@.len() as int) == hex_dump(
                rom.subrange(off, off + length),
            )
        }),
{
    let ghost rom = prg_rom_contents@;
    let ghost off = contents_offset as int;
    let opcode = prg_rom_contents[contents_offset];
    let operand1 = prg_rom_contents[contents_offset + 1];
    let operand2 = prg_rom_contents[contents_offset + 2];

    let mut line = String::from_str("    ");
    let ghost before = line@;
    let (is_section_complete, instruction_bytes_count, address_for_later_processing) =
        match lookup_opcode(opcode) {
        Some(e) => push_supported(&mut line, e, operand1, operand2, address, labeller),
        None => {
            line.append("\n***\nUNKNOWN OPCODE AT ADDRESS $");
            push_hex4(&mut line, address as u16);
            line.append(": $");
            push_hex2(&mut line, opcode);
            line.append("\n***");
            assert(line@ =~= before + unknown_opcode_text(address as nat, opcode));
            (true, 1, None)
        },
    };
    assert(line@ =~= before + instruction_text(rom, off, address as nat, *labeller));
    line.append("        # ");
    push_hex4(&mut line, address as u16);
    line.append(" |");
    let ghost head = line@;
    push_hex_dump(&mut line, prg_rom_contents, contents_offset, instruction_bytes_count);
    proof {
        let consumed = rom.subrange(off, off + instruction_bytes_count);
        lemma_hex_dump_length(consumed);
        assert(line@ =~= line_text(
            instruction_text(rom, off, address as nat, *labeller),
            address as nat,
            consumed,
        ));
        assert(line@.subrange(line@.len() - 3 * instruction_bytes_count, line@.len() as int)
            =~= hex_dump(consumed));
    }
    (is_section_complete, instruction_bytes_count, line, address_for_later_processing)
}

} // verus!
