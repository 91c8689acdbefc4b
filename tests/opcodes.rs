use nes_disassembler::instruction::disassemble_instruction;
use nes_disassembler::labeller::Labeller;

fn assert_disasm(bytes: [u8; 3], expected: &str) {
    let mut labeller = Labeller::new();
    let (_, _, output, _) = disassemble_instruction(&bytes, 0, 0x8000, &mut labeller);

    assert!(
        output.contains(expected),
        "Expected `{}` in `{}`",
        expected,
        output
    );
}

#[test]
fn adc_imm() {
    assert_disasm([0x69,0x12,0], "ADC #$12");
}

#[test]
fn adc_zp() {
    assert_disasm([0x65,0x12,0], "ADC $12");
}

#[test]
fn adc_zpx() {
    assert_disasm([0x75,0x12,0], "ADC $12,X");
}

#[test]
fn adc_abs() {
    assert_disasm([0x6D,0x34,0x12], "ADC $1234");
}

#[test]
fn adc_absx() {
    assert_disasm([0x7D,0x34,0x12], "ADC $1234,X");
}

#[test]
fn adc_absy() {
    assert_disasm([0x79,0x34,0x12], "ADC $1234,Y");
}

#[test]
fn adc_indx() {
    assert_disasm([0x61,0x12,0], "ADC ($12,X)");
}

#[test]
fn adc_indy() {
    assert_disasm([0x71,0x12,0], "ADC ($12),Y");
}

#[test]
fn and_imm() {
    assert_disasm([0x29,0x12,0], "AND #$12");
}

#[test]
fn and_zp() {
    assert_disasm([0x25,0x12,0], "AND $12");
}

#[test]
fn and_zpx() {
    assert_disasm([0x35,0x12,0], "AND $12,X");
}

#[test]
fn and_abs() {
    assert_disasm([0x2D,0x34,0x12], "AND $1234");
}

#[test]
fn and_absx() {
    assert_disasm([0x3D,0x34,0x12], "AND $1234,X");
}

#[test]
fn and_absy() {
    assert_disasm([0x39,0x34,0x12], "AND $1234,Y");
}

#[test]
fn and_indx() {
    assert_disasm([0x21,0x12,0], "AND ($12,X)");
}

#[test]
fn and_indy() {
    assert_disasm([0x31,0x12,0], "AND ($12),Y");
}

#[test]
fn asl_acc() {
    assert_disasm([0x0A,0,0], "ASL A");
}

#[test]
fn asl_zp() {
    assert_disasm([0x06,0x12,0], "ASL $12");
}

#[test]
fn asl_zpx() {
    assert_disasm([0x16,0x12,0], "ASL $12,X");
}

#[test]
fn asl_abs() {
    assert_disasm([0x0E,0x34,0x12], "ASL $1234");
}

#[test]
fn asl_absx() {
    assert_disasm([0x1E,0x34,0x12], "ASL $1234,X");
}

#[test]
fn bcc() {
    assert_disasm([0x90,0x12,0], "BCC branch_target_0");
}

#[test]
fn bcs() {
    assert_disasm([0xB0,0x12,0], "BCS branch_target_0");
}

#[test]
fn beq() {
    assert_disasm([0xF0,0x12,0], "BEQ branch_target_0");
}

#[test]
fn bmi() {
    assert_disasm([0x30,0x12,0], "BMI branch_target_0");
}

#[test]
fn bne() {
    assert_disasm([0xD0,0x12,0], "BNE branch_target_0");
}

#[test]
fn bpl() {
    assert_disasm([0x10,0x12,0], "BPL branch_target_0");
}

#[test]
fn bvc() {
    assert_disasm([0x50,0x12,0], "BVC branch_target_0");
}

#[test]
fn bvs() {
    assert_disasm([0x70,0x12,0], "BVS branch_target_0");
}

#[test]
fn bit_zp() {
    assert_disasm([0x24,0x12,0], "BIT $12");
}

#[test]
fn bit_abs() {
    assert_disasm([0x2C,0x34,0x12], "BIT $1234");
}

#[test]
fn brk() {
    assert_disasm([0x00,0,0], "BRK");
}

#[test]
fn cmp_imm() {
    assert_disasm([0xC9,0x12,0], "CMP #$12");
}

#[test]
fn cmp_zp() {
    assert_disasm([0xC5,0x12,0], "CMP $12");
}

#[test]
fn cmp_zpx() {
    assert_disasm([0xD5,0x12,0], "CMP $12,X");
}

#[test]
fn cmp_abs() {
    assert_disasm([0xCD,0x34,0x12], "CMP $1234");
}

#[test]
fn cmp_absx() {
    assert_disasm([0xDD,0x34,0x12], "CMP $1234,X");
}

#[test]
fn cmp_absy() {
    assert_disasm([0xD9,0x34,0x12], "CMP $1234,Y");
}

#[test]
fn cmp_indx() {
    assert_disasm([0xC1,0x12,0], "CMP ($12,X)");
}

#[test]
fn cmp_indy() {
    assert_disasm([0xD1,0x12,0], "CMP ($12),Y");
}

#[test]
fn cpx_imm() {
    assert_disasm([0xE0,0x12,0], "CPX #$12");
}

#[test]
fn cpx_zp() {
    assert_disasm([0xE4,0x12,0], "CPX $12");
}

#[test]
fn cpx_abs() {
    assert_disasm([0xEC,0x34,0x12], "CPX $1234");
}

#[test]
fn cpy_imm() {
    assert_disasm([0xC0,0x12,0], "CPY #$12");
}

#[test]
fn cpy_zp() {
    assert_disasm([0xC4,0x12,0], "CPY $12");
}

#[test]
fn cpy_abs() {
    assert_disasm([0xCC,0x34,0x12], "CPY $1234");
}

#[test]
fn dec_zp() {
    assert_disasm([0xC6,0x12,0], "DEC $12");
}

#[test]
fn dec_zpx() {
    assert_disasm([0xD6,0x12,0], "DEC $12,X");
}

#[test]
fn dec_abs() {
    assert_disasm([0xCE,0x34,0x12], "DEC $1234");
}

#[test]
fn dec_absx() {
    assert_disasm([0xDE,0x34,0x12], "DEC $1234,X");
}

#[test]
fn eor_imm() {
    assert_disasm([0x49,0x12,0], "EOR #$12");
}

#[test]
fn eor_zp() {
    assert_disasm([0x45,0x12,0], "EOR $12");
}

#[test]
fn eor_zpx() {
    assert_disasm([0x55,0x12,0], "EOR $12,X");
}

#[test]
fn eor_abs() {
    assert_disasm([0x4D,0x34,0x12], "EOR $1234");
}

#[test]
fn eor_absx() {
    assert_disasm([0x5D,0x34,0x12], "EOR $1234,X");
}

#[test]
fn eor_absy() {
    assert_disasm([0x59,0x34,0x12], "EOR $1234,Y");
}

#[test]
fn eor_indx() {
    assert_disasm([0x41,0x12,0], "EOR ($12,X)");
}

#[test]
fn eor_indy() {
    assert_disasm([0x51,0x12,0], "EOR ($12),Y");
}

#[test]
fn jmp_abs() {
    assert_disasm([0x4C,0x00,0x12], "JMP jump_target_0");
}

#[test]
fn jmp_ind() {
    assert_disasm([0x6C,0x34,0x12], "JMP ($1234)");
}

#[test]
fn jsr() {
    assert_disasm([0x20,0x00,0x12], "JSR subroutine_0");
}

#[test]
fn rts() {
    assert_disasm([0x60,0,0], "RTS");
}

#[test]
fn rti() {
    assert_disasm([0x40,0,0], "RTI");
}

#[test]
fn nop() {
    assert_disasm([0xEA,0,0], "NOP");
}

#[test]
fn pha() {
    assert_disasm([0x48,0,0], "PHA");
}

#[test]
fn php() {
    assert_disasm([0x08,0,0], "PHP");
}

#[test]
fn pla() {
    assert_disasm([0x68,0,0], "PLA");
}

#[test]
fn plp() {
    assert_disasm([0x28,0,0], "PLP");
}

#[test]
fn sec() {
    assert_disasm([0x38,0,0], "SEC");
}

#[test]
fn sed() {
    assert_disasm([0xF8,0,0], "SED");
}

#[test]
fn sei() {
    assert_disasm([0x78,0,0], "SEI");
}

#[test]
fn clc() {
    assert_disasm([0x18,0,0], "CLC");
}

#[test]
fn cld() {
    assert_disasm([0xD8,0,0], "CLD");
}

#[test]
fn cli() {
    assert_disasm([0x58,0,0], "CLI");
}

#[test]
fn clv() {
    assert_disasm([0xB8,0,0], "CLV");
}

#[test]
fn tax() {
    assert_disasm([0xAA,0,0], "TAX");
}

#[test]
fn tay() {
    assert_disasm([0xA8,0,0], "TAY");
}

#[test]
fn tsx() {
    assert_disasm([0xBA,0,0], "TSX");
}

#[test]
fn txa() {
    assert_disasm([0x8A,0,0], "TXA");
}

#[test]
fn txs() {
    assert_disasm([0x9A,0,0], "TXS");
}

#[test]
fn tya() {
    assert_disasm([0x98,0,0], "TYA");
}

#[test]
fn inc_zp() {
    assert_disasm([0xE6,0x12,0], "INC $12");
}

#[test]
fn inc_zpx() {
    assert_disasm([0xF6,0x12,0], "INC $12,X");
}

#[test]
fn inc_abs() {
    assert_disasm([0xEE,0x34,0x12], "INC $1234");
}

#[test]
fn inc_absx() {
    assert_disasm([0xFE,0x34,0x12], "INC $1234,X");
}

#[test]
fn lda_imm() {
    assert_disasm([0xA9,0x12,0], "LDA #$12");
}

#[test]
fn lda_zp() {
    assert_disasm([0xA5,0x12,0], "LDA $12");
}

#[test]
fn lda_zpx() {
    assert_disasm([0xB5,0x12,0], "LDA $12,X");
}

#[test]
fn lda_abs() {
    assert_disasm([0xAD,0x34,0x12], "LDA $1234");
}

#[test]
fn lda_absx() {
    assert_disasm([0xBD,0x34,0x12], "LDA $1234,X");
}

#[test]
fn lda_absy() {
    assert_disasm([0xB9,0x34,0x12], "LDA $1234,Y");
}

#[test]
fn lda_indx() {
    assert_disasm([0xA1,0x12,0], "LDA ($12,X)");
}

#[test]
fn lda_indy() {
    assert_disasm([0xB1,0x12,0], "LDA ($12),Y");
}

#[test]
fn ldx_imm() {
    assert_disasm([0xA2,0x12,0], "LDX #$12");
}

#[test]
fn ldx_zp() {
    assert_disasm([0xA6,0x12,0], "LDX $12");
}

#[test]
fn ldx_zpy() {
    assert_disasm([0xB6,0x12,0], "LDX $12,Y");
}

#[test]
fn ldx_abs() {
    assert_disasm([0xAE,0x34,0x12], "LDX $1234");
}

#[test]
fn ldx_absy() {
    assert_disasm([0xBE,0x34,0x12], "LDX $1234,Y");
}

#[test]
fn ldy_imm() {
    assert_disasm([0xA0,0x12,0], "LDY #$12");
}

#[test]
fn ldy_zp() {
    assert_disasm([0xA4,0x12,0], "LDY $12");
}

#[test]
fn ldy_zpx() {
    assert_disasm([0xB4,0x12,0], "LDY $12,X");
}

#[test]
fn ldy_abs() {
    assert_disasm([0xAC,0x34,0x12], "LDY $1234");
}

#[test]
fn ldy_absx() {
    assert_disasm([0xBC,0x34,0x12], "LDY $1234,X");
}

#[test]
fn lsr_acc() {
    assert_disasm([0x4A,0,0], "LSR A");
}

#[test]
fn lsr_zp() {
    assert_disasm([0x46,0x12,0], "LSR $12");
}

#[test]
fn lsr_zpx() {
    assert_disasm([0x56,0x12,0], "LSR $12,X");
}

#[test]
fn lsr_abs() {
    assert_disasm([0x4E,0x34,0x12], "LSR $1234");
}

#[test]
fn lsr_absx() {
    assert_disasm([0x5E,0x34,0x12], "LSR $1234,X");
}

#[test]
fn ora_imm() {
    assert_disasm([0x09,0x12,0], "ORA #$12");
}

#[test]
fn ora_zp() {
    assert_disasm([0x05,0x12,0], "ORA $12");
}

#[test]
fn ora_zpx() {
    assert_disasm([0x15,0x12,0], "ORA $12,X");
}

#[test]
fn ora_abs() {
    assert_disasm([0x0D,0x34,0x12], "ORA $1234");
}

#[test]
fn ora_absx() {
    assert_disasm([0x1D,0x34,0x12], "ORA $1234,X");
}

#[test]
fn ora_absy() {
    assert_disasm([0x19,0x34,0x12], "ORA $1234,Y");
}

#[test]
fn ora_indx() {
    assert_disasm([0x01,0x12,0], "ORA ($12,X)");
}

#[test]
fn ora_indy() {
    assert_disasm([0x11,0x12,0], "ORA ($12),Y");
}

#[test]
fn rol_acc() {
    assert_disasm([0x2A,0,0], "ROL A");
}

#[test]
fn rol_zp() {
    assert_disasm([0x26,0x12,0], "ROL $12");
}

#[test]
fn rol_zpx() {
    assert_disasm([0x36,0x12,0], "ROL $12,X");
}

#[test]
fn rol_abs() {
    assert_disasm([0x2E,0x34,0x12], "ROL $1234");
}

#[test]
fn rol_absx() {
    assert_disasm([0x3E,0x34,0x12], "ROL $1234,X");
}

#[test]
fn ror_acc() {
    assert_disasm([0x6A,0,0], "ROR A");
}

#[test]
fn ror_zp() {
    assert_disasm([0x66,0x12,0], "ROR $12");
}

#[test]
fn ror_zpx() {
    assert_disasm([0x76,0x12,0], "ROR $12,X");
}

#[test]
fn ror_abs() {
    assert_disasm([0x6E,0x34,0x12], "ROR $1234");
}

#[test]
fn ror_absx() {
    assert_disasm([0x7E,0x34,0x12], "ROR $1234,X");
}

#[test]
fn sbc_imm() {
    assert_disasm([0xE9,0x12,0], "SBC #$12");
}

#[test]
fn sbc_zp() {
    assert_disasm([0xE5,0x12,0], "SBC $12");
}

#[test]
fn sbc_zpx() {
    assert_disasm([0xF5,0x12,0], "SBC $12,X");
}

#[test]
fn sbc_abs() {
    assert_disasm([0xED,0x34,0x12], "SBC $1234");
}

#[test]
fn sbc_absx() {
    assert_disasm([0xFD,0x34,0x12], "SBC $1234,X");
}

#[test]
fn sbc_absy() {
    assert_disasm([0xF9,0x34,0x12], "SBC $1234,Y");
}

#[test]
fn sbc_indx() {
    assert_disasm([0xE1,0x12,0], "SBC ($12,X)");
}

#[test]
fn sbc_indy() {
    assert_disasm([0xF1,0x12,0], "SBC ($12),Y");
}

#[test]
fn sta_zp() {
    assert_disasm([0x85,0x12,0], "STA $12");
}

#[test]
fn sta_zpx() {
    assert_disasm([0x95,0x12,0], "STA $12,X");
}

#[test]
fn sta_abs() {
    assert_disasm([0x8D,0x34,0x12], "STA $1234");
}

#[test]
fn sta_absx() {
    assert_disasm([0x9D,0x34,0x12], "STA $1234,X");
}

#[test]
fn sta_absy() {
    assert_disasm([0x99,0x34,0x12], "STA $1234,Y");
}

#[test]
fn sta_indx() {
    assert_disasm([0x81,0x12,0], "STA ($12,X)");
}

#[test]
fn sta_indy() {
    assert_disasm([0x91,0x12,0], "STA ($12),Y");
}

#[test]
fn stx_zp() {
    assert_disasm([0x86,0x12,0], "STX $12");
}

#[test]
fn stx_zpy() {
    assert_disasm([0x96,0x12,0], "STX $12,Y");
}

#[test]
fn stx_abs() {
    assert_disasm([0x8E,0x34,0x12], "STX $1234");
}

#[test]
fn sty_zp() {
    assert_disasm([0x84,0x12,0], "STY $12");
}

#[test]
fn sty_zpx() {
    assert_disasm([0x94,0x12,0], "STY $12,X");
}

#[test]
fn sty_abs() {
    assert_disasm([0x8C,0x34,0x12], "STY $1234");
}

#[test]
fn inx() {
    assert_disasm([0xE8,0,0], "INX");
}

#[test]
fn iny() {
    assert_disasm([0xC8,0,0], "INY");
}

#[test]
fn dex() {
    assert_disasm([0xCA,0,0], "DEX");
}

#[test]
fn dey() {
    assert_disasm([0x88,0,0], "DEY");
}
