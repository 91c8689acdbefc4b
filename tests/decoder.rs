use nes_disassembler::instruction::{
    disassemble_instruction, lookup_opcode, AddressingMode, Mnemonic,
};
use nes_disassembler::labeller::Labeller;

fn decode_at(bytes: &[u8], address: usize) -> (bool, usize, String, Option<usize>, Labeller) {
    let mut labeller = Labeller::new();
    let (ends, len, text, target) = disassemble_instruction(bytes, 0, address, &mut labeller);
    (ends, len, text, target, labeller)
}

#[test]
fn immediate_line_is_exact() {
    let (ends, len, text, target, _) = decode_at(&[0x69, 0x12, 0x00], 0x8000);
    assert!(!ends);
    assert_eq!(len, 2);
    assert_eq!(text, "    ADC #$12        # 8000 | 69 12");
    assert_eq!(target, None);
}

#[test]
fn jump_to_self_ends_run() {
    let (ends, len, text, target, labeller) = decode_at(&[0x4C, 0x00, 0x80], 0x8000);
    assert!(ends);
    assert_eq!(len, 3);
    assert_eq!(text, "    JMP jump_target_0        # 8000 | 4C 00 80");
    assert_eq!(target, Some(0x8000));
    assert_eq!(labeller.get_jump_target_label(0x8000).map(|s| s.as_str()), Some("jump_target_0"));
}

#[test]
fn branch_destination_counts_from_next_instruction() {
    let (ends, len, text, target, labeller) = decode_at(&[0x90, 0x02, 0x00], 0x8000);
    assert!(!ends);
    assert_eq!(len, 2);
    assert_eq!(target, Some(0x8004));
    assert_eq!(text, "    BCC branch_target_0        # 8000 | 90 02");
    assert_eq!(labeller.get_branch_target_label(0x8004).map(|s| s.as_str()), Some("branch_target_0"));
    assert_eq!(labeller.get_branch_target_label(0x8002), None);
}

#[test]
fn backward_branch_sign_extends() {
    let (_, _, _, target, _) = decode_at(&[0xD0, 0xFE, 0x00], 0x8000);
    assert_eq!(target, Some(0x8000));
    let (_, _, _, target, _) = decode_at(&[0xD0, 0x80, 0x00], 0x8000);
    assert_eq!(target, Some(0x8002 - 128));
}

#[test]
fn branch_wraps_around_address_space() {
    let (_, _, _, target, _) = decode_at(&[0x10, 0x7F, 0x00], 0xFFF0);
    assert_eq!(target, Some(0x0071));
    let (_, _, _, target, _) = decode_at(&[0x10, 0x80, 0x00], 0x0010);
    assert_eq!(target, Some(0xFF92));
}

#[test]
fn subroutine_call_continues_run() {
    let (ends, len, text, target, labeller) = decode_at(&[0x20, 0x00, 0x90], 0x8000);
    assert!(!ends);
    assert_eq!(len, 3);
    assert_eq!(target, Some(0x9000));
    assert_eq!(text, "    JSR subroutine_0        # 8000 | 20 00 90");
    assert_eq!(labeller.get_subroutine_label(0x9000).map(|s| s.as_str()), Some("subroutine_0"));
    assert_eq!(labeller.get_jump_target_label(0x9000), None);
}

#[test]
fn unsupported_opcode_gives_marker() {
    let (ends, len, text, target, _) = decode_at(&[0x02, 0x12, 0x34], 0x8000);
    assert!(ends);
    assert_eq!(len, 1);
    assert_eq!(target, None);
    assert_eq!(text, "    \n***\nUNKNOWN OPCODE AT ADDRESS $8000: $02\n***        # 8000 | 02");
}

#[test]
fn hardware_register_is_named() {
    let (_, _, text, _, _) = decode_at(&[0x8D, 0x00, 0x20], 0x8000);
    assert_eq!(text, "    STA PpuControl_2000        # 8000 | 8D 00 20");
    assert!(!text.contains("$2000"));
    let (_, _, text, _, _) = decode_at(&[0xAD, 0x17, 0x40], 0x8000);
    assert!(text.contains("LDA Ctrl2_FrameCtr_4017"));
    let (_, _, text, _, _) = decode_at(&[0xAD, 0x09, 0x40], 0x8000);
    assert!(text.contains("LDA $4009"));
}

#[test]
fn indirect_jump_renders_operand() {
    let (ends, len, text, target, _) = decode_at(&[0x6C, 0xFC, 0xFF], 0x8000);
    assert!(!ends);
    assert_eq!(len, 3);
    assert_eq!(target, None);
    assert_eq!(text, "    JMP ($FFFC)        # 8000 | 6C FC FF");
}

#[test]
fn returns_end_run() {
    assert!(decode_at(&[0x60, 0, 0], 0x8000).0);
    assert!(decode_at(&[0x40, 0, 0], 0x8000).0);
    assert!(!decode_at(&[0x00, 0, 0], 0x8000).0);
}

#[test]
fn decodes_at_nonzero_offset() {
    let rom = [0xEA, 0xA9, 0x7F, 0x00, 0x00];
    let mut labeller = Labeller::new();
    let (_, len, text, _) = disassemble_instruction(&rom, 1, 0xC001, &mut labeller);
    assert_eq!(len, 2);
    assert_eq!(text, "    LDA #$7F        # C001 | A9 7F");
}

#[test]
fn dump_length_matches_for_every_opcode() {
    let mut supported = 0;
    for op in 0..=255u8 {
        let (ends, len, text, target, _) = decode_at(&[op, 0x34, 0x12], 0x8000);
        let dump = text.rsplit('|').next().unwrap();
        assert_eq!(dump.len(), 3 * len);
        assert!((1..=3).contains(&len));
        match lookup_opcode(op) {
            Some(_) => {
                supported += 1;
                assert_eq!(ends, op == 0x40 || op == 0x60 || op == 0x4C);
            }
            None => {
                assert!(ends);
                assert_eq!(len, 1);
                assert_eq!(target, None);
            }
        }
    }
    assert_eq!(supported, 151);
}

#[test]
fn repeated_branch_target_reuses_label() {
    let mut labeller = Labeller::new();
    let (_, _, a, _) = disassemble_instruction(&[0xF0, 0x02, 0x00], 0, 0x8000, &mut labeller);
    let (_, _, b, _) = disassemble_instruction(&[0xD0, 0x00, 0x00], 0, 0x8002, &mut labeller);
    let (_, _, c, _) = disassemble_instruction(&[0xD0, 0x10, 0x00], 0, 0x8002, &mut labeller);
    assert!(a.contains("BEQ branch_target_0"));
    assert!(b.contains("BNE branch_target_0"));
    assert!(c.contains("BNE branch_target_1"));
}

#[test]
fn opcode_table_lookup() {
    let e = lookup_opcode(0xB1).unwrap();
    assert_eq!(e.mnemonic, Mnemonic::Lda);
    assert_eq!(e.mode, AddressingMode::IndirectIndexed);
    let e = lookup_opcode(0x6C).unwrap();
    assert_eq!(e.mnemonic, Mnemonic::Jmp);
    assert_eq!(e.mode, AddressingMode::Indirect);
    assert!(lookup_opcode(0xFF).is_none());
}
