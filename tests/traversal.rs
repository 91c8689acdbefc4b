use nes_disassembler::cartridge::Cartridge;

/// An image with one program-ROM bank holding `code` at 0x8000 and the
/// given vectors, and no character ROM.
fn image(code: &[(usize, u8)], nmi: u16, reset: u16, irq: u16, flags6: u8, flags7: u8) -> Vec<u8> {
    let mut data = vec![0x4E, 0x45, 0x53, 0x1A, 1, 0, flags6, flags7, 0, 0, 0, 0, 0, 0, 0, 0];
    let mut prg = vec![0u8; 16384];
    for &(address, byte) in code {
        prg[address - 0x8000] = byte;
    }
    for (k, v) in [nmi, reset, irq].iter().enumerate() {
        prg[0x3FFA + 2 * k] = (*v & 0xFF) as u8;
        prg[0x3FFB + 2 * k] = (*v >> 8) as u8;
    }
    data.extend_from_slice(&prg);
    data
}

fn code(start: usize, bytes: &[u8]) -> Vec<(usize, u8)> {
    bytes.iter().enumerate().map(|(i, b)| (start + i, *b)).collect()
}

#[test]
fn short_image_is_refused() {
    assert!(!Cartridge::is_complete_image(&[0x4E, 0x45, 0x53]));
    let mut data = image(&[], 0x8000, 0x8000, 0x8000, 0, 0);
    assert!(Cartridge::is_complete_image(&data));
    data.truncate(100);
    assert!(!Cartridge::is_complete_image(&data));
}

#[test]
fn unsupported_mapper_is_refused() {
    let data = image(&[], 0x8000, 0x8000, 0x8000, 0x40, 0x30);
    let cartridge = Cartridge::from_ines_bytes(&data);
    assert_eq!(cartridge.mapper_id(), 0x34);
    assert!(!cartridge.has_supported_mapping());
    assert_eq!(cartridge.disassembly_lines().len(), 0);
}

#[test]
fn self_jump_terminates() {
    let data = image(&code(0x8000, &[0x4C, 0x00, 0x80]), 0x8000, 0x8000, 0x8000, 0, 0);
    let mut cartridge = Cartridge::from_ines_bytes(&data);
    cartridge.disassemble();
    assert_eq!(
        cartridge.disassembly_lines(),
        vec![
            "RESET: [8000]".to_string(),
            "jump_target_0: [8000]".to_string(),
            "    JMP jump_target_0        # 8000 | 4C 00 80".to_string(),
        ]
    );
}

#[test]
fn walk_follows_branches_and_vectors() {
    let mut program = code(0x8000, &[0xA9, 0x01, 0xF0, 0x03, 0x4C, 0x00, 0x80, 0x02]);
    program.push((0x8010, 0x40));
    program.push((0x8020, 0x40));
    let data = image(&program, 0x8010, 0x8000, 0x8020, 0, 0);
    let mut cartridge = Cartridge::from_ines_bytes(&data);
    assert_eq!(cartridge.vectors(), Some((0x8010, 0x8000, 0x8020)));
    cartridge.disassemble();
    assert_eq!(
        cartridge.disassembly_lines(),
        vec![
            "RESET: [8000]".to_string(),
            "jump_target_0: [8000]".to_string(),
            "    LDA #$01        # 8000 | A9 01".to_string(),
            "    BEQ branch_target_0        # 8002 | F0 03".to_string(),
            "    JMP jump_target_0        # 8004 | 4C 00 80".to_string(),
            "branch_target_0: [8007]".to_string(),
            "    \n***\nUNKNOWN OPCODE AT ADDRESS $8007: $02\n***        # 8007 | 02".to_string(),
            "NMI: [8010]".to_string(),
            "    RTI        # 8010 | 40".to_string(),
            "IRQ: [8020]".to_string(),
            "    RTI        # 8020 | 40".to_string(),
        ]
    );
}

#[test]
fn unsupported_opcode_moves_to_next_pending_address() {
    let program = code(0x8000, &[0xF0, 0x03, 0x02, 0xEA, 0xEA, 0x60]);
    let data = image(&program, 0x8005, 0x8000, 0x8005, 0, 0);
    let mut cartridge = Cartridge::from_ines_bytes(&data);
    cartridge.disassemble();
    let lines = cartridge.disassembly_lines();
    assert_eq!(
        lines,
        vec![
            "RESET: [8000]".to_string(),
            "    BEQ branch_target_0        # 8000 | F0 03".to_string(),
            "    \n***\nUNKNOWN OPCODE AT ADDRESS $8002: $02\n***        # 8002 | 02".to_string(),
            "IRQ: [8005]".to_string(),
            "branch_target_0: [8005]".to_string(),
            "    RTS        # 8005 | 60".to_string(),
        ]
    );
}

#[test]
fn entry_outside_rom_is_skipped() {
    let data = image(&[], 0x0200, 0x7FFF, 0xFFFF, 0, 0);
    let mut cartridge = Cartridge::from_ines_bytes(&data);
    cartridge.disassemble();
    assert_eq!(
        cartridge.disassembly_lines(),
        vec!["NMI: [0200]".to_string(), "RESET: [7FFF]".to_string(), "IRQ: [FFFF]".to_string()]
    );
}

#[test]
fn explicit_entry_point_takes_latest_name() {
    let program = code(0x8100, &[0xEA, 0x60]);
    let data = image(&program, 0x8000, 0x8000, 0x8000, 0, 0);
    let mut cartridge = Cartridge::from_ines_bytes(&data);
    cartridge.disassemble_from_entry_point(0x8100, "START");
    cartridge.disassemble_from_entry_point(0x8100, "AGAIN");
    assert_eq!(
        cartridge.disassembly_lines(),
        vec![
            "AGAIN: [8100]".to_string(),
            "    NOP        # 8100 | EA".to_string(),
            "    RTS        # 8101 | 60".to_string(),
        ]
    );
}

#[test]
fn reset_name_wins_over_other_vectors() {
    let data = image(&code(0x8000, &[0x60]), 0x8000, 0x8000, 0x8000, 0, 0);
    let mut cartridge = Cartridge::from_ines_bytes(&data);
    cartridge.disassemble_from_entry_point(0x8000, "START");
    cartridge.disassemble();
    assert_eq!(
        cartridge.disassembly_lines(),
        vec!["RESET: [8000]".to_string(), "    RTS        # 8000 | 60".to_string()]
    );
}

#[test]
fn second_pass_changes_nothing() {
    let program = code(0x8000, &[0x20, 0x10, 0x80, 0xD0, 0xFB, 0x60]);
    let mut program = program;
    program.extend(code(0x8010, &[0xE8, 0x60]));
    let data = image(&program, 0x8010, 0x8000, 0x8003, 0, 0);
    let mut cartridge = Cartridge::from_ines_bytes(&data);
    cartridge.disassemble();
    let first = cartridge.disassembly_lines();
    cartridge.disassemble();
    assert_eq!(cartridge.disassembly_lines(), first);
    assert_eq!(
        first,
        vec![
            "RESET: [8000]".to_string(),
            "branch_target_0: [8000]".to_string(),
            "    JSR subroutine_0        # 8000 | 20 10 80".to_string(),
            "IRQ: [8003]".to_string(),
            "    BNE branch_target_0        # 8003 | D0 FB".to_string(),
            "    RTS        # 8005 | 60".to_string(),
            "NMI: [8010]".to_string(),
            "subroutine_0: [8010]".to_string(),
            "    INX        # 8010 | E8".to_string(),
            "    RTS        # 8011 | 60".to_string(),
        ]
    );
}

#[test]
fn image_without_program_rom_is_refused() {
    let mut data = vec![0x4E, 0x45, 0x53, 0x1A, 0, 1, 0, 0, 0, 0, 0, 0, 0, 0, 0, 0];
    data.extend_from_slice(&[0u8; 8192]);
    let cartridge = Cartridge::from_ines_bytes(&data);
    assert_eq!(cartridge.vectors(), None);
    assert!(!cartridge.has_supported_mapping());
}

#[test]
fn header_fields_are_read() {
    let mut data = vec![0x4E, 0x45, 0x53, 0x1A, 2, 1, 0x10, 0x20, 0, 0, 0, 0, 0, 0, 0, 0];
    data.extend_from_slice(&vec![0u8; 2 * 16384 + 8192]);
    assert!(Cartridge::is_complete_image(&data));
    let cartridge = Cartridge::from_ines_bytes(&data);
    assert_eq!(cartridge.mapper_id(), 0x21);
    assert!(!cartridge.has_supported_mapping());
    assert_eq!(cartridge.prg_rom_bank_count(), 2);
    assert_eq!(cartridge.chr_rom_bank_count(), 1);
    data.pop();
    assert!(!Cartridge::is_complete_image(&data));
}
