use tcpu::dump::parse_ram_dump;
use tcpu::{Fault, CPU};

/// A fresh, reset machine with `image` loaded at address 0.
fn boot_image(image: &[u8]) -> CPU {
    let mut cpu = CPU::new();
    cpu.reset();
    cpu.copy_to_ram(image);
    cpu
}

#[test]
fn new_machine_is_in_reset_state() {
    let cpu = CPU::new();
    assert_eq!(cpu.reg_a, 0);
    assert_eq!(cpu.reg_ir, 0);
    assert_eq!(cpu.reg_pc, 0);
    assert!(!cpu.flag_cf);
    assert!(cpu.flag_zf);
    assert!(cpu.is_running);
    assert_eq!(cpu.fault, None);
    assert_eq!(cpu.ram.len(), 256);
    assert!(cpu.ram.iter().all(|b| *b == 0));
    assert!(cpu.tty_out.is_empty());
}

#[test]
fn reset_restores_registers_but_not_ram() {
    let mut cpu = boot_image(&[0x00, 0x41, 0x07, 0x20, 0x10]);
    cpu.run_for(100);
    assert_eq!(cpu.ram[0x20], 0x41);
    cpu.reset();
    assert_eq!(cpu.reg_a, 0);
    assert_eq!(cpu.reg_pc, 0);
    assert!(cpu.flag_zf);
    assert!(!cpu.flag_cf);
    // RAM is untouched by reset.
    assert_eq!(cpu.ram[0x20], 0x41);
}

#[test]
fn print_then_halt_scenario() {
    // LDI 0x41; TTYO; HALT: prints 'A', halts with A = 0x41, ZF clear,
    // PC just past the HALT opcode.
    let mut cpu = boot_image(&[0x00, 0x41, 0x0F, 0x10]);
    cpu.run_for(100);
    assert_eq!(cpu.tty_out, vec![0x41]);
    assert_eq!(cpu.reg_a, 0x41);
    assert!(!cpu.flag_zf);
    assert!(!cpu.is_running);
    assert_eq!(cpu.fault, None);
    assert_eq!(cpu.reg_pc, 4);
}

#[test]
fn push_pop_scenario() {
    // RSP; LDI 0; PHI 0x05; PLA; HALT: halts with A = 0x05 and the stack
    // pointer back at 0xFE.
    let mut cpu = boot_image(&[0x1C, 0x00, 0x00, 0x24, 0x05, 0x1E, 0x10]);
    cpu.run_for(100);
    assert!(!cpu.is_running);
    assert_eq!(cpu.fault, None);
    assert_eq!(cpu.reg_a, 0x05);
    assert_eq!(cpu.ram[0xFF], 0xFE);
}

#[test]
fn decode_fault_aborts_without_touching_memory() {
    let mut cpu = boot_image(&[0x25]);
    let before: Vec<u8> = cpu.ram.clone();
    cpu.run_for(100);
    assert_eq!(cpu.fault, Some(Fault::Decode));
    assert!(!cpu.is_running);
    assert_eq!(cpu.reg_ir, 0x25);
    assert_eq!(cpu.reg_pc, 1);
    assert_eq!(cpu.reg_a, 0);
    assert_eq!(cpu.ram, before);
    assert!(cpu.tty_out.is_empty());
}

#[test]
fn highest_invalid_opcode_faults() {
    let mut cpu = boot_image(&[0xFF]);
    cpu.run_for(100);
    assert_eq!(cpu.fault, Some(Fault::Decode));
    assert!(!cpu.is_running);
}

#[test]
fn ttyi_faults_as_unimplemented() {
    let mut cpu = boot_image(&[0x0E]);
    cpu.run_for(100);
    assert_eq!(cpu.fault, Some(Fault::Unimplemented));
    assert!(!cpu.is_running);
    // The handler faulted before the default advance fired.
    assert_eq!(cpu.reg_pc, 1);
}

#[test]
fn cycle_budget_halts_after_budget_plus_one_steps() {
    // NOPs forever; a budget of 2 lets three instructions finish, as the
    // budget is checked after each instruction and zero halts.
    let mut cpu = boot_image(&[0x17; 16]);
    cpu.set_max_cycles(2);
    cpu.run_for(100);
    assert!(!cpu.is_running);
    assert_eq!(cpu.fault, None);
    assert_eq!(cpu.reg_pc, 3);
    assert_eq!(cpu.max_cycles, -1);
}

#[test]
fn unbounded_budget_keeps_running() {
    // JMP 0: a tight loop; the fuel bound stops the walk, not the machine.
    let mut cpu = boot_image(&[0x09, 0x00]);
    cpu.run_for(10);
    assert!(cpu.is_running);
    assert_eq!(cpu.fault, None);
    assert_eq!(cpu.reg_pc, 0);
}

#[test]
fn single_step_executes_one_instruction() {
    let mut cpu = boot_image(&[0x00, 0x41, 0x10]);
    cpu.test_cycle();
    assert_eq!(cpu.reg_a, 0x41);
    assert_eq!(cpu.reg_pc, 2);
    assert!(cpu.is_running);
}

#[test]
fn empty_image_leaves_ram_zero() {
    let cpu = boot_image(&[]);
    assert!(cpu.ram.iter().all(|b| *b == 0));
}

#[test]
fn full_image_fills_all_of_ram() {
    let image = [0xAB; 256];
    let cpu = boot_image(&image);
    assert!(cpu.ram.iter().all(|b| *b == 0xAB));
}

#[test]
fn load_is_left_aligned_and_preserves_rest() {
    let mut cpu = CPU::new();
    cpu.copy_to_ram(&[0xAA; 256]);
    cpu.copy_to_ram(&[0x01, 0x02, 0x03]);
    assert_eq!(cpu.ram[0], 0x01);
    assert_eq!(cpu.ram[2], 0x03);
    assert_eq!(cpu.ram[3], 0xAA);
    assert_eq!(cpu.ram[255], 0xAA);
}

#[test]
fn dump_layout_is_the_fixed_hex_format() {
    let cpu = boot_image(&[0x00, 0x41]);
    let text = cpu.dump_ram_text();
    assert_eq!(text.len(), 929);
    // Row 0: newline, address "00", colon, space, then "00 41 ..." bytes.
    assert_eq!(&text[0..5], b"\n00: ");
    assert_eq!(&text[5..11], b"00 41 ");
    // Row 1 starts 29 characters in, at address 0x08.
    assert_eq!(&text[29..34], b"\n08: ");
    // Closing newline.
    assert_eq!(text[928], b'\n');
}

#[test]
fn dump_reparses_to_loaded_image_and_zeros() {
    let image: Vec<u8> = (0u16..200).map(|i| (i % 251) as u8).collect();
    let cpu = boot_image(&image);
    let text = cpu.dump_ram_text();
    let parsed = parse_ram_dump(&text).expect("a fresh dump must parse");
    assert_eq!(parsed.len(), 256);
    assert_eq!(&parsed[..200], &image[..]);
    assert!(parsed[200..].iter().all(|b| *b == 0));
    assert_eq!(parsed, cpu.ram);
}

#[test]
fn dump_of_full_ram_roundtrips() {
    let image: Vec<u8> = (0..256).map(|i| i as u8).collect();
    let cpu = boot_image(&image);
    let parsed = parse_ram_dump(&cpu.dump_ram_text()).expect("dump must parse");
    assert_eq!(parsed, cpu.ram);
}

#[test]
fn parse_rejects_wrong_length() {
    assert!(parse_ram_dump(&[]).is_none());
    assert!(parse_ram_dump(&[b'0'; 928]).is_none());
}

#[test]
fn parse_rejects_non_hex_digits() {
    let cpu = CPU::new();
    let mut text = cpu.dump_ram_text();
    text[5] = b'g';
    assert!(parse_ram_dump(&text).is_none());
}

#[test]
fn debug_rom_loads_at_zero() {
    let mut cpu = CPU::new();
    cpu.reset();
    cpu.load_debug_rom();
    assert_eq!(cpu.ram[0], 0x1C);
    assert_eq!(cpu.ram[1], 0x00);
    assert_eq!(cpu.ram[235], 0x00);
    assert!(cpu.ram[236..].iter().all(|b| *b == 0));
}

#[test]
fn debug_rom_prints_greeting_and_halts() {
    let mut cpu = CPU::new();
    cpu.reset();
    cpu.load_debug_rom();
    cpu.run_for(1_000_000);
    assert!(!cpu.is_running);
    assert_eq!(cpu.fault, None);
    let printed = String::from_utf8_lossy(&cpu.tty_out).to_string();
    assert!(printed.contains("Hello, World!"));
}
