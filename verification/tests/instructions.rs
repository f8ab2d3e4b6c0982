use tcpu::CPU;

/// Load `image` into a fresh machine and run it to completion (bounded).
fn run_image(image: &[u8]) -> CPU {
    let mut cpu = CPU::new();
    cpu.reset();
    cpu.copy_to_ram(image);
    cpu.run_for(100_000);
    cpu
}

#[test]
fn ldi_loads_immediate() {
    let cpu = run_image(&[0x00, 0x41, 0x10]);
    assert_eq!(cpu.reg_a, 0x41);
    assert!(!cpu.flag_zf);
    assert!(!cpu.is_running);
}

#[test]
fn ldi_zero_sets_zf() {
    let cpu = run_image(&[0x00, 0x00, 0x10]);
    assert_eq!(cpu.reg_a, 0x00);
    assert!(cpu.flag_zf);
}

#[test]
fn ldr_loads_direct() {
    let cpu = run_image(&[0x01, 0x03, 0x10, 0x77]);
    assert_eq!(cpu.reg_a, 0x77);
}

#[test]
fn ldri_loads_indirect() {
    let cpu = run_image(&[0x02, 0x03, 0x10, 0x04, 0x99]);
    assert_eq!(cpu.reg_a, 0x99);
}

#[test]
fn addi_without_carry() {
    let cpu = run_image(&[0x00, 0x20, 0x03, 0x15, 0x10]);
    assert_eq!(cpu.reg_a, 0x35);
    assert!(!cpu.flag_cf);
    assert!(!cpu.flag_zf);
}

#[test]
fn addi_with_carry_wraps() {
    // 200 + 100 = 300: carry out, A = 300 mod 256 = 44.
    let cpu = run_image(&[0x00, 200, 0x03, 100, 0x10]);
    assert_eq!(cpu.reg_a, 44);
    assert!(cpu.flag_cf);
    assert!(!cpu.flag_zf);
}

#[test]
fn addi_exact_wrap_to_zero() {
    // 128 + 128 = 256: carry out, A = 0, ZF set.
    let cpu = run_image(&[0x00, 128, 0x03, 128, 0x10]);
    assert_eq!(cpu.reg_a, 0);
    assert!(cpu.flag_cf);
    assert!(cpu.flag_zf);
}

#[test]
fn addr_adds_from_memory() {
    let cpu = run_image(&[0x00, 0x05, 0x04, 0x05, 0x10, 0x30]);
    assert_eq!(cpu.reg_a, 0x35);
    assert!(!cpu.flag_cf);
}

#[test]
fn subi_no_borrow_sets_cf() {
    // 10 - 3 = 7; CF reports "no borrow".
    let cpu = run_image(&[0x00, 10, 0x05, 3, 0x10]);
    assert_eq!(cpu.reg_a, 7);
    assert!(cpu.flag_cf);
}

#[test]
fn subi_borrow_clears_cf() {
    // 3 - 10 wraps to 249; CF clear means a borrow occurred.
    let cpu = run_image(&[0x00, 3, 0x05, 10, 0x10]);
    assert_eq!(cpu.reg_a, 249);
    assert!(!cpu.flag_cf);
}

#[test]
fn subi_equals_addi_of_not_plus_one() {
    // SUBI goes through the adder as a + NOT(b) + 1, so its result must
    // match that arithmetic exactly, and CF must report "no borrow".
    let a: u8 = 0x5A;
    let b: u8 = 0x21;
    let sub = run_image(&[0x00, a, 0x05, b, 0x10]);
    let expected = (a as u16 + (!b) as u16 + 1) % 256;
    assert_eq!(sub.reg_a as u16, expected);
    assert_eq!(sub.flag_cf, a >= b);
}

#[test]
fn subr_subtracts_from_memory() {
    let cpu = run_image(&[0x00, 10, 0x06, 0x05, 0x10, 4]);
    assert_eq!(cpu.reg_a, 6);
    assert!(cpu.flag_cf);
}

#[test]
fn str_stores_accumulator() {
    let cpu = run_image(&[0x00, 0x05, 0x07, 0x0A, 0x10]);
    assert_eq!(cpu.ram[0x0A], 0x05);
}

#[test]
fn stri_stores_through_pointer_and_skips_pad() {
    // STRI's target is the cell mem[b1]; the instruction is 3 bytes long.
    let cpu = run_image(&[0x00, 0x07, 0x08, 0x04, 0x30, 0x10]);
    assert_eq!(cpu.ram[0x30], 0x07);
    assert_eq!(cpu.reg_pc, 6);
}

#[test]
fn jmp_lands_on_target() {
    let cpu = run_image(&[0x09, 0x03, 0xFF, 0x10]);
    assert!(!cpu.is_running);
    assert_eq!(cpu.fault, None);
    assert_eq!(cpu.reg_pc, 4);
}

#[test]
fn jeq_taken_when_zf() {
    let cpu = run_image(&[0x00, 0x00, 0x0A, 0x05, 0xFF, 0x10]);
    assert_eq!(cpu.fault, None);
    assert_eq!(cpu.reg_pc, 6);
}

#[test]
fn jeq_not_taken_without_zf() {
    let cpu = run_image(&[0x00, 0x01, 0x0A, 0x06, 0x10, 0x00, 0xFF]);
    // Falls through to the HALT right after the branch.
    assert_eq!(cpu.fault, None);
    assert!(!cpu.is_running);
    assert_eq!(cpu.reg_pc, 5);
}

#[test]
fn jcs_taken_on_carry() {
    // 200 + 100 carries, so JCS jumps over the decode trap at 6.
    let cpu = run_image(&[0x00, 200, 0x03, 100, 0x0B, 0x07, 0xFF, 0x10]);
    assert_eq!(cpu.fault, None);
    assert_eq!(cpu.reg_pc, 8);
}

#[test]
fn jmpi_jumps_through_memory() {
    let cpu = run_image(&[0x0C, 0x02, 0x03, 0x10]);
    assert_eq!(cpu.fault, None);
    assert_eq!(cpu.reg_pc, 4);
}

#[test]
fn jeqi_taken_jumps_through_memory() {
    let cpu = run_image(&[0x00, 0x00, 0x0D, 0x04, 0x06, 0x00, 0x10]);
    assert_eq!(cpu.fault, None);
    assert_eq!(cpu.reg_pc, 7);
}

#[test]
fn jeqi_not_taken_consumes_extra_byte() {
    // Not taken: the handler moves one byte beyond the default advance, so
    // the next opcode is fetched three bytes after the JEQI.
    let cpu = run_image(&[0x00, 0x01, 0x0D, 0x09, 0x00, 0x10]);
    assert_eq!(cpu.fault, None);
    assert_eq!(cpu.reg_pc, 6);
}

#[test]
fn rol_shifts_out_high_bit() {
    let cpu = run_image(&[0x00, 0xC1, 0x11, 0x10]);
    assert_eq!(cpu.reg_a, 0x82);
    assert!(!cpu.is_running);
    assert_eq!(cpu.reg_pc, 4);
}

#[test]
fn asl_rotates_high_bit_into_low() {
    let cpu = run_image(&[0x00, 0xC1, 0x14, 0x00, 0x10]);
    assert_eq!(cpu.reg_a, 0x83);
}

#[test]
fn nandi_computes_not_and() {
    let cpu = run_image(&[0x00, 0xF0, 0x15, 0xAA, 0x10]);
    assert_eq!(cpu.reg_a, 0x5F);
    assert!(!cpu.flag_zf);
}

#[test]
fn nandi_to_zero_sets_zf() {
    let cpu = run_image(&[0x00, 0xFF, 0x15, 0xFF, 0x10]);
    assert_eq!(cpu.reg_a, 0x00);
    assert!(cpu.flag_zf);
}

#[test]
fn nandr_uses_direct_operand() {
    let cpu = run_image(&[0x00, 0xF0, 0x16, 0x05, 0x10, 0xAA]);
    assert_eq!(cpu.reg_a, 0x5F);
}

#[test]
fn nop_only_advances_one_byte() {
    let cpu = run_image(&[0x17, 0x17, 0x10]);
    assert_eq!(cpu.reg_pc, 3);
}

#[test]
fn ainc_then_adec_restores_a() {
    let cpu = run_image(&[0x00, 0x7F, 0x18, 0x19, 0x10]);
    assert_eq!(cpu.reg_a, 0x7F);
    assert!(!cpu.flag_zf);
}

#[test]
fn ainc_then_adec_on_zero_sets_zf() {
    let cpu = run_image(&[0x00, 0x00, 0x18, 0x19, 0x10]);
    assert_eq!(cpu.reg_a, 0x00);
    assert!(cpu.flag_zf);
}

#[test]
fn ainc_wraps_at_255() {
    let cpu = run_image(&[0x00, 0xFF, 0x18, 0x10]);
    assert_eq!(cpu.reg_a, 0x00);
    assert!(cpu.flag_zf);
}

#[test]
fn adec_wraps_at_zero() {
    let cpu = run_image(&[0x00, 0x00, 0x19, 0x10]);
    assert_eq!(cpu.reg_a, 0xFF);
    assert!(!cpu.flag_zf);
}

#[test]
fn rinc_increments_cell_and_loads_it() {
    let cpu = run_image(&[0x1A, 0x03, 0x10, 0x07]);
    assert_eq!(cpu.ram[3], 0x08);
    assert_eq!(cpu.reg_a, 0x08);
}

#[test]
fn rdec_decrements_cell_and_loads_it() {
    let cpu = run_image(&[0x1B, 0x03, 0x10, 0x07]);
    assert_eq!(cpu.ram[3], 0x06);
    assert_eq!(cpu.reg_a, 0x06);
}

#[test]
fn inxr_adds_into_memory() {
    let cpu = run_image(&[0x12, 0x05, 0x02, 0x10, 0x00, 0x09]);
    assert_eq!(cpu.ram[5], 0x0B);
    assert_eq!(cpu.reg_pc, 4);
}

#[test]
fn dexr_subtracts_from_memory() {
    let cpu = run_image(&[0x13, 0x05, 0x02, 0x10, 0x00, 0x09]);
    assert_eq!(cpu.ram[5], 0x07);
    assert_eq!(cpu.reg_pc, 4);
}

#[test]
fn pha_then_pla_restores_a_and_sp() {
    let cpu = run_image(&[0x1C, 0x00, 0x42, 0x1D, 0x00, 0x1E, 0x10]);
    assert_eq!(cpu.reg_a, 0x42);
    assert_eq!(cpu.ram[0xFF], 0xFE);
}

#[test]
fn pha_writes_at_stack_pointer() {
    let cpu = run_image(&[0x1C, 0x00, 0x42, 0x1D, 0x00, 0x10]);
    assert_eq!(cpu.ram[0xFE], 0x42);
    assert_eq!(cpu.ram[0xFF], 0xFD);
}

#[test]
fn jsr_then_rts_returns_to_pushed_byte() {
    let cpu = run_image(&[0x1C, 0x1F, 0x05, 0x06, 0x00, 0x10, 0x20]);
    assert_eq!(cpu.fault, None);
    assert!(!cpu.is_running);
    // The return byte 5 was pushed and popped; HALT at 5 leaves PC at 6.
    assert_eq!(cpu.ram[0xFE], 0x05);
    assert_eq!(cpu.reg_pc, 6);
    assert_eq!(cpu.ram[0xFF], 0xFE);
}

#[test]
fn sinc_increments_stack_pointer() {
    let cpu = run_image(&[0x1C, 0x23, 0x00, 0x10]);
    assert_eq!(cpu.ram[0xFF], 0xFF);
    assert_eq!(cpu.reg_pc, 4);
}

#[test]
fn ldsa_reads_two_above_stack_pointer() {
    let cpu = run_image(&[0x1C, 0x24, 0x44, 0x24, 0x55, 0x21, 0x10]);
    assert_eq!(cpu.reg_a, 0x44);
    assert_eq!(cpu.reg_pc, 7);
}

#[test]
fn stsa_writes_two_above_stack_pointer() {
    let cpu = run_image(&[0x1C, 0x24, 0x44, 0x24, 0x55, 0x00, 0x66, 0x22, 0x00, 0x10]);
    assert_eq!(cpu.ram[0xFE], 0x66);
}

#[test]
fn phi_pushes_immediate() {
    let cpu = run_image(&[0x1C, 0x24, 0x05, 0x10]);
    assert_eq!(cpu.ram[0xFE], 0x05);
    assert_eq!(cpu.ram[0xFF], 0xFD);
}

#[test]
fn ttyo_emits_accumulator() {
    let cpu = run_image(&[0x00, 0x41, 0x0F, 0x0F, 0x10]);
    assert_eq!(cpu.tty_out, vec![0x41, 0x41]);
}
