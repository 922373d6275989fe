use mos6502::cpu::Cpu;
use mos6502::errors::CpuError;

fn loaded(code: &[u8]) -> Cpu {
    let mut cpu = Cpu::new();
    cpu.load(code, None).unwrap();
    cpu
}

#[test]
fn lda_then_adc_immediate() {
    let mut cpu = loaded(&[0xA9, 0x05, 0x69, 0x03]);
    cpu.step_n(2).unwrap();
    assert_eq!(cpu.registers.a, 0x08);
    assert!(!cpu.flags.carry);
    assert!(!cpu.flags.zero);
    assert!(!cpu.flags.sign);
}

#[test]
fn adc_wraps_and_sets_carry() {
    let mut cpu = loaded(&[0xA9, 0xFD, 0x69, 0x05]);
    cpu.step_n(2).unwrap();
    assert_eq!(cpu.registers.a, 0x02);
    assert!(cpu.flags.carry);
}

#[test]
fn adc_decimal_low_nibble_adjust() {
    let mut cpu = loaded(&[0xF8, 0xA9, 0x05, 0x69, 0x05]);
    cpu.step_n(3).unwrap();
    assert_eq!(cpu.registers.a, 0x10);
    assert!(cpu.flags.decimal);
    assert!(!cpu.flags.carry);
}

#[test]
fn adc_decimal_high_adjust_sets_carry() {
    let mut cpu = loaded(&[0xF8, 0xA9, 0x95, 0x69, 0x10]);
    cpu.step_n(3).unwrap();
    assert_eq!(cpu.registers.a, 0x05);
    assert!(cpu.flags.carry);
    assert!(cpu.flags.decimal);
}

#[test]
fn sta_absolute_stores_accumulator() {
    let mut cpu = loaded(&[0xA9, 0x20, 0x8D, 0x00, 0x20]);
    cpu.step_n(2).unwrap();
    assert_eq!(cpu.registers.a, 0x20);
    assert_eq!(cpu.memory.read_byte(0x2000), 0x20);
}

#[test]
fn bcc_taken_skips_forward() {
    let mut cpu = loaded(&[0xA9, 0xFE, 0x69, 0x01, 0x90, 0x03, 0xA9, 0x00]);
    cpu.step_n(3).unwrap();
    assert_eq!(cpu.registers.a, 0xFF);
    assert!(!cpu.flags.carry);
    assert_eq!(cpu.registers.pc, 0xC009);
}

#[test]
fn bit_preserves_accumulator_and_sets_zero() {
    let mut cpu = loaded(&[0xA9, 0xF0, 0x24, 0x00]);
    cpu.step_n(2).unwrap();
    assert_eq!(cpu.registers.a, 0xF0);
    assert!(cpu.flags.zero);
    assert!(!cpu.flags.overflow);
    assert!(!cpu.flags.sign);
}

#[test]
fn branch_not_taken_falls_through() {
    let mut cpu = loaded(&[0xA9, 0x01, 0xF0, 0x02]);
    cpu.step_n(2).unwrap();
    assert_eq!(cpu.registers.pc, 0xC004);
    assert_eq!(cpu.registers.a, 0x01);
}

#[test]
fn branch_backward_wraps_to_start() {
    let mut cpu = loaded(&[0xA9, 0x00, 0xF0, 0xFC]);
    cpu.step_n(2).unwrap();
    assert_eq!(cpu.registers.pc, 0xC000);
}

#[test]
fn unknown_opcode_reports_pc_and_byte() {
    let mut cpu = loaded(&[0xFF]);
    assert_eq!(cpu.step(), Err(CpuError::UnknownOpcode(0xC000, 0xFF)));
    assert_eq!(cpu.registers.pc, 0xC000);
}

#[test]
fn unimplemented_mnemonic_reports_unknown_opcode() {
    let mut cpu = loaded(&[0xEA]);
    assert_eq!(cpu.step(), Err(CpuError::UnknownOpcode(0xC000, 0xEA)));
    assert_eq!(cpu.registers.pc, 0xC000);
}

#[test]
fn step_n_stops_at_failing_step() {
    let mut cpu = loaded(&[0xA9, 0x01, 0xEA]);
    assert_eq!(cpu.step_n(5), Err(CpuError::UnknownOpcode(0xC002, 0xEA)));
    assert_eq!(cpu.registers.a, 0x01);
    assert_eq!(cpu.registers.pc, 0xC002);
}

#[test]
fn step_n_zero_changes_nothing() {
    let mut cpu = loaded(&[0xA9, 0x01]);
    cpu.step_n(0).unwrap();
    assert_eq!(cpu.registers.pc, 0xC000);
    assert_eq!(cpu.registers.a, 0x00);
}

#[test]
fn load_rejects_code_past_end_of_memory() {
    let mut cpu = Cpu::new();
    assert_eq!(
        cpu.load(&[0x00, 0x00], Some(0xFFFF)),
        Err(CpuError::CodeSegmentOutOfRange(0xFFFF))
    );
}

#[test]
fn load_accepts_code_ending_exactly_at_top() {
    let mut cpu = Cpu::new();
    cpu.load(&[0x12, 0x34], Some(0xFFFE)).unwrap();
    assert_eq!(cpu.memory.read_byte(0xFFFE), 0x12);
    assert_eq!(cpu.memory.read_byte(0xFFFF), 0x34);
    assert_eq!(cpu.registers.pc, 0xFFFE);
}

#[test]
fn load_defaults_to_code_segment_start() {
    let mut cpu = Cpu::new();
    cpu.load(&[0xA9, 0x05], None).unwrap();
    assert_eq!(cpu.registers.pc, 0xC000);
    assert_eq!(cpu.memory.read_byte(0xC000), 0xA9);
    assert_eq!(cpu.memory.read_byte(0xC001), 0x05);
}

#[test]
fn and_immediate_masks_accumulator() {
    let mut cpu = loaded(&[0xA9, 0xF0, 0x29, 0x0F]);
    cpu.step_n(2).unwrap();
    assert_eq!(cpu.registers.a, 0x00);
    assert!(cpu.flags.zero);
    assert!(!cpu.flags.sign);
}

#[test]
fn asl_accumulator_shifts_bit7_into_carry() {
    let mut cpu = loaded(&[0xA9, 0x81, 0x0A]);
    cpu.step_n(2).unwrap();
    assert_eq!(cpu.registers.a, 0x02);
    assert!(cpu.flags.carry);
    assert!(!cpu.flags.zero);
}

#[test]
fn asl_zero_page_shifts_in_memory() {
    let mut cpu = loaded(&[0x06, 0x10]);
    cpu.memory.write_byte(0x0010, 0x40);
    cpu.step().unwrap();
    assert_eq!(cpu.memory.read_byte(0x0010), 0x80);
    assert!(cpu.flags.sign);
    assert!(!cpu.flags.carry);
}

#[test]
fn dec_wraps_zero_to_ff() {
    let mut cpu = loaded(&[0xC6, 0x10]);
    cpu.memory.write_byte(0x0010, 0x00);
    cpu.step().unwrap();
    assert_eq!(cpu.memory.read_byte(0x0010), 0xFF);
    assert!(cpu.flags.sign);
    assert!(!cpu.flags.zero);
}

#[test]
fn cmp_equal_sets_zero_and_carry() {
    let mut cpu = loaded(&[0xA9, 0x05, 0xC9, 0x05]);
    cpu.step_n(2).unwrap();
    assert!(cpu.flags.zero);
    assert!(cpu.flags.carry);
    assert!(!cpu.flags.sign);
    assert_eq!(cpu.registers.a, 0x05);
}

#[test]
fn cpx_greater_sets_carry_only() {
    let mut cpu = loaded(&[0xA2, 0x05, 0xE0, 0x03]);
    cpu.step_n(2).unwrap();
    assert!(cpu.flags.carry);
    assert!(!cpu.flags.zero);
    assert!(!cpu.flags.sign);
}

#[test]
fn cpy_less_clears_carry_and_sets_sign() {
    let mut cpu = loaded(&[0xA0, 0x01, 0xC0, 0x02]);
    cpu.step_n(2).unwrap();
    assert!(!cpu.flags.carry);
    assert!(!cpu.flags.zero);
    assert!(cpu.flags.sign);
}

#[test]
fn ldx_zero_sets_zero_flag() {
    let mut cpu = loaded(&[0xA2, 0x00]);
    cpu.step().unwrap();
    assert_eq!(cpu.registers.x, 0x00);
    assert!(cpu.flags.zero);
}

#[test]
fn ldy_negative_sets_sign_flag() {
    let mut cpu = loaded(&[0xA0, 0x80]);
    cpu.step().unwrap();
    assert_eq!(cpu.registers.y, 0x80);
    assert!(cpu.flags.sign);
}

#[test]
fn lda_zero_page_x_wraps_in_zero_page() {
    let mut cpu = loaded(&[0xA2, 0x05, 0xB5, 0x10]);
    cpu.memory.write_byte(0x0015, 0x66);
    cpu.step_n(2).unwrap();
    assert_eq!(cpu.registers.a, 0x66);
}

#[test]
fn lda_absolute_x_indexes_past_base() {
    let mut cpu = loaded(&[0xA2, 0x01, 0xBD, 0x00, 0x20]);
    cpu.memory.write_byte(0x2001, 0x44);
    cpu.step_n(2).unwrap();
    assert_eq!(cpu.registers.a, 0x44);
}

#[test]
fn lda_indirect_x_reads_through_zero_page_pointer() {
    let mut cpu = loaded(&[0xA2, 0x04, 0xA1, 0x10]);
    cpu.memory.write_byte(0x0014, 0x00);
    cpu.memory.write_byte(0x0015, 0x30);
    cpu.memory.write_byte(0x3000, 0x77);
    cpu.step_n(2).unwrap();
    assert_eq!(cpu.registers.a, 0x77);
}

#[test]
fn lda_indirect_y_adds_index_after_pointer() {
    let mut cpu = loaded(&[0xA0, 0x03, 0xB1, 0x20]);
    cpu.memory.write_byte(0x0020, 0x00);
    cpu.memory.write_byte(0x0021, 0x40);
    cpu.memory.write_byte(0x4003, 0x55);
    cpu.step_n(2).unwrap();
    assert_eq!(cpu.registers.a, 0x55);
}

#[test]
fn clc_cld_cli_clv_clear_their_flags() {
    let mut cpu = loaded(&[0xF8, 0xD8, 0x18, 0x58, 0xB8]);
    cpu.step().unwrap();
    assert!(cpu.flags.decimal);
    cpu.step().unwrap();
    assert!(!cpu.flags.decimal);
    cpu.flags.carry = true;
    cpu.step().unwrap();
    assert!(!cpu.flags.carry);
    cpu.flags.interrupt_disabled = true;
    cpu.step().unwrap();
    assert!(!cpu.flags.interrupt_disabled);
    cpu.flags.overflow = true;
    cpu.step().unwrap();
    assert!(!cpu.flags.overflow);
}

#[test]
fn brk_pushes_state_and_jumps_through_vector() {
    let mut cpu = loaded(&[0x00]);
    cpu.memory.write_byte(0xFFFE, 0x00);
    cpu.memory.write_byte(0xFFFF, 0x80);
    cpu.step().unwrap();
    assert_eq!(cpu.registers.pc, 0x8000);
    assert_eq!(cpu.memory.read_byte(0x01FF), 0xC0);
    assert_eq!(cpu.memory.read_byte(0x01FE), 0x02);
    assert_eq!(cpu.memory.read_byte(0x01FD), 0x30);
    assert_eq!(cpu.stack.pointer, 0xFC);
    assert!(cpu.flags.interrupt_disabled);
    assert!(!cpu.flags.break_flag);
}

#[test]
fn adc_signed_overflow_sets_overflow_flag() {
    let mut cpu = loaded(&[0xA9, 0x50, 0x69, 0x50]);
    cpu.step_n(2).unwrap();
    assert_eq!(cpu.registers.a, 0xA0);
    assert!(cpu.flags.overflow);
    assert!(cpu.flags.sign);
}

#[test]
fn adc_unlike_signs_never_overflow() {
    let mut cpu = loaded(&[0xA9, 0x50, 0x69, 0x90]);
    cpu.step_n(2).unwrap();
    assert_eq!(cpu.registers.a, 0xE0);
    assert!(!cpu.flags.overflow);
}

#[test]
fn adc_uses_incoming_carry() {
    let mut cpu = loaded(&[0xA9, 0x01, 0x69, 0x01]);
    cpu.flags.carry = true;
    cpu.step_n(2).unwrap();
    assert_eq!(cpu.registers.a, 0x03);
}
