use nes_cpu::cpu::CPU;
use nes_cpu::utils::{get_high_byte, get_low_byte, make_word};

fn loaded(rom: &[u8]) -> CPU {
    let mut cpu = CPU::new();
    cpu.load_rom(&rom.to_vec());
    cpu
}

#[test]
fn new_core_is_zeroed() {
    let cpu = CPU::new();
    assert_eq!(cpu.a, 0);
    assert_eq!(cpu.x, 0);
    assert_eq!(cpu.y, 0);
    assert_eq!(cpu.s, 0);
    assert_eq!(cpu.p, 0);
    assert_eq!(cpu.pc, 0);
    assert_eq!(cpu.cycle_counter, 0);
    assert_eq!(cpu.memory.len(), 0x10000);
    assert_eq!(cpu.memory[0], 0);
    assert_eq!(cpu.memory[0xFFFF], 0);
}

#[test]
fn load_rom_sets_reset_state() {
    let cpu = loaded(&[0xEA]);
    assert_eq!(cpu.pc, 0xC000);
    assert_eq!(cpu.p, 0x24);
    assert_eq!(cpu.s, 0xFD);
}

#[test]
fn load_rom_mirrors_short_image() {
    let cpu = loaded(&[0xA9, 0x05]);
    assert_eq!(cpu.memory[0x8000], 0xA9);
    assert_eq!(cpu.memory[0x8001], 0x05);
    assert_eq!(cpu.memory[0xC000], 0xA9);
    assert_eq!(cpu.memory[0xC001], 0x05);
}

#[test]
fn load_rom_full_bank_is_not_mirrored() {
    let rom = vec![7u8; 16384];
    let cpu = loaded(&rom);
    assert_eq!(cpu.memory[0xC000], 7);
    assert_eq!(cpu.memory[0xFFFF], 7);
    assert_eq!(cpu.memory[0x8000], 0);
}

#[test]
fn lda_zero_sets_zero_clears_negative() {
    let mut cpu = loaded(&[0xA9, 0x00]);
    cpu.emulate_cycle();
    assert_eq!(cpu.a, 0);
    assert_ne!(cpu.p & 0x02, 0);
    assert_eq!(cpu.p & 0x80, 0);
}

#[test]
fn lda_bit7_sets_negative_clears_zero() {
    let mut cpu = loaded(&[0xA9, 0x80]);
    cpu.emulate_cycle();
    assert_eq!(cpu.a, 0x80);
    assert_ne!(cpu.p & 0x80, 0);
    assert_eq!(cpu.p & 0x02, 0);
}

#[test]
fn ldx_zero_sets_zero_clears_negative() {
    let mut cpu = loaded(&[0xA2, 0x00]);
    cpu.emulate_cycle();
    assert_eq!(cpu.x, 0);
    assert_ne!(cpu.p & 0x02, 0);
    assert_eq!(cpu.p & 0x80, 0);
}

#[test]
fn ldx_bit7_sets_negative_clears_zero() {
    let mut cpu = loaded(&[0xA2, 0x80]);
    cpu.emulate_cycle();
    assert_eq!(cpu.x, 0x80);
    assert_ne!(cpu.p & 0x80, 0);
    assert_eq!(cpu.p & 0x02, 0);
}

#[test]
fn lda_nonzero_clears_both_flags() {
    let mut cpu = loaded(&[0xA9, 0x05]);
    cpu.emulate_cycle();
    assert_eq!(cpu.a, 5);
    assert_eq!(cpu.p & 0x02, 0);
    assert_eq!(cpu.p & 0x80, 0);
}

#[test]
fn stack_push_pop_round_trip() {
    let mut cpu = loaded(&[0xEA]);
    cpu.push_stack(0x11);
    cpu.push_stack(0x22);
    cpu.push_stack(0x33);
    assert_eq!(cpu.s, 0xFA);
    assert_eq!(cpu.memory[0x01FD], 0x11);
    assert_eq!(cpu.memory[0x01FC], 0x22);
    assert_eq!(cpu.memory[0x01FB], 0x33);
    assert_eq!(cpu.pop_stack(), 0x33);
    assert_eq!(cpu.pop_stack(), 0x22);
    assert_eq!(cpu.pop_stack(), 0x11);
    assert_eq!(cpu.s, 0xFD);
}

#[test]
fn stack_pointer_wraps_modulo_256() {
    let mut cpu = loaded(&[0xEA]);
    cpu.s = 0x00;
    cpu.push_stack(0xAB);
    assert_eq!(cpu.s, 0xFF);
    assert_eq!(cpu.memory[0x0100], 0xAB);
    assert_eq!(cpu.pop_stack(), 0xAB);
    assert_eq!(cpu.s, 0x00);
}

#[test]
fn jsr_pushes_address_of_call_instructions_last_byte() {
    let mut cpu = loaded(&[0x20, 0x05, 0xC0, 0xEA, 0xEA, 0x60]);
    let cost = cpu.emulate_cycle();
    assert_eq!(cost, 6);
    assert_eq!(cpu.pc, 0xC005);
    assert_eq!(cpu.s, 0xFB);
    assert_eq!(cpu.memory[0x01FD], 0xC0);
    assert_eq!(cpu.memory[0x01FC], 0x02);
}

#[test]
fn jsr_then_rts_returns_past_the_call() {
    let mut cpu = loaded(&[0x20, 0x05, 0xC0, 0xEA, 0xEA, 0x60]);
    cpu.emulate_cycle();
    let cost = cpu.emulate_cycle();
    assert_eq!(cost, 6);
    assert_eq!(cpu.pc, 0xC003);
    assert_eq!(cpu.s, 0xFD);
}

#[test]
fn indirect_jump_reproduces_page_wrap_quirk() {
    let mut cpu = loaded(&[0x6C, 0xFF, 0x02]);
    cpu.memory[0x02FF] = 0x34;
    cpu.memory[0x0200] = 0x12;
    cpu.memory[0x0300] = 0x99;
    let cost = cpu.emulate_cycle();
    assert_eq!(cost, 5);
    assert_eq!(cpu.pc, 0x1234);
}

#[test]
fn indirect_jump_off_boundary_reads_next_byte() {
    let mut cpu = loaded(&[0x6C, 0xFE, 0x02]);
    cpu.memory[0x02FE] = 0x34;
    cpu.memory[0x02FF] = 0x12;
    cpu.emulate_cycle();
    assert_eq!(cpu.pc, 0x1234);
}

#[test]
fn scenario_load_store_load() {
    let mut cpu = loaded(&[0xA9, 0x05, 0x85, 0x10, 0xA2, 0x00, 0xE8]);
    cpu.emulate_cycle();
    cpu.emulate_cycle();
    cpu.emulate_cycle();
    assert_eq!(cpu.a, 5);
    assert_eq!(cpu.memory[0x10], 5);
    assert_eq!(cpu.x, 0);
}

#[test]
fn scenario_absolute_jump_from_reset_vector() {
    let mut cpu = loaded(&[0x4C, 0x00, 0x80]);
    let before: u64 = cpu.cycle_counter;
    let cost = cpu.emulate_cycle();
    assert_eq!(cpu.pc, 0x8000);
    assert_eq!(cost, 3);
    assert_eq!(cpu.cycle_counter, before + 3);
}

#[test]
fn scenario_branch_taken_on_carry_clear() {
    let mut cpu = loaded(&[0x90, 0x04]);
    assert_eq!(cpu.p & 0x01, 0);
    let cost = cpu.emulate_cycle();
    assert_eq!(cpu.pc, 0xC006);
    assert_eq!(cost, 3);
}

#[test]
fn branch_not_taken_falls_through() {
    let mut cpu = loaded(&[0xB0, 0x04]);
    let cost = cpu.emulate_cycle();
    assert_eq!(cpu.pc, 0xC002);
    assert_eq!(cost, 2);
}

#[test]
fn branch_with_negative_offset_goes_backwards() {
    let mut cpu = loaded(&[0xA9, 0x01, 0x90, 0xFC]);
    cpu.emulate_cycle();
    cpu.emulate_cycle();
    assert_eq!(cpu.pc, 0xC000);
}

#[test]
fn sec_sets_and_clc_clears_carry() {
    let mut cpu = loaded(&[0x38, 0x18]);
    let c1 = cpu.emulate_cycle();
    assert_eq!(cpu.p & 0x01, 0x01);
    assert_eq!(c1, 2);
    let c2 = cpu.emulate_cycle();
    assert_eq!(cpu.p & 0x01, 0);
    assert_eq!(c2, 2);
}

#[test]
fn bne_and_beq_follow_the_zero_flag() {
    let mut cpu = loaded(&[0xA2, 0x00, 0xD0, 0x02, 0xF0, 0x02]);
    cpu.emulate_cycle();
    let bne_cost = cpu.emulate_cycle();
    assert_eq!(cpu.pc, 0xC004);
    assert_eq!(bne_cost, 2);
    let beq_cost = cpu.emulate_cycle();
    assert_eq!(cpu.pc, 0xC008);
    assert_eq!(beq_cost, 3);
}

#[test]
fn bpl_taken_when_negative_clear() {
    let mut cpu = loaded(&[0xA9, 0x01, 0x10, 0x02]);
    cpu.emulate_cycle();
    cpu.emulate_cycle();
    assert_eq!(cpu.pc, 0xC006);
}

#[test]
fn bmi_taken_when_negative_set() {
    let mut cpu = loaded(&[0xA9, 0x80, 0x30, 0x02]);
    cpu.emulate_cycle();
    cpu.emulate_cycle();
    assert_eq!(cpu.pc, 0xC006);
}

#[test]
fn bvc_taken_when_overflow_clear() {
    let mut cpu = loaded(&[0x50, 0x02]);
    cpu.emulate_cycle();
    assert_eq!(cpu.pc, 0xC004);
}

#[test]
fn bvs_not_taken_when_overflow_clear() {
    let mut cpu = loaded(&[0x70, 0x02]);
    cpu.emulate_cycle();
    assert_eq!(cpu.pc, 0xC002);
}

#[test]
fn sta_writes_accumulator_without_flags() {
    let mut cpu = loaded(&[0xA9, 0x05, 0x85, 0x10]);
    cpu.emulate_cycle();
    let flags: u8 = cpu.p;
    let cost = cpu.emulate_cycle();
    assert_eq!(cpu.memory[0x10], 5);
    assert_eq!(cpu.p, flags);
    assert_eq!(cost, 3);
}

#[test]
fn stx_writes_x_register() {
    let mut cpu = loaded(&[0xA2, 0x77, 0x86, 0x21]);
    cpu.emulate_cycle();
    cpu.emulate_cycle();
    assert_eq!(cpu.memory[0x21], 0x77);
}

#[test]
fn lda_zero_page_reads_memory() {
    let mut cpu = loaded(&[0xA5, 0x42]);
    cpu.memory[0x42] = 0xAB;
    let cost = cpu.emulate_cycle();
    assert_eq!(cpu.a, 0xAB);
    assert_ne!(cpu.p & 0x80, 0);
    assert_eq!(cost, 3);
}

#[test]
fn lda_zero_page_x_wraps_in_page_zero() {
    let mut cpu = loaded(&[0xA2, 0x10, 0xB5, 0xF8]);
    cpu.memory[0x08] = 0x99;
    cpu.emulate_cycle();
    cpu.emulate_cycle();
    assert_eq!(cpu.a, 0x99);
}

#[test]
fn lda_absolute_reads_memory() {
    let mut cpu = loaded(&[0xAD, 0x34, 0x12]);
    cpu.memory[0x1234] = 0x56;
    let cost = cpu.emulate_cycle();
    assert_eq!(cpu.a, 0x56);
    assert_eq!(cost, 4);
}

#[test]
fn lda_absolute_x_adds_index() {
    let mut cpu = loaded(&[0xA2, 0x01, 0xBD, 0x00, 0x20]);
    cpu.memory[0x2001] = 3;
    cpu.emulate_cycle();
    cpu.emulate_cycle();
    assert_eq!(cpu.a, 3);
}

#[test]
fn ldx_absolute_y_adds_index() {
    let mut cpu = loaded(&[0xBE, 0x00, 0x20]);
    cpu.y = 2;
    cpu.memory[0x2002] = 9;
    cpu.emulate_cycle();
    assert_eq!(cpu.x, 9);
}

#[test]
fn lda_indexed_indirect_goes_through_zero_page() {
    let mut cpu = loaded(&[0xA2, 0x04, 0xA1, 0x3C]);
    cpu.memory[0x40] = 0x00;
    cpu.memory[0x41] = 0x30;
    cpu.memory[0x3000] = 0x7F;
    cpu.emulate_cycle();
    let cost = cpu.emulate_cycle();
    assert_eq!(cpu.a, 0x7F);
    assert_eq!(cost, 6);
}

#[test]
fn lda_indirect_indexed_adds_y_after_the_pointer() {
    let mut cpu = loaded(&[0xB1, 0x40]);
    cpu.y = 0x10;
    cpu.memory[0x40] = 0x00;
    cpu.memory[0x41] = 0x30;
    cpu.memory[0x3010] = 0x42;
    let cost = cpu.emulate_cycle();
    assert_eq!(cpu.a, 0x42);
    assert_eq!(cost, 5);
}

#[test]
fn indexed_indirect_pointer_wraps_in_zero_page() {
    let mut cpu = loaded(&[0xA1, 0xFF]);
    cpu.memory[0x00FF] = 0x22;
    cpu.memory[0x0000] = 0x11;
    cpu.memory[0x1122] = 5;
    cpu.emulate_cycle();
    assert_eq!(cpu.a, 5);
}

#[test]
fn adc_adds_without_carry_or_overflow() {
    let mut cpu = loaded(&[0xA9, 0x50, 0x69, 0x10]);
    cpu.emulate_cycle();
    let cost = cpu.emulate_cycle();
    assert_eq!(cpu.a, 0x60);
    assert_eq!(cpu.p & 0x01, 0);
    assert_eq!(cpu.p & 0x40, 0);
    assert_eq!(cost, 2);
}

#[test]
fn adc_sets_overflow_when_signs_agree_and_flip() {
    let mut cpu = loaded(&[0xA9, 0x50, 0x69, 0x50]);
    cpu.emulate_cycle();
    cpu.emulate_cycle();
    assert_eq!(cpu.a, 0xA0);
    assert_ne!(cpu.p & 0x40, 0);
    assert_eq!(cpu.p & 0x01, 0);
    assert_ne!(cpu.p & 0x80, 0);
}

#[test]
fn adc_sets_carry_and_zero_on_wraparound() {
    let mut cpu = loaded(&[0xA9, 0xFF, 0x69, 0x01]);
    cpu.emulate_cycle();
    cpu.emulate_cycle();
    assert_eq!(cpu.a, 0x00);
    assert_ne!(cpu.p & 0x01, 0);
    assert_ne!(cpu.p & 0x02, 0);
    assert_eq!(cpu.p & 0x40, 0);
}

#[test]
fn adc_adds_the_carry_flag_in() {
    let mut cpu = loaded(&[0x38, 0xA9, 0x00, 0x69, 0x01]);
    cpu.emulate_cycle();
    cpu.emulate_cycle();
    cpu.emulate_cycle();
    assert_eq!(cpu.a, 2);
    assert_eq!(cpu.p & 0x01, 0);
}

#[test]
fn adc_zero_page_reads_memory() {
    let mut cpu = loaded(&[0x65, 0x10]);
    cpu.memory[0x10] = 3;
    let cost = cpu.emulate_cycle();
    assert_eq!(cpu.a, 3);
    assert_eq!(cost, 3);
}

#[test]
fn nop_only_advances_and_costs_two() {
    let mut cpu = loaded(&[0xEA, 0xEA]);
    let c1 = cpu.emulate_cycle();
    let c2 = cpu.emulate_cycle();
    assert_eq!(cpu.pc, 0xC002);
    assert_eq!(c1, 2);
    assert_eq!(c2, 2);
    assert_eq!(cpu.cycle_counter, 4);
    assert_eq!(cpu.a, 0);
    assert_eq!(cpu.p, 0x24);
}

#[test]
fn opcode_support_is_reported() {
    assert!(CPU::opcode_supported(0xA9));
    assert!(CPU::opcode_supported(0x60));
    assert!(!CPU::opcode_supported(0xFF));
    assert!(!CPU::opcode_supported(0xE8));
}

#[test]
fn word_splitting_round_trips() {
    assert_eq!(get_high_byte(0xABCD), 0xAB);
    assert_eq!(get_low_byte(0xABCD), 0xCD);
    assert_eq!(make_word(0xAB, 0xCD), 0xABCD);
    assert_eq!(make_word(get_high_byte(0xBEEF), get_low_byte(0xBEEF)), 0xBEEF);
}
