//! Instruction-level behavior: arithmetic and flag conventions, shifts,
//! index operations, skips, and the flag-register exclusion quirk.

use chip8::cpu::CPU;
use chip8::cpu::StepOutcome;

/// A fresh machine with one opcode placed at the reset vector.
fn boot_with(hi: u8, lo: u8) -> CPU {
    let mut c = CPU::new();
    c.memory[0x200] = hi;
    c.memory[0x201] = lo;
    c
}

#[test]
fn add_sets_carry_on_wraparound() {
    let mut c = boot_with(0x80, 0x14); // ADD V0, V1
    c.v[0] = 200;
    c.v[1] = 100;
    assert_eq!(c.emulate_cycle(0), Ok(StepOutcome::Proceed));
    assert_eq!(c.v[0], 44); // (200 + 100) mod 256
    assert_eq!(c.v[15], 1);
    assert_eq!(c.pc, 0x202);
}

#[test]
fn add_clears_carry_without_overflow() {
    let mut c = boot_with(0x80, 0x14);
    c.v[0] = 20;
    c.v[1] = 30;
    c.v[15] = 1;
    c.emulate_cycle(0).unwrap();
    assert_eq!(c.v[0], 50);
    assert_eq!(c.v[15], 0);
}

#[test]
fn sub_flag_set_when_no_borrow() {
    let mut c = boot_with(0x80, 0x15); // SUB V0, V1
    c.v[0] = 50;
    c.v[1] = 20;
    c.emulate_cycle(0).unwrap();
    assert_eq!(c.v[0], 30);
    assert_eq!(c.v[15], 1);
}

#[test]
fn sub_flag_clear_when_borrow() {
    let mut c = boot_with(0x80, 0x15);
    c.v[0] = 20;
    c.v[1] = 50;
    c.emulate_cycle(0).unwrap();
    assert_eq!(c.v[0], 226); // (20 - 50) mod 256
    assert_eq!(c.v[15], 0);
}

#[test]
fn subn_reversed_direction() {
    let mut c = boot_with(0x80, 0x17); // SUBN V0, V1 : V0 = V1 - V0
    c.v[0] = 20;
    c.v[1] = 50;
    c.emulate_cycle(0).unwrap();
    assert_eq!(c.v[0], 30);
    assert_eq!(c.v[15], 1);
}

#[test]
fn shift_left_captures_high_bit() {
    let mut c = boot_with(0x80, 0x0E); // SHL V0
    c.v[0] = 150; // 0b1001_0110
    c.emulate_cycle(0).unwrap();
    assert_eq!(c.v[15], 128); // the 0x80 mask of the pre-shift value
    assert_eq!(c.v[0], 44); // (150 * 2) mod 256
}

#[test]
fn shift_left_low_value() {
    let mut c = boot_with(0x80, 0x0E);
    c.v[0] = 3;
    c.emulate_cycle(0).unwrap();
    assert_eq!(c.v[15], 0);
    assert_eq!(c.v[0], 6);
}

#[test]
fn shift_right_captures_low_bit() {
    let mut c = boot_with(0x81, 0x06); // SHR V1
    c.v[1] = 5;
    c.emulate_cycle(0).unwrap();
    assert_eq!(c.v[15], 1);
    assert_eq!(c.v[1], 2);
}

#[test]
fn add_imm_wraps_and_leaves_flag_alone() {
    let mut c = boot_with(0x70, 0xFF); // ADD V0, 0xFF
    c.v[0] = 2;
    c.v[15] = 7;
    c.emulate_cycle(0).unwrap();
    assert_eq!(c.v[0], 1); // (2 + 255) mod 256
    assert_eq!(c.v[15], 7); // carry flag untouched by add-immediate
}

#[test]
fn add_imm_to_flag_register_is_skipped() {
    let mut c = boot_with(0x7F, 0x05); // ADD VF, 5 : the exclusion quirk
    c.v[15] = 9;
    c.emulate_cycle(0).unwrap();
    assert_eq!(c.v[15], 9);
    assert_eq!(c.pc, 0x202); // still advances
}

#[test]
fn add_index_from_flag_register_is_skipped() {
    let mut c = boot_with(0xFF, 0x1E); // ADD I, VF : the exclusion quirk
    c.i = 0x123;
    c.v[15] = 44;
    c.emulate_cycle(0).unwrap();
    assert_eq!(c.i, 0x123);
    assert_eq!(c.pc, 0x202);
}

#[test]
fn add_index_accumulates() {
    let mut c = boot_with(0xF3, 0x1E); // ADD I, V3
    c.i = 0x100;
    c.v[3] = 0x20;
    c.emulate_cycle(0).unwrap();
    assert_eq!(c.i, 0x120);
}

#[test]
fn bitwise_ops() {
    let mut c = boot_with(0x80, 0x11); // OR V0, V1
    c.v[0] = 0b1100;
    c.v[1] = 0b1010;
    c.emulate_cycle(0).unwrap();
    assert_eq!(c.v[0], 0b1110);

    let mut c = boot_with(0x80, 0x12); // AND V0, V1
    c.v[0] = 0b1100;
    c.v[1] = 0b1010;
    c.emulate_cycle(0).unwrap();
    assert_eq!(c.v[0], 0b1000);

    let mut c = boot_with(0x80, 0x13); // XOR V0, V1
    c.v[0] = 0b1100;
    c.v[1] = 0b1010;
    c.emulate_cycle(0).unwrap();
    assert_eq!(c.v[0], 0b0110);
}

#[test]
fn load_immediate_and_copy() {
    let mut c = boot_with(0x6A, 0x42); // LD VA, 0x42
    c.emulate_cycle(0).unwrap();
    assert_eq!(c.v[10], 0x42);

    let mut c = boot_with(0x80, 0xA0); // LD V0, VA
    c.v[10] = 0x17;
    c.emulate_cycle(0).unwrap();
    assert_eq!(c.v[0], 0x17);
}

#[test]
fn skip_if_equal_immediate() {
    let mut c = boot_with(0x30, 0x42); // SE V0, 0x42
    c.v[0] = 0x42;
    c.emulate_cycle(0).unwrap();
    assert_eq!(c.pc, 0x204);

    let mut c = boot_with(0x30, 0x42);
    c.v[0] = 0x41;
    c.emulate_cycle(0).unwrap();
    assert_eq!(c.pc, 0x202);
}

#[test]
fn skip_if_not_equal_immediate() {
    let mut c = boot_with(0x40, 0x42); // SNE V0, 0x42
    c.v[0] = 0;
    c.emulate_cycle(0).unwrap();
    assert_eq!(c.pc, 0x204);

    let mut c = boot_with(0x40, 0x42);
    c.v[0] = 0x42;
    c.emulate_cycle(0).unwrap();
    assert_eq!(c.pc, 0x202);
}

#[test]
fn skip_on_register_compare() {
    let mut c = boot_with(0x51, 0x20); // SE V1, V2
    c.v[1] = 7;
    c.v[2] = 7;
    c.emulate_cycle(0).unwrap();
    assert_eq!(c.pc, 0x204);

    let mut c = boot_with(0x91, 0x20); // SNE V1, V2
    c.v[1] = 7;
    c.v[2] = 8;
    c.emulate_cycle(0).unwrap();
    assert_eq!(c.pc, 0x204);
}

#[test]
fn random_is_masked_by_immediate() {
    let mut c = boot_with(0xC0, 0xF0); // RND V0, 0xF0
    c.emulate_cycle(0xAB).unwrap();
    assert_eq!(c.v[0], 0xA0); // 0xAB & 0xF0
}

#[test]
fn random_with_zero_mask_is_zero() {
    // Through the process-wide generator: whatever byte is drawn, the zero
    // mask forces a zero result.
    let mut c = boot_with(0xC5, 0x00); // RND V5, 0x00
    c.v[5] = 0xEE;
    c.emulate_cycle_random().unwrap();
    assert_eq!(c.v[5], 0);
}

#[test]
fn font_addresses() {
    let mut c = boot_with(0xF0, 0x29); // LD F, V0 (small glyph)
    c.v[0] = 0xA;
    c.emulate_cycle(0).unwrap();
    assert_eq!(c.i, 50); // 10 * 5

    let mut c = boot_with(0xF0, 0x30); // LD HF, V0 (large glyph)
    c.v[0] = 7;
    c.emulate_cycle(0).unwrap();
    assert_eq!(c.i, 150); // 7 * 10 + 80
}

#[test]
fn decimal_decomposition() {
    let mut c = boot_with(0xF5, 0x33); // BCD V5
    c.v[5] = 205;
    c.i = 0x500;
    c.emulate_cycle(0).unwrap();
    assert_eq!(c.memory[0x500], 2);
    assert_eq!(c.memory[0x501], 0);
    assert_eq!(c.memory[0x502], 5);
}

#[test]
fn decimal_decomposition_small_value() {
    let mut c = boot_with(0xF5, 0x33);
    c.v[5] = 7;
    c.i = 0x500;
    c.emulate_cycle(0).unwrap();
    assert_eq!(c.memory[0x500], 0);
    assert_eq!(c.memory[0x501], 0);
    assert_eq!(c.memory[0x502], 7);
}

#[test]
fn register_block_save_load_round_trip() {
    let mut c = CPU::new();
    c.memory[0x200] = 0xF3;
    c.memory[0x201] = 0x55; // LD [I], V3
    c.memory[0x202] = 0xF3;
    c.memory[0x203] = 0x65; // LD V3, [I]
    c.i = 0x400;
    c.v[0] = 1;
    c.v[1] = 2;
    c.v[2] = 3;
    c.v[3] = 4;
    c.v[4] = 99;
    c.emulate_cycle(0).unwrap();
    assert_eq!(&c.memory[0x400..0x404], &[1, 2, 3, 4]);
    for j in 0..4 {
        c.v[j] = 0;
    }
    c.emulate_cycle(0).unwrap();
    assert_eq!(&c.v[0..5], &[1, 2, 3, 4, 99]);
    assert_eq!(c.i, 0x400); // the index register is not advanced
}

#[test]
fn rpl_flags_survive_register_changes() {
    let mut c = CPU::new();
    c.memory[0x200] = 0xF3;
    c.memory[0x201] = 0x75; // save V0..=V3 to the auxiliary flags
    c.memory[0x202] = 0xF3;
    c.memory[0x203] = 0x85; // load them back
    c.v[0] = 11;
    c.v[1] = 22;
    c.v[2] = 33;
    c.v[3] = 44;
    c.emulate_cycle(0).unwrap();
    assert_eq!(&c.rpl_user_flags[0..4], &[11, 22, 33, 44]);
    for j in 0..4 {
        c.v[j] = 0;
    }
    c.emulate_cycle(0).unwrap();
    assert_eq!(&c.v[0..4], &[11, 22, 33, 44]);
}

#[test]
fn rpl_range_is_cut_off_at_eight() {
    let mut c = boot_with(0xFF, 0x75); // save V0..=VF: only 8 slots exist
    for j in 0..16 {
        c.v[j] = j as u8 + 1;
    }
    c.emulate_cycle(0).unwrap();
    assert_eq!(&c.rpl_user_flags[..], &[1, 2, 3, 4, 5, 6, 7, 8]);
}

#[test]
fn timer_reads_and_writes() {
    let mut c = boot_with(0xF4, 0x15); // LD DT, V4
    c.v[4] = 9;
    c.emulate_cycle(0).unwrap();
    assert_eq!(c.delay_timer, 9);

    let mut c = boot_with(0xF4, 0x18); // LD ST, V4
    c.v[4] = 5;
    c.emulate_cycle(0).unwrap();
    assert_eq!(c.sound_timer, 5);

    let mut c = boot_with(0xF6, 0x07); // LD V6, DT
    c.delay_timer = 3;
    c.emulate_cycle(0).unwrap();
    assert_eq!(c.v[6], 3);
}

#[test]
fn tick_timers_decrements_with_floor_at_zero() {
    let mut c = CPU::new();
    c.delay_timer = 2;
    c.sound_timer = 0;
    c.tick_timers();
    assert_eq!(c.delay_timer, 1);
    assert_eq!(c.sound_timer, 0);
    c.tick_timers();
    c.tick_timers();
    assert_eq!(c.delay_timer, 0);
    assert_eq!(c.sound_timer, 0);
}

#[test]
fn steps_do_not_touch_timers() {
    // Timer countdown is the driver's cadence, decoupled from instruction
    // throughput.
    let mut c = boot_with(0x60, 0x01); // LD V0, 1
    c.delay_timer = 7;
    c.sound_timer = 7;
    c.emulate_cycle(0).unwrap();
    assert_eq!(c.delay_timer, 7);
    assert_eq!(c.sound_timer, 7);
}
