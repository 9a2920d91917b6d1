//! System-level behavior: construction, program loading, control flow and
//! the stack discipline, the wait-for-key state machine, the framebuffer
//! instructions, and the reported outcomes.

use chip8::cpu::CPU;
use chip8::cpu::Chip8Error;
use chip8::cpu::StepOutcome;

/// A fresh machine with a sequence of opcode bytes placed at the reset
/// vector.
fn boot_program(bytes: &[u8]) -> CPU {
    let mut c = CPU::new();
    let program: Vec<u8> = bytes.to_vec();
    c.load_game(&program).unwrap();
    c
}

#[test]
fn construction_preloads_font_and_resets_state() {
    let c = CPU::new();
    assert_eq!(c.memory.len(), 4096);
    assert_eq!(c.memory[0], 0xF0); // first byte of glyph 0
    assert_eq!(c.memory[5], 0x20); // first byte of glyph 1
    assert_eq!(c.memory[179], 0x7C); // last byte of the large glyph 9
    assert_eq!(c.memory[180], 0);
    assert_eq!(c.memory[0x200], 0);
    assert_eq!(c.pc, 0x200);
    assert_eq!(c.sp, 0);
    assert_eq!(c.i, 0);
    assert!(!c.is_extended);
    assert!(c.awaiting_key.is_none());
    assert!(c.graphics.iter().all(|&p| p == 0));
    assert!(c.v.iter().all(|&r| r == 0));
}

#[test]
fn load_game_places_image_at_reset_vector() {
    let c = boot_program(&[0x12, 0x34, 0x56]);
    assert_eq!(c.memory[0x200], 0x12);
    assert_eq!(c.memory[0x201], 0x34);
    assert_eq!(c.memory[0x202], 0x56);
    assert_eq!(c.memory[0x203], 0);
}

#[test]
fn load_game_accepts_exactly_fitting_image() {
    let mut c = CPU::new();
    let program = vec![0xABu8; 4096 - 0x200];
    assert_eq!(c.load_game(&program), Ok(()));
    assert_eq!(c.memory[4095], 0xAB);
}

#[test]
fn load_game_rejects_oversized_image() {
    let mut c = CPU::new();
    let program = vec![0u8; 4096 - 0x200 + 1];
    assert_eq!(c.load_game(&program), Err(Chip8Error::ProgramTooLarge));
    assert_eq!(c.memory[0x200], 0); // untouched
}

#[test]
fn jump_sets_program_counter() {
    let mut c = boot_program(&[0x13, 0x00]); // JP 0x300
    c.emulate_cycle(0).unwrap();
    assert_eq!(c.pc, 0x300);
}

#[test]
fn jump_displaced_by_v0() {
    let mut c = boot_program(&[0xB3, 0x00]); // JP V0 + 0x300
    c.v[0] = 0x21;
    c.emulate_cycle(0).unwrap();
    assert_eq!(c.pc, 0x321);
}

#[test]
fn call_and_return() {
    let mut c = boot_program(&[0x23, 0x00]); // CALL 0x300
    c.memory[0x300] = 0x00;
    c.memory[0x301] = 0xEE; // RET
    c.emulate_cycle(0).unwrap();
    assert_eq!(c.pc, 0x300);
    assert_eq!(c.sp, 1);
    assert_eq!(c.stack[0], 0x200);
    c.emulate_cycle(0).unwrap();
    assert_eq!(c.pc, 0x202); // resumes just past the call
    assert_eq!(c.sp, 0);
}

#[test]
fn return_on_empty_stack_is_an_error() {
    let mut c = boot_program(&[0x00, 0xEE]);
    assert_eq!(c.emulate_cycle(0), Err(Chip8Error::StackUnderflow));
    assert_eq!(c.pc, 0x200); // machine untouched
}

#[test]
fn call_nesting_beyond_sixteen_is_an_error() {
    let mut c = boot_program(&[0x22, 0x00]); // CALL 0x200, forever
    for _ in 0..16 {
        assert_eq!(c.emulate_cycle(0), Ok(StepOutcome::Proceed));
    }
    assert_eq!(c.sp, 16);
    assert_eq!(c.emulate_cycle(0), Err(Chip8Error::StackOverflow));
    assert_eq!(c.sp, 16);
}

#[test]
fn unknown_opcode_is_reported_and_stepped_over() {
    let mut c = boot_program(&[0xFF, 0xFF]);
    assert_eq!(c.emulate_cycle(0), Ok(StepOutcome::UnknownOpcode(0xFFFF)));
    assert_eq!(c.pc, 0x202); // no stall
}

#[test]
fn exit_instruction_reports_exit() {
    let mut c = boot_program(&[0x00, 0xFD]);
    assert_eq!(c.emulate_cycle(0), Ok(StepOutcome::Exit));
    assert_eq!(c.pc, 0x202);
}

#[test]
fn mode_switching() {
    let mut c = boot_program(&[0x00, 0xFF, 0x00, 0xFE]);
    c.emulate_cycle(0).unwrap();
    assert!(c.is_extended);
    c.emulate_cycle(0).unwrap();
    assert!(!c.is_extended);
}

#[test]
fn key_wait_idles_until_pressed_then_resumes_in_one_step() {
    let mut c = boot_program(&[0xF2, 0x0A]); // LD V2, K
    c.emulate_cycle(0).unwrap();
    assert_eq!(c.pc, 0x200); // suspended on the instruction
    assert_eq!(c.awaiting_key, Some(2));
    for _ in 0..5 {
        c.emulate_cycle(0).unwrap();
        assert_eq!(c.pc, 0x200);
    }
    let mut keys = vec![false; 16];
    keys[0xB] = true;
    c.set_keys(&keys);
    c.emulate_cycle(0).unwrap();
    assert_eq!(c.v[2], 0xB);
    assert_eq!(c.pc, 0x202); // stored and advanced in one step
    assert_eq!(c.awaiting_key, None);
}

#[test]
fn key_wait_takes_lowest_pressed_key() {
    let mut c = boot_program(&[0xF0, 0x0A]);
    c.emulate_cycle(0).unwrap();
    let mut keys = vec![false; 16];
    keys[9] = true;
    keys[3] = true;
    c.set_keys(&keys);
    c.emulate_cycle(0).unwrap();
    assert_eq!(c.v[0], 3);
}

#[test]
fn key_wait_completes_immediately_when_key_already_down() {
    let mut c = boot_program(&[0xF7, 0x0A]);
    let mut keys = vec![false; 16];
    keys[4] = true;
    c.set_keys(&keys);
    c.emulate_cycle(0).unwrap();
    assert_eq!(c.v[7], 4);
    assert_eq!(c.pc, 0x202);
    assert_eq!(c.awaiting_key, None);
}

#[test]
fn key_skips() {
    let mut c = boot_program(&[0xE0, 0x9E]); // SKP V0
    c.v[0] = 6;
    let mut keys = vec![false; 16];
    keys[6] = true;
    c.set_keys(&keys);
    c.emulate_cycle(0).unwrap();
    assert_eq!(c.pc, 0x204);

    let mut c = boot_program(&[0xE0, 0xA1]); // SKNP V0
    c.v[0] = 6;
    c.emulate_cycle(0).unwrap();
    assert_eq!(c.pc, 0x204); // key not pressed

    let mut c = boot_program(&[0xE0, 0xA1]);
    c.v[0] = 6;
    let mut keys = vec![false; 16];
    keys[6] = true;
    c.set_keys(&keys);
    c.emulate_cycle(0).unwrap();
    assert_eq!(c.pc, 0x202);
}

#[test]
fn sprite_collision_and_double_draw_clears() {
    let mut c = boot_program(&[0xD0, 0x11, 0xD0, 0x11]); // DRW V0, V1, 1 twice
    c.memory[0x300] = 0xFF; // 8x1 sprite, all bits set
    c.i = 0x300;
    c.emulate_cycle(0).unwrap();
    assert_eq!(c.v[15], 0); // no prior pixels
    assert!(c.draw_flag);
    for x in 0..8 {
        assert_eq!(c.graphics[x], 1);
    }
    c.emulate_cycle(0).unwrap();
    assert_eq!(c.v[15], 1); // every pixel collided
    for x in 0..8 {
        assert_eq!(c.graphics[x], 0); // XOR twice restores emptiness
    }
}

#[test]
fn sprite_wraps_horizontally_in_base_mode() {
    let mut c = boot_program(&[0xD0, 0x11]);
    c.memory[0x300] = 0xFF;
    c.i = 0x300;
    c.v[0] = 60; // 4 columns before the 64-wide base edge
    c.emulate_cycle(0).unwrap();
    for x in 60..64 {
        assert_eq!(c.graphics[x], 1);
    }
    for x in 0..4 {
        assert_eq!(c.graphics[x], 1); // wrapped around
    }
    assert_eq!(c.graphics[4], 0);
}

#[test]
fn sprite_clips_in_extended_mode() {
    let mut c = boot_program(&[0x00, 0xFF, 0xD0, 0x11]); // HIRES; DRW
    c.memory[0x300] = 0xFF;
    c.i = 0x300;
    c.v[0] = 124; // 4 columns before the 128-wide extended edge
    c.emulate_cycle(0).unwrap();
    c.emulate_cycle(0).unwrap();
    for x in 124..128 {
        assert_eq!(c.graphics[x], 1);
    }
    for x in 0..5 {
        assert_eq!(c.graphics[x], 0); // clipped, not wrapped
    }
}

#[test]
fn zero_height_draw_in_base_mode_is_a_no_op() {
    let mut c = boot_program(&[0xD0, 0x10]);
    c.memory[0x300] = 0xFF;
    c.i = 0x300;
    c.emulate_cycle(0).unwrap();
    assert!(c.graphics.iter().all(|&p| p == 0));
    assert_eq!(c.v[15], 0);
    assert_eq!(c.pc, 0x202);
}

#[test]
fn sixteen_wide_sprite_in_extended_mode() {
    let mut c = boot_program(&[0x00, 0xFF, 0xD0, 0x10]); // HIRES; DRW V0, V1, 0
    for r in 0..16 {
        c.memory[0x300 + r] = 0x80; // leftmost bit of each row word
    }
    c.i = 0x300;
    c.emulate_cycle(0).unwrap();
    c.emulate_cycle(0).unwrap();
    for y in 0..16 {
        assert_eq!(c.graphics[y * 128], 1); // bit 0 of the high byte
        assert_eq!(c.graphics[y * 128 + 8], 1); // the same byte fills the low half
        assert_eq!(c.graphics[y * 128 + 1], 0);
    }
    assert_eq!(c.graphics[16 * 128], 0);
}

#[test]
fn clear_screen() {
    let mut c = boot_program(&[0x00, 0xE0]);
    c.graphics[100] = 1;
    c.emulate_cycle(0).unwrap();
    assert!(c.graphics.iter().all(|&p| p == 0));
}

#[test]
fn scroll_left_then_right_restores_all_but_edge_columns() {
    let mut c = boot_program(&[0x00, 0xFC, 0x00, 0xFB]); // scroll left; scroll right
    c.is_extended = true;
    c.graphics[5 * 128 + 10] = 1;
    c.graphics[7 * 128 + 2] = 1; // within the 4 columns that will be lost
    c.graphics[40 * 128 + 127] = 1;
    c.emulate_cycle(0).unwrap();
    assert_eq!(c.graphics[5 * 128 + 6], 1); // moved 4 columns left
    c.emulate_cycle(0).unwrap();
    assert_eq!(c.graphics[5 * 128 + 10], 1); // restored
    assert_eq!(c.graphics[40 * 128 + 127], 1); // restored
    assert_eq!(c.graphics[7 * 128 + 2], 0); // shifted out, stays cleared
}

#[test]
fn scroll_down_moves_rows_and_clears_top() {
    let mut c = boot_program(&[0x00, 0xC3]); // scroll 3 rows down
    c.graphics[10 * 128 + 50] = 1;
    c.graphics[1 * 128 + 8] = 1;
    c.emulate_cycle(0).unwrap();
    assert_eq!(c.graphics[13 * 128 + 50], 1);
    assert_eq!(c.graphics[4 * 128 + 8], 1);
    assert_eq!(c.graphics[10 * 128 + 50], 0);
    for x in 0..128 {
        assert_eq!(c.graphics[x], 0); // top rows cleared
        assert_eq!(c.graphics[128 + x], 0);
        assert_eq!(c.graphics[2 * 128 + x], 0);
    }
}

#[test]
fn byte_accessors_roundtrip() {
    let mut c = CPU::new();
    c.write_byte(0x7FF, 0x5A);
    assert_eq!(c.read_byte(0x7FF), 0x5A);
    assert_eq!(c.read_byte(0x0), 0xF0); // font untouched
}

#[test]
fn display_dimensions_follow_the_mode() {
    let mut c = CPU::new();
    assert_eq!((c.display_width(), c.display_height()), (64, 32));
    c.is_extended = true;
    assert_eq!((c.display_width(), c.display_height()), (128, 64));
}

#[test]
fn pixel_accessor_reads_the_framebuffer() {
    let mut c = CPU::new();
    c.graphics[9 * 128 + 17] = 1;
    assert_eq!(c.pixel_at(17, 9), 1);
    assert_eq!(c.pixel_at(18, 9), 0);
}

#[test]
fn set_keys_replaces_the_snapshot() {
    let mut c = CPU::new();
    let mut keys = vec![false; 16];
    keys[0] = true;
    keys[15] = true;
    c.set_keys(&keys);
    assert!(c.key[0]);
    assert!(c.key[15]);
    assert!(!c.key[7]);
    let keys2 = vec![false; 16];
    c.set_keys(&keys2);
    assert!(!c.key[0]);
}
