use chip8::chip_8::{decode, Chip8};
use chip8::io_interface::IOInterface;
use chip8::model::{Fault, Instruction};
use chip8::platform::Platform;

fn machine_with(program: &[u8]) -> Chip8 {
    let mut chip = Chip8::new();
    assert_eq!(chip.load_program(program), Ok(()));
    chip
}

fn screen_is_blank(chip: &Chip8) -> bool {
    chip.display.iter().all(|lit| !lit)
}

#[test]
fn new_machine_is_reset_with_font() {
    let chip = Chip8::new();
    assert_eq!(chip.pc, 0x200);
    assert_eq!(chip.i, 0);
    assert_eq!(chip.sp, 0);
    assert_eq!(&chip.ram[0x50..0x55], &[0xF0, 0x90, 0x90, 0x90, 0xF0]);
    assert_eq!(&chip.ram[0x9B..0xA0], &[0xF0, 0x80, 0xF0, 0x80, 0x80]);
    assert_eq!(chip.ram[0x4F], 0);
    assert_eq!(chip.ram[0xA0], 0);
    assert!(screen_is_blank(&chip));
}

#[test]
fn add_sets_carry_when_sum_overflows() {
    let mut chip = machine_with(&[0x81, 0x24]);
    chip.regs[1] = 200;
    chip.regs[2] = 100;
    assert_eq!(chip.step(0), Ok(()));
    assert_eq!(chip.regs[1], 44);
    assert_eq!(chip.regs[0xF], 1);
}

#[test]
fn add_clears_carry_without_overflow() {
    let mut chip = machine_with(&[0x81, 0x24]);
    chip.regs[1] = 200;
    chip.regs[2] = 55;
    chip.regs[0xF] = 1;
    assert_eq!(chip.step(0), Ok(()));
    assert_eq!(chip.regs[1], 255);
    assert_eq!(chip.regs[0xF], 0);
}

#[test]
fn shift_right_moves_low_bit_into_flag() {
    let mut chip = machine_with(&[0x83, 0x06]);
    chip.regs[3] = 0b1000_0011;
    assert_eq!(chip.step(0), Ok(()));
    assert_eq!(chip.regs[3], 0b0100_0001);
    assert_eq!(chip.regs[0xF], 1);
}

#[test]
fn shift_left_moves_high_bit_into_flag() {
    let mut chip = machine_with(&[0x83, 0x0E, 0x84, 0x0E]);
    chip.regs[3] = 0b1000_0011;
    chip.regs[4] = 0b0100_0000;
    assert_eq!(chip.step(0), Ok(()));
    assert_eq!(chip.regs[3], 0b0000_0110);
    assert_eq!(chip.regs[0xF], 1);
    assert_eq!(chip.step(0), Ok(()));
    assert_eq!(chip.regs[4], 0b1000_0000);
    assert_eq!(chip.regs[0xF], 0);
}

#[test]
fn subtract_sets_no_borrow_flag() {
    let mut chip = machine_with(&[0x81, 0x25, 0x83, 0x47]);
    chip.regs[1] = 10;
    chip.regs[2] = 10;
    chip.regs[3] = 20;
    chip.regs[4] = 5;
    assert_eq!(chip.step(0), Ok(()));
    assert_eq!(chip.regs[1], 0);
    assert_eq!(chip.regs[0xF], 1);
    assert_eq!(chip.step(0), Ok(()));
    assert_eq!(chip.regs[3], 241);
    assert_eq!(chip.regs[0xF], 0);
}

#[test]
fn add_byte_wraps_without_flag() {
    let mut chip = machine_with(&[0x75, 0x10]);
    chip.regs[5] = 0xF8;
    assert_eq!(chip.step(0), Ok(()));
    assert_eq!(chip.regs[5], 0x08);
    assert_eq!(chip.regs[0xF], 0);
}

#[test]
fn clear_screen_turns_every_pixel_off() {
    let mut chip = machine_with(&[0x00, 0xE0]);
    for p in 0..chip.display.len() {
        chip.display[p] = p % 3 == 0;
    }
    assert_eq!(chip.step(0), Ok(()));
    assert!(screen_is_blank(&chip));
}

#[test]
fn call_then_return_restores_pc() {
    // 0x200: call 0x206; 0x206: return
    let mut chip = machine_with(&[0x22, 0x06, 0x00, 0x00, 0x00, 0x00, 0x00, 0xEE]);
    assert_eq!(chip.step(0), Ok(()));
    assert_eq!(chip.pc, 0x206);
    assert_eq!(chip.sp, 1);
    assert_eq!(chip.stack[0], 0x202);
    assert_eq!(chip.step(0), Ok(()));
    assert_eq!(chip.pc, 0x202);
    assert_eq!(chip.sp, 0);
}

#[test]
fn drawing_full_row_twice_restores_screen() {
    // I = 0x300; draw V0, V1, 1 row; draw again
    let mut chip = machine_with(&[0xA3, 0x00, 0xD0, 0x11, 0xD0, 0x11]);
    chip.ram[0x300] = 0xFF;
    chip.regs[0] = 10;
    chip.regs[1] = 5;
    assert_eq!(chip.step(0), Ok(()));
    assert_eq!(chip.step(0), Ok(()));
    assert_eq!(chip.regs[0xF], 0);
    for col in 0..64 {
        assert_eq!(chip.display[5 * 64 + col], (10..18).contains(&col));
    }
    assert_eq!(chip.step(0), Ok(()));
    assert!(screen_is_blank(&chip));
    assert_eq!(chip.regs[0xF], 1);
}

#[test]
fn drawing_clips_at_right_and_bottom_edges() {
    let mut chip = machine_with(&[0xA3, 0x00, 0xD0, 0x12]);
    chip.ram[0x300] = 0xFF;
    chip.ram[0x301] = 0xFF;
    chip.regs[0] = 60;
    chip.regs[1] = 31;
    assert_eq!(chip.step(0), Ok(()));
    assert_eq!(chip.step(0), Ok(()));
    let lit: Vec<usize> = (0..2048).filter(|&p| chip.display[p]).collect();
    assert_eq!(lit, vec![31 * 64 + 60, 31 * 64 + 61, 31 * 64 + 62, 31 * 64 + 63]);
}

#[test]
fn drawing_wraps_the_origin() {
    let mut chip = machine_with(&[0xA3, 0x00, 0xD0, 0x11]);
    chip.ram[0x300] = 0x80;
    chip.regs[0] = 64 + 3;
    chip.regs[1] = 32 + 2;
    assert_eq!(chip.step(0), Ok(()));
    assert_eq!(chip.step(0), Ok(()));
    assert!(chip.display[2 * 64 + 3]);
}

#[test]
fn bcd_of_157() {
    let mut chip = machine_with(&[0xF2, 0x33]);
    chip.regs[2] = 157;
    chip.i = 0x400;
    assert_eq!(chip.step(0), Ok(()));
    assert_eq!(&chip.ram[0x400..0x403], &[1, 5, 7]);
}

#[test]
fn clear_program_steps_to_next_word() {
    let mut chip = machine_with(&[0x00, 0xE0]);
    let result = chip.step(0);
    assert_eq!(result, Ok(()));
    assert_eq!(chip.pc, 0x202);
    assert!(screen_is_blank(&chip));
}

#[test]
fn unknown_word_is_reported_and_skipped() {
    let mut chip = machine_with(&[0xFF, 0xFF]);
    chip.regs[4] = 9;
    let regs = chip.regs;
    let ram = chip.ram;
    assert_eq!(chip.step(0), Err(Fault::UnknownOpcode(0xFFFF)));
    assert_eq!(chip.pc, 0x202);
    assert_eq!(chip.regs, regs);
    assert_eq!(chip.ram, ram);
}

#[test]
fn decode_examples() {
    assert_eq!(decode(0xFFFF), None);
    assert_eq!(decode(0x0123), None);
    assert_eq!(decode(0x5121), None);
    assert_eq!(decode(0x812F), None);
    assert_eq!(decode(0x00E0), Some(Instruction::Cls));
    assert_eq!(decode(0x8124), Some(Instruction::AddReg { x: 1, y: 2 }));
    assert_eq!(decode(0xDAB5), Some(Instruction::Draw { x: 0xA, y: 0xB, n: 5 }));
    assert_eq!(decode(0x1ABC), Some(Instruction::Jump { nnn: 0xABC }));
    assert_eq!(decode(0x3C42), Some(Instruction::SkipEqByte { x: 0xC, kk: 0x42 }));
    assert_eq!(decode(0xF765), Some(Instruction::LoadRegs { x: 7 }));
}

#[test]
fn program_too_large_is_refused() {
    let mut chip = Chip8::new();
    let big = vec![1u8; 4096 - 0x200 + 1];
    assert_eq!(chip.load_program(&big), Err(Fault::ProgramTooLarge));
    assert_eq!(chip.ram[0x200], 0);
    let fits = vec![1u8; 4096 - 0x200];
    assert_eq!(chip.load_program(&fits), Ok(()));
    assert_eq!(chip.ram[0xFFF], 1);
}

#[test]
fn return_on_empty_stack_underflows() {
    let mut chip = machine_with(&[0x00, 0xEE]);
    assert_eq!(chip.step(0), Err(Fault::StackUnderflow));
    assert_eq!(chip.pc, 0x202);
    assert_eq!(chip.sp, 0);
}

#[test]
fn call_on_full_stack_overflows() {
    // 0x200: call 0x200, forever
    let mut chip = machine_with(&[0x22, 0x00]);
    for _ in 0..16 {
        assert_eq!(chip.step(0), Ok(()));
    }
    assert_eq!(chip.sp, 16);
    assert_eq!(chip.step(0), Err(Fault::StackOverflow));
    assert_eq!(chip.sp, 16);
}

#[test]
fn fetch_past_memory_end_faults() {
    let mut chip = Chip8::new();
    chip.pc = 0xFFF;
    assert_eq!(chip.step(0), Err(Fault::AddressOutOfRange));
    assert_eq!(chip.pc, 0xFFF);
}

#[test]
fn bcd_past_memory_end_faults() {
    let mut chip = machine_with(&[0xF0, 0x33]);
    chip.i = 0xFFE;
    assert_eq!(chip.step(0), Err(Fault::AddressOutOfRange));
    assert_eq!(chip.ram[0xFFE], 0);
    assert_eq!(chip.pc, 0x202);
}

#[test]
fn key_skip_with_bad_key_faults() {
    let mut chip = machine_with(&[0xE1, 0x9E]);
    chip.regs[1] = 16;
    assert_eq!(chip.step(0), Err(Fault::InvalidKey));
}

#[test]
fn key_skips_follow_keypad() {
    let mut chip = machine_with(&[0xE1, 0x9E, 0x00, 0x00, 0xE1, 0xA1]);
    chip.regs[1] = 7;
    chip.keypad[7] = true;
    assert_eq!(chip.step(0), Ok(()));
    assert_eq!(chip.pc, 0x204);
    assert_eq!(chip.step(0), Ok(()));
    assert_eq!(chip.pc, 0x206);
}

#[test]
fn random_byte_is_masked() {
    let mut chip = machine_with(&[0xC3, 0x0F]);
    assert_eq!(chip.step(0xAB), Ok(()));
    assert_eq!(chip.regs[3], 0x0B);
}

#[test]
fn cycle_with_zero_mask_gives_zero() {
    let mut chip = machine_with(&[0xC3, 0x00, 0xC4, 0xF0]);
    chip.regs[3] = 9;
    assert_eq!(chip.cycle(), Ok(()));
    assert_eq!(chip.regs[3], 0);
    assert_eq!(chip.cycle(), Ok(()));
    assert_eq!(chip.regs[4] & 0x0F, 0);
    assert_eq!(chip.pc, 0x204);
}

#[test]
fn timers_tick_down_and_stop_at_zero() {
    // V0 = 2; delay = V0; sound = V0; then two no-op jumps
    let mut chip = machine_with(&[0x60, 0x02, 0xF0, 0x15, 0xF0, 0x18, 0x12, 0x08, 0x12, 0x0A, 0xF1, 0x07]);
    assert_eq!(chip.step(0), Ok(()));
    assert_eq!(chip.step(0), Ok(()));
    assert_eq!(chip.delay_t, 1);
    assert_eq!(chip.step(0), Ok(()));
    assert_eq!(chip.sound_t, 1);
    assert_eq!(chip.delay_t, 0);
    assert_eq!(chip.step(0), Ok(()));
    assert_eq!(chip.sound_t, 0);
    assert_eq!(chip.delay_t, 0);
    assert_eq!(chip.step(0), Ok(()));
    assert_eq!(chip.step(0), Ok(()));
    assert_eq!(chip.regs[1], 0);
}

#[test]
fn wait_key_repeats_until_pressed() {
    let mut chip = machine_with(&[0xF5, 0x0A]);
    assert_eq!(chip.step(0), Ok(()));
    assert_eq!(chip.pc, 0x200);
    chip.keypad[9] = true;
    chip.keypad[12] = true;
    assert_eq!(chip.step(0), Ok(()));
    assert_eq!(chip.pc, 0x202);
    assert_eq!(chip.regs[5], 9);
}

#[test]
fn jumps_and_index_loads() {
    // jump 0x204; (skipped); I = 0x123; jump V0 + 0x300
    let mut chip = machine_with(&[0x12, 0x04, 0x00, 0x00, 0xA1, 0x23, 0xB3, 0x00]);
    chip.regs[0] = 0x10;
    assert_eq!(chip.step(0), Ok(()));
    assert_eq!(chip.pc, 0x204);
    assert_eq!(chip.step(0), Ok(()));
    assert_eq!(chip.i, 0x123);
    assert_eq!(chip.step(0), Ok(()));
    assert_eq!(chip.pc, 0x310);
}

#[test]
fn glyph_address_and_index_add() {
    let mut chip = machine_with(&[0xF2, 0x29, 0xF3, 0x1E]);
    chip.regs[2] = 0xA;
    chip.regs[3] = 7;
    assert_eq!(chip.step(0), Ok(()));
    assert_eq!(chip.i, 0x50 + 50);
    assert_eq!(chip.step(0), Ok(()));
    assert_eq!(chip.i, 0x50 + 57);
}

#[test]
fn store_and_load_register_ranges() {
    let mut chip = machine_with(&[0xF2, 0x55, 0xF1, 0x65]);
    chip.regs[0] = 11;
    chip.regs[1] = 22;
    chip.regs[2] = 33;
    chip.regs[3] = 44;
    chip.i = 0x500;
    assert_eq!(chip.step(0), Ok(()));
    assert_eq!(&chip.ram[0x500..0x504], &[11, 22, 33, 0]);
    chip.ram[0x500] = 1;
    chip.ram[0x501] = 2;
    chip.ram[0x502] = 3;
    assert_eq!(chip.step(0), Ok(()));
    assert_eq!(&chip.regs[0..4], &[1, 2, 33, 44]);
}

#[test]
fn register_logic_ops() {
    let mut chip = machine_with(&[0x80, 0x11, 0x82, 0x12, 0x84, 0x13, 0x86, 0x10]);
    chip.regs[0] = 0b1100;
    chip.regs[1] = 0b1010;
    chip.regs[2] = 0b1100;
    chip.regs[4] = 0b1100;
    chip.regs[6] = 0xEE;
    for _ in 0..4 {
        assert_eq!(chip.step(0), Ok(()));
    }
    assert_eq!(chip.regs[0], 0b1110);
    assert_eq!(chip.regs[2], 0b1000);
    assert_eq!(chip.regs[4], 0b0110);
    assert_eq!(chip.regs[6], 0b1010);
}

#[test]
fn conditional_skips() {
    // 3xkk taken, 4xkk not taken, 5xy0 taken, 9xy0 not taken
    let mut chip = machine_with(&[0x31, 0x05, 0, 0, 0x41, 0x05, 0x51, 0x20, 0, 0, 0x91, 0x20]);
    chip.regs[1] = 5;
    chip.regs[2] = 5;
    assert_eq!(chip.step(0), Ok(()));
    assert_eq!(chip.pc, 0x204);
    assert_eq!(chip.step(0), Ok(()));
    assert_eq!(chip.pc, 0x206);
    assert_eq!(chip.step(0), Ok(()));
    assert_eq!(chip.pc, 0x20A);
    assert_eq!(chip.step(0), Ok(()));
    assert_eq!(chip.pc, 0x20C);
}

#[test]
fn io_interface_starts_and_clears_blank() {
    let mut io = IOInterface::new();
    assert!(io.display_buffer.iter().all(|&p| p == 0));
    assert!(io.keypad.iter().all(|&k| k == 0));
    io.display_buffer[100] = 0xFFFF_FFFF;
    io.keypad[3] = 1;
    io.clear();
    assert!(io.display_buffer.iter().all(|&p| p == 0));
    assert_eq!(io.keypad[3], 1);
}

#[test]
fn platform_starts_and_clears_blank() {
    let mut platform = Platform::new();
    assert!(platform.display.iter().all(|row| row.iter().all(|&p| p == 0)));
    platform.display[31][63] = 1;
    platform.clear();
    assert!(platform.display.iter().all(|row| row.iter().all(|&p| p == 0)));
}
