use chip8_emulator::{Chip8, Instruction, Report};

fn with_registers(values: &[(usize, u8)]) -> Chip8 {
    let mut chip8 = Chip8::new();
    for &(x, value) in values {
        chip8.vx[x] = value;
    }
    chip8.pc = 0x300;
    chip8
}

#[test]
fn clear_screen_zeroes_all_cells_and_sets_the_flag() {
    let mut chip8 = Chip8::new();
    for cell in chip8.display.iter_mut() {
        *cell = 1;
    }
    assert_eq!(chip8.decode_execute(0x00E0), Report::Executed);
    assert_eq!(chip8.display.len(), 2048);
    assert!(chip8.display.iter().all(|&cell| cell == 0));
    assert!(chip8.draw_flag);
}

#[test]
fn clear_screen_on_a_dark_display_still_sets_the_flag() {
    let mut chip8 = Chip8::new();
    chip8.decode_execute(0x00E0);
    assert!(chip8.display.iter().all(|&cell| cell == 0));
    assert!(chip8.draw_flag);
    assert_eq!(chip8.vx, [0u8; 16]);
}

#[test]
fn system_call_does_nothing() {
    let mut chip8 = with_registers(&[(1, 7)]);
    let ram = chip8.ram;
    assert_eq!(chip8.decode_execute(0x0123), Report::Executed);
    assert_eq!(chip8.pc, 0x300);
    assert_eq!(chip8.vx[1], 7);
    assert_eq!(chip8.ram, ram);
    assert_eq!(chip8.sp, 0);
}

#[test]
fn jump_sets_the_program_counter() {
    let mut chip8 = with_registers(&[]);
    chip8.decode_execute(0x1ABC);
    assert_eq!(chip8.pc, 0xABC);
    assert_eq!(chip8.sp, 0);
}

#[test]
fn call_pushes_and_return_pops() {
    let mut chip8 = with_registers(&[]);
    chip8.decode_execute(0x2400);
    assert_eq!((chip8.pc, chip8.sp, chip8.stack[0]), (0x400, 1, 0x300));
    chip8.decode_execute(0x2500);
    assert_eq!((chip8.pc, chip8.sp, chip8.stack[1]), (0x500, 2, 0x400));
    chip8.decode_execute(0x00EE);
    assert_eq!((chip8.pc, chip8.sp), (0x400, 1));
    chip8.decode_execute(0x00EE);
    assert_eq!((chip8.pc, chip8.sp), (0x300, 0));
}

#[test]
fn call_fills_the_stack_to_sixteen() {
    let mut chip8 = with_registers(&[]);
    for depth in 0..16u16 {
        chip8.pc = 0x200 + depth;
        chip8.decode_execute(0x2300);
        assert_eq!(chip8.sp, depth + 1);
        assert_eq!(chip8.stack[depth as usize], 0x200 + depth);
    }
    for depth in (0..16u16).rev() {
        chip8.decode_execute(0x00EE);
        assert_eq!(chip8.sp, depth);
        assert_eq!(chip8.pc, 0x200 + depth);
    }
}

#[test]
fn skip_if_register_equals_byte() {
    let mut chip8 = with_registers(&[(2, 0x42)]);
    chip8.decode_execute(0x3242);
    assert_eq!(chip8.pc, 0x302);
    chip8.decode_execute(0x3243);
    assert_eq!(chip8.pc, 0x302);
}

#[test]
fn skip_if_register_differs_from_byte() {
    let mut chip8 = with_registers(&[(2, 0x42)]);
    chip8.decode_execute(0x4242);
    assert_eq!(chip8.pc, 0x300);
    chip8.decode_execute(0x4243);
    assert_eq!(chip8.pc, 0x302);
}

#[test]
fn skip_if_registers_are_equal() {
    let mut chip8 = with_registers(&[(1, 9), (2, 9), (3, 8)]);
    chip8.decode_execute(0x5120);
    assert_eq!(chip8.pc, 0x302);
    chip8.decode_execute(0x5130);
    assert_eq!(chip8.pc, 0x302);
    chip8.decode_execute(0x5110);
    assert_eq!(chip8.pc, 0x304);
}

#[test]
fn skip_if_registers_differ() {
    let mut chip8 = with_registers(&[(1, 9), (2, 9), (3, 8)]);
    chip8.decode_execute(0x9120);
    assert_eq!(chip8.pc, 0x300);
    chip8.decode_execute(0x9130);
    assert_eq!(chip8.pc, 0x302);
}

#[test]
fn load_byte_sets_the_register() {
    let mut chip8 = with_registers(&[(0xA, 1)]);
    chip8.decode_execute(0x6AFF);
    assert_eq!(chip8.vx[0xA], 0xFF);
    chip8.decode_execute(0x6F07);
    assert_eq!(chip8.vx[0xF], 7);
    assert_eq!(chip8.pc, 0x300);
}

#[test]
fn add_byte_wraps_and_leaves_the_flag() {
    let mut chip8 = with_registers(&[(1, 250), (0xF, 0)]);
    chip8.decode_execute(0x7105);
    assert_eq!((chip8.vx[1], chip8.vx[0xF]), (255, 0));
    chip8.decode_execute(0x7101);
    assert_eq!((chip8.vx[1], chip8.vx[0xF]), (0, 0));
    chip8.decode_execute(0x71FF);
    assert_eq!((chip8.vx[1], chip8.vx[0xF]), (255, 0));
    chip8.decode_execute(0x71FF);
    assert_eq!((chip8.vx[1], chip8.vx[0xF]), (254, 0));
    chip8.vx[0xF] = 1;
    chip8.decode_execute(0x7103);
    assert_eq!((chip8.vx[1], chip8.vx[0xF]), (1, 1));
}

#[test]
fn move_copies_a_register() {
    let mut chip8 = with_registers(&[(1, 3), (2, 200)]);
    chip8.decode_execute(0x8120);
    assert_eq!((chip8.vx[1], chip8.vx[2]), (200, 200));
}

#[test]
fn bitwise_instructions_leave_the_flag() {
    let mut chip8 = with_registers(&[(1, 0b1100), (2, 0b1010), (0xF, 9)]);
    chip8.decode_execute(0x8121);
    assert_eq!(chip8.vx[1], 0b1110);
    chip8.vx[1] = 0b1100;
    chip8.decode_execute(0x8122);
    assert_eq!(chip8.vx[1], 0b1000);
    chip8.vx[1] = 0b1100;
    chip8.decode_execute(0x8123);
    assert_eq!(chip8.vx[1], 0b0110);
    assert_eq!(chip8.vx[2], 0b1010);
    assert_eq!(chip8.vx[0xF], 9);
}

#[test]
fn add_registers_reports_the_carry() {
    let mut chip8 = with_registers(&[(1, 210), (2, 100), (0xF, 7)]);
    chip8.decode_execute(0x8124);
    assert_eq!((chip8.vx[1], chip8.vx[0xF]), (54, 1));
    chip8.vx[1] = 200;
    chip8.vx[2] = 55;
    chip8.decode_execute(0x8124);
    assert_eq!((chip8.vx[1], chip8.vx[0xF]), (255, 0));
    chip8.vx[2] = 1;
    chip8.decode_execute(0x8124);
    assert_eq!((chip8.vx[1], chip8.vx[0xF]), (0, 1));
    chip8.vx[1] = 255;
    chip8.decode_execute(0x8114);
    assert_eq!((chip8.vx[1], chip8.vx[0xF]), (254, 1));
}

#[test]
fn subtract_sets_the_flag_when_there_is_no_borrow() {
    let mut chip8 = with_registers(&[(1, 5), (2, 3)]);
    chip8.decode_execute(0x8125);
    assert_eq!((chip8.vx[1], chip8.vx[0xF]), (2, 1));
}

#[test]
fn subtract_clears_the_flag_on_borrow_and_wraps() {
    let mut chip8 = with_registers(&[(1, 3), (2, 5), (0xF, 1)]);
    chip8.decode_execute(0x8125);
    assert_eq!((chip8.vx[1], chip8.vx[0xF]), (254, 0));
}

#[test]
fn subtract_of_equal_values_has_no_borrow() {
    let mut chip8 = with_registers(&[(1, 77), (2, 77)]);
    chip8.decode_execute(0x8125);
    assert_eq!((chip8.vx[1], chip8.vx[0xF]), (0, 1));
}

#[test]
fn subtract_from_reverses_the_operands() {
    let mut chip8 = with_registers(&[(1, 3), (2, 5)]);
    chip8.decode_execute(0x8127);
    assert_eq!((chip8.vx[1], chip8.vx[2], chip8.vx[0xF]), (2, 5, 1));
    chip8.vx[1] = 5;
    chip8.vx[2] = 3;
    chip8.decode_execute(0x8127);
    assert_eq!((chip8.vx[1], chip8.vx[2], chip8.vx[0xF]), (254, 3, 0));
}

#[test]
fn shift_right_moves_the_lowest_bit_to_the_flag() {
    let mut chip8 = with_registers(&[(1, 0b1000_0101)]);
    chip8.decode_execute(0x8126);
    assert_eq!((chip8.vx[1], chip8.vx[0xF]), (0b0100_0010, 1));
    chip8.decode_execute(0x8126);
    assert_eq!((chip8.vx[1], chip8.vx[0xF]), (0b0010_0001, 0));
}

#[test]
fn shift_right_ignores_the_second_register() {
    let mut chip8 = with_registers(&[(1, 4), (2, 0xFF)]);
    chip8.decode_execute(0x8126);
    assert_eq!((chip8.vx[1], chip8.vx[2], chip8.vx[0xF]), (2, 0xFF, 0));
}

#[test]
fn shift_left_moves_the_highest_bit_to_the_flag() {
    let mut chip8 = with_registers(&[(1, 0b1100_0001)]);
    chip8.decode_execute(0x812E);
    assert_eq!((chip8.vx[1], chip8.vx[0xF]), (0b1000_0010, 1));
    chip8.decode_execute(0x812E);
    assert_eq!((chip8.vx[1], chip8.vx[0xF]), (0b0000_0100, 1));
    chip8.decode_execute(0x812E);
    assert_eq!((chip8.vx[1], chip8.vx[0xF]), (0b0000_1000, 0));
}

#[test]
fn add_into_the_flag_register_keeps_the_carry() {
    let mut chip8 = with_registers(&[(0xF, 200), (1, 100)]);
    chip8.decode_execute(0x8F14);
    assert_eq!(chip8.vx[0xF], 1);
    chip8.vx[0xF] = 20;
    chip8.decode_execute(0x8F14);
    assert_eq!(chip8.vx[0xF], 0);
}

#[test]
fn add_from_the_flag_register_reads_it_before_the_carry_is_written() {
    let mut chip8 = with_registers(&[(1, 200), (0xF, 100)]);
    chip8.decode_execute(0x81F4);
    assert_eq!((chip8.vx[1], chip8.vx[0xF]), (44, 1));
}

#[test]
fn subtract_with_the_flag_register_as_subtrahend_uses_its_value_before() {
    let mut chip8 = Chip8::new();
    chip8.decode_execute(0x6105);
    chip8.decode_execute(0x6F03);
    chip8.op_8xy5(1, 0xF);
    assert_eq!((chip8.vx[1], chip8.vx[0xF]), (2, 1));

    let mut chip8 = with_registers(&[(1, 10), (0xF, 3)]);
    chip8.decode_execute(0x81F5);
    assert_eq!((chip8.vx[1], chip8.vx[0xF]), (7, 1));

    let mut chip8 = with_registers(&[(1, 3), (0xF, 10)]);
    chip8.decode_execute(0x81F5);
    assert_eq!((chip8.vx[1], chip8.vx[0xF]), (249, 0));
}

#[test]
fn subtract_into_the_flag_register_leaves_the_flag() {
    let mut chip8 = with_registers(&[(0xF, 5), (1, 3)]);
    chip8.decode_execute(0x8F15);
    assert_eq!((chip8.vx[0xF], chip8.vx[1]), (1, 3));

    let mut chip8 = with_registers(&[(0xF, 3), (1, 5)]);
    chip8.decode_execute(0x8F15);
    assert_eq!((chip8.vx[0xF], chip8.vx[1]), (0, 5));
}

#[test]
fn subtract_from_with_the_flag_register_as_operand_uses_its_value_before() {
    let mut chip8 = with_registers(&[(1, 5), (0xF, 3)]);
    chip8.decode_execute(0x81F7);
    assert_eq!((chip8.vx[1], chip8.vx[0xF]), (254, 0));

    let mut chip8 = with_registers(&[(1, 3), (0xF, 5)]);
    chip8.decode_execute(0x81F7);
    assert_eq!((chip8.vx[1], chip8.vx[0xF]), (2, 1));

    let mut chip8 = with_registers(&[(0xF, 3), (1, 5)]);
    chip8.decode_execute(0x8F17);
    assert_eq!((chip8.vx[0xF], chip8.vx[1]), (1, 5));

    let mut chip8 = with_registers(&[(0xF, 5), (1, 3)]);
    chip8.decode_execute(0x8F17);
    assert_eq!((chip8.vx[0xF], chip8.vx[1]), (0, 3));
}

#[test]
fn shifts_of_the_flag_register_leave_the_bit_shifted_out() {
    let mut chip8 = with_registers(&[(0xF, 3)]);
    chip8.decode_execute(0x8F06);
    assert_eq!(chip8.vx[0xF], 1);
    chip8.vx[0xF] = 2;
    chip8.decode_execute(0x8F06);
    assert_eq!(chip8.vx[0xF], 0);
    chip8.vx[0xF] = 0x81;
    chip8.decode_execute(0x8F0E);
    assert_eq!(chip8.vx[0xF], 1);
    chip8.vx[0xF] = 0x7F;
    chip8.decode_execute(0x8F0E);
    assert_eq!(chip8.vx[0xF], 0);
}

#[test]
fn subtracting_a_register_from_itself_gives_zero_without_borrow() {
    let mut chip8 = with_registers(&[(4, 99)]);
    chip8.decode_execute(0x8445);
    assert_eq!((chip8.vx[4], chip8.vx[0xF]), (0, 1));
    chip8.vx[4] = 99;
    chip8.decode_execute(0x8447);
    assert_eq!((chip8.vx[4], chip8.vx[0xF]), (0, 1));
}

#[test]
fn load_index_sets_the_index_register() {
    let mut chip8 = with_registers(&[]);
    chip8.decode_execute(0xAFFF);
    assert_eq!(chip8.i, 0xFFF);
    chip8.decode_execute(0xA000);
    assert_eq!(chip8.i, 0);
}

#[test]
fn jump_offset_adds_register_zero() {
    let mut chip8 = with_registers(&[(0, 0x10)]);
    chip8.decode_execute(0xB300);
    assert_eq!(chip8.pc, 0x310);
    chip8.vx[0] = 0xFF;
    chip8.decode_execute(0xBFFF);
    assert_eq!(chip8.pc, 0x10FE);
}

#[test]
fn add_index_has_no_flag_effect_and_no_mask() {
    let mut chip8 = with_registers(&[(3, 0xFF), (0xF, 5)]);
    chip8.i = 0x0FFF;
    chip8.decode_execute(0xF31E);
    assert_eq!(chip8.i, 0x10FE);
    assert_eq!(chip8.vx[0xF], 5);
    chip8.i = 0xFF00;
    chip8.decode_execute(0xF31E);
    assert_eq!(chip8.i, 0xFFFF);
    assert_eq!(chip8.vx[0xF], 5);
}

#[test]
fn random_is_masked_with_the_byte() {
    let mut chip8 = with_registers(&[(4, 0xAB)]);
    chip8.decode_execute(0xC400);
    assert_eq!(chip8.vx[4], 0);
    for _ in 0..200 {
        chip8.decode_execute(0xC40F);
        assert!(chip8.vx[4] < 16);
        chip8.decode_execute(0xC4F0);
        assert_eq!(chip8.vx[4] & 0x0F, 0);
    }
    assert_eq!(chip8.pc, 0x300);
}

#[test]
fn random_draws_more_than_one_value() {
    let mut chip8 = with_registers(&[]);
    let mut seen = [false; 256];
    for _ in 0..4000 {
        chip8.op_cxnn(2, 0xFF);
        seen[chip8.vx[2] as usize] = true;
    }
    assert!(seen.iter().filter(|&&s| s).count() > 128);
}

#[test]
fn random_with_a_given_byte_is_exact() {
    let mut chip8 = with_registers(&[(0xF, 3)]);
    chip8.op_cxnn_with(5, 0b1111_0000, 0b1010_1010);
    assert_eq!(chip8.vx[5], 0b1010_0000);
    chip8.execute(Instruction::Random { x: 6, nn: 0x3C }, 0xFF);
    assert_eq!(chip8.vx[6], 0x3C);
    chip8.execute(Instruction::Random { x: 6, nn: 0xFF }, 0x5A);
    assert_eq!(chip8.vx[6], 0x5A);
    assert_eq!(chip8.vx[0xF], 3);
}

#[test]
fn skip_if_key_pressed() {
    let mut chip8 = with_registers(&[(1, 0xA), (2, 0)]);
    chip8.keypad[0xA] = true;
    chip8.decode_execute(0xE19E);
    assert_eq!(chip8.pc, 0x302);
    chip8.decode_execute(0xE29E);
    assert_eq!(chip8.pc, 0x302);
}

#[test]
fn skip_if_key_not_pressed() {
    let mut chip8 = with_registers(&[(1, 0xA), (2, 0xF)]);
    chip8.keypad[0xA] = true;
    chip8.decode_execute(0xE1A1);
    assert_eq!(chip8.pc, 0x300);
    chip8.decode_execute(0xE2A1);
    assert_eq!(chip8.pc, 0x302);
}

#[test]
fn timers_are_read_and_written_through_registers() {
    let mut chip8 = with_registers(&[(1, 33), (2, 44)]);
    chip8.decode_execute(0xF115);
    assert_eq!(chip8.delay_timer, 33);
    chip8.decode_execute(0xF218);
    assert_eq!(chip8.sound_timer, 44);
    chip8.decode_execute(0xF307);
    assert_eq!(chip8.vx[3], 33);
    assert_eq!((chip8.delay_timer, chip8.sound_timer), (33, 44));
}

#[test]
fn font_glyph_points_at_five_bytes_per_digit() {
    let mut chip8 = with_registers(&[]);
    for digit in 0..16u8 {
        chip8.vx[7] = digit;
        chip8.decode_execute(0xF729);
        assert_eq!(chip8.i, 0x50 + 5 * digit as u16);
    }
    assert_eq!(chip8.i, 0x9B);
}

#[test]
fn font_glyph_uses_the_low_nibble() {
    let mut chip8 = with_registers(&[(7, 0x1A)]);
    chip8.decode_execute(0xF729);
    assert_eq!(chip8.i, 0x50 + 5 * 0xA);
    chip8.vx[7] = 0xF0;
    chip8.decode_execute(0xF729);
    assert_eq!(chip8.i, 0x50);
    chip8.vx[7] = 0xFF;
    chip8.decode_execute(0xF729);
    assert_eq!(chip8.i, 0x9B);
}

#[test]
fn store_decimal_writes_hundreds_tens_ones() {
    let mut chip8 = with_registers(&[(1, 165)]);
    chip8.i = 0x400;
    chip8.decode_execute(0xF133);
    assert_eq!(&chip8.ram[0x400..0x403], &[1, 6, 5]);
    chip8.vx[1] = 7;
    chip8.decode_execute(0xF133);
    assert_eq!(&chip8.ram[0x400..0x403], &[0, 0, 7]);
    chip8.vx[1] = 255;
    chip8.decode_execute(0xF133);
    assert_eq!(&chip8.ram[0x400..0x403], &[2, 5, 5]);
    chip8.vx[1] = 100;
    chip8.i = 0xFFD;
    chip8.decode_execute(0xF133);
    assert_eq!(&chip8.ram[0xFFD..], &[1, 0, 0]);
    assert_eq!(chip8.i, 0xFFD);
    assert_eq!(chip8.ram[0x403], 0);
}

#[test]
fn store_registers_is_inclusive_and_ascending() {
    let mut chip8 = with_registers(&[(0, 10), (1, 11), (2, 12), (3, 13)]);
    chip8.i = 0x500;
    chip8.ram[0x503] = 0xEE;
    chip8.decode_execute(0xF255);
    assert_eq!(&chip8.ram[0x500..0x504], &[10, 11, 12, 0xEE]);
    assert_eq!(chip8.i, 0x500);
    chip8.decode_execute(0xF055);
    assert_eq!(&chip8.ram[0x500..0x504], &[10, 11, 12, 0xEE]);
}

#[test]
fn store_registers_can_store_all_sixteen() {
    let mut chip8 = Chip8::new();
    for x in 0..16 {
        chip8.vx[x] = 0xA0 + x as u8;
    }
    chip8.i = 0xFF0;
    chip8.decode_execute(0xFF55);
    for x in 0..16 {
        assert_eq!(chip8.ram[0xFF0 + x], 0xA0 + x as u8);
    }
    assert_eq!(chip8.ram[0xFEF], 0);
}

#[test]
fn load_registers_is_inclusive_and_ascending() {
    let mut chip8 = with_registers(&[(3, 0x77)]);
    chip8.i = 0x600;
    chip8.ram[0x600] = 1;
    chip8.ram[0x601] = 2;
    chip8.ram[0x602] = 3;
    chip8.ram[0x603] = 4;
    chip8.decode_execute(0xF265);
    assert_eq!(&chip8.vx[0..4], &[1, 2, 3, 0x77]);
    assert_eq!(chip8.i, 0x600);
}

#[test]
fn load_registers_reads_the_font() {
    let mut chip8 = Chip8::new();
    chip8.i = 0x50;
    chip8.decode_execute(0xF465);
    assert_eq!(&chip8.vx[0..6], &[0xF0, 0x90, 0x90, 0x90, 0xF0, 0]);
}

#[test]
fn unknown_opcode_changes_nothing_and_is_reported() {
    let mut chip8 = with_registers(&[(1, 1), (2, 2), (0xF, 3)]);
    chip8.i = 0x234;
    chip8.sp = 1;
    chip8.stack[0] = 0x222;
    chip8.display[9] = 1;
    chip8.delay_timer = 5;
    chip8.sound_timer = 6;
    chip8.keypad[4] = true;
    let ram = chip8.ram;
    let vx = chip8.vx;
    let display = chip8.display;
    for word in [0x5121u16, 0x8128, 0x9125, 0xE100, 0xF1FF, 0xFFFF] {
        assert_eq!(chip8.decode_execute(word), Report::UnknownOpcode(word));
        assert_eq!(chip8.ram, ram);
        assert_eq!(chip8.vx, vx);
        assert_eq!(chip8.display, display);
        assert_eq!(chip8.pc, 0x300);
        assert_eq!(chip8.i, 0x234);
        assert_eq!((chip8.sp, chip8.stack[0]), (1, 0x222));
        assert_eq!((chip8.delay_timer, chip8.sound_timer), (5, 6));
        assert!(chip8.keypad[4]);
        assert!(!chip8.draw_flag);
    }
}

#[test]
fn execute_runs_a_decoded_instruction() {
    let mut chip8 = with_registers(&[(1, 1)]);
    chip8.execute(Instruction::AddByte { x: 1, nn: 2 }, 0);
    assert_eq!(chip8.vx[1], 3);
    chip8.execute(Instruction::Unknown, 0);
    assert_eq!(chip8.vx[1], 3);
    chip8.execute(Instruction::Jump { addr: 0x123 }, 99);
    assert_eq!(chip8.pc, 0x123);
}
