use chip8_emulator::Chip8;

fn lit_cells(chip8: &Chip8) -> Vec<(usize, usize)> {
    let mut cells = Vec::new();
    for p in 0..2048 {
        if chip8.display[p] != 0 {
            cells.push((p % 64, p / 64));
        }
    }
    cells
}

#[test]
fn drawing_the_glyph_for_zero_twice_erases_it_and_reports_a_collision() {
    let mut chip8 = Chip8::new();
    chip8.decode_execute(0xF029);
    chip8.decode_execute(0xD005);

    for x in 0..4 {
        assert_eq!(chip8.display[x], 1);
    }
    assert_eq!(chip8.display[4], 0);
    assert_eq!(chip8.display[64], 1);
    assert_eq!(chip8.display[64 + 1], 0);
    assert_eq!(chip8.display[64 + 2], 0);
    assert_eq!(chip8.display[64 + 3], 1);
    assert_eq!(chip8.vx[0xF], 0);
    assert!(chip8.draw_flag);
    assert_eq!(
        lit_cells(&chip8),
        vec![
            (0, 0), (1, 0), (2, 0), (3, 0),
            (0, 1), (3, 1),
            (0, 2), (3, 2),
            (0, 3), (3, 3),
            (0, 4), (1, 4), (2, 4), (3, 4),
        ]
    );

    chip8.draw_flag = false;
    chip8.decode_execute(0xD005);
    assert!(chip8.display.iter().all(|&cell| cell == 0));
    assert_eq!(chip8.vx[0xF], 1);
    assert!(chip8.draw_flag);
}

#[test]
fn drawing_reads_the_most_significant_bit_first() {
    let mut chip8 = Chip8::new();
    chip8.i = 0x300;
    chip8.ram[0x300] = 0b1000_0001;
    chip8.ram[0x301] = 0b0100_0000;
    chip8.vx[0] = 10;
    chip8.vx[1] = 5;
    chip8.decode_execute(0xD012);
    assert_eq!(lit_cells(&chip8), vec![(10, 5), (17, 5), (11, 6)]);
    assert_eq!(chip8.vx[0xF], 0);
}

#[test]
fn drawing_wraps_columns_and_rows() {
    let mut chip8 = Chip8::new();
    chip8.i = 0x300;
    chip8.ram[0x300] = 0xFF;
    chip8.ram[0x301] = 0xFF;
    chip8.vx[2] = 62;
    chip8.vx[3] = 31;
    chip8.decode_execute(0xD232);
    let mut expected = Vec::new();
    for x in [0, 1, 2, 3, 4, 5, 62, 63] {
        expected.push((x, 0));
    }
    for x in [0, 1, 2, 3, 4, 5, 62, 63] {
        expected.push((x, 31));
    }
    assert_eq!(lit_cells(&chip8), expected);
    assert_eq!(chip8.vx[0xF], 0);
}

#[test]
fn drawing_takes_the_origin_modulo_the_display_size() {
    let mut a = Chip8::new();
    a.i = 0x50;
    a.vx[0] = 70;
    a.vx[1] = 40;
    a.decode_execute(0xD015);
    let mut b = Chip8::new();
    b.i = 0x50;
    b.vx[0] = 6;
    b.vx[1] = 8;
    b.decode_execute(0xD015);
    assert_eq!(a.display, b.display);
    assert_eq!(a.display[6 + 8 * 64], 1);
    let mut c = Chip8::new();
    c.i = 0x50;
    c.vx[0] = 255;
    c.vx[1] = 255;
    c.decode_execute(0xD011);
    assert_eq!(lit_cells(&c), vec![(0, 31), (1, 31), (2, 31), (63, 31)]);
}

#[test]
fn drawing_reports_a_collision_only_where_a_lit_pixel_meets_a_lit_cell() {
    let mut chip8 = Chip8::new();
    chip8.i = 0x300;
    chip8.ram[0x300] = 0b1010_0000;
    chip8.display[1] = 1;
    chip8.decode_execute(0xD001);
    assert_eq!(lit_cells(&chip8), vec![(0, 0), (1, 0), (2, 0)]);
    assert_eq!(chip8.vx[0xF], 0);

    chip8.ram[0x300] = 0b0110_0000;
    chip8.decode_execute(0xD001);
    assert_eq!(lit_cells(&chip8), vec![(0, 0)]);
    assert_eq!(chip8.vx[0xF], 1);
}

#[test]
fn drawing_resets_the_flag_when_nothing_collides() {
    let mut chip8 = Chip8::new();
    chip8.i = 0x300;
    chip8.ram[0x300] = 0x80;
    chip8.vx[0xF] = 1;
    chip8.vx[1] = 3;
    chip8.decode_execute(0xD111);
    assert_eq!(chip8.vx[0xF], 0);
    assert_eq!(lit_cells(&chip8), vec![(3, 3)]);
}

#[test]
fn drawing_keeps_the_flag_set_after_a_collision_in_an_earlier_row() {
    let mut chip8 = Chip8::new();
    chip8.i = 0x300;
    chip8.ram[0x300] = 0x80;
    chip8.ram[0x301] = 0x80;
    chip8.ram[0x302] = 0x80;
    chip8.display[0] = 1;
    chip8.decode_execute(0xD003);
    assert_eq!(chip8.vx[0xF], 1);
    assert_eq!(lit_cells(&chip8), vec![(0, 1), (0, 2)]);
}

#[test]
fn drawing_reads_the_coordinates_before_the_flag_is_reset() {
    let mut chip8 = Chip8::new();
    chip8.i = 0x300;
    chip8.ram[0x300] = 0x80;
    chip8.vx[0xF] = 9;
    chip8.vx[1] = 2;
    chip8.decode_execute(0xDF11);
    assert_eq!(lit_cells(&chip8), vec![(9, 2)]);
    assert_eq!(chip8.vx[0xF], 0);
}

#[test]
fn drawing_no_rows_changes_no_cell_but_sets_the_flags() {
    let mut chip8 = Chip8::new();
    chip8.i = 0xFFF;
    chip8.display[100] = 1;
    chip8.vx[0xF] = 1;
    chip8.decode_execute(0xD120);
    assert_eq!(lit_cells(&chip8), vec![(36, 1)]);
    assert_eq!(chip8.vx[0xF], 0);
    assert!(chip8.draw_flag);
}

#[test]
fn drawing_fifteen_rows_up_to_the_end_of_memory() {
    let mut chip8 = Chip8::new();
    chip8.i = 4096 - 15;
    for row in 0..15 {
        chip8.ram[4096 - 15 + row] = 0x01;
    }
    chip8.vx[1] = 20;
    chip8.decode_execute(0xD01F);
    let expected: Vec<(usize, usize)> = (0..15).map(|row| (7, (20 + row) % 32)).collect();
    let mut sorted = expected.clone();
    sorted.sort_by_key(|&(x, y)| y * 64 + x);
    assert_eq!(lit_cells(&chip8), sorted);
}

#[test]
fn drawing_leaves_memory_and_the_index_register() {
    let mut chip8 = Chip8::new();
    chip8.i = 0x50;
    let ram = chip8.ram;
    chip8.decode_execute(0xD005);
    assert_eq!(chip8.ram, ram);
    assert_eq!(chip8.i, 0x50);
    assert_eq!(chip8.pc, 0);
}

#[test]
fn drawing_twice_restores_any_display() {
    let mut chip8 = Chip8::new();
    for p in 0..2048 {
        chip8.display[p] = ((p * 7 + p / 5) % 3 == 0) as u8;
    }
    let before = chip8.display;
    chip8.i = 0x50 + 5 * 8;
    chip8.vx[4] = 61;
    chip8.vx[5] = 30;
    chip8.decode_execute(0xD455);
    assert_ne!(chip8.display, before);
    chip8.decode_execute(0xD455);
    assert_eq!(chip8.display, before);
}
