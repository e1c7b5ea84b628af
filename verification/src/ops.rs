//! The instruction handlers, one per instruction, each proved against its
//! meaning in [`crate::semantics`].
//!
//! A handler's `requires` leaves out exactly the states in which the
//! instruction cannot be carried out; [`crate::semantics::fault_of`] names
//! them.

use crate::entropy::random_byte;
use crate::font::{FONT_START, GLYPH_BYTES};
use crate::machine::{Chip8, MachineState, FLAG};
use crate::semantics::{
    add_byte_spec, add_index_spec, add_spec, awaited_key, call_spec, clear_screen_spec, draw_spec,
    first_pressed_from, font_glyph_spec, jump_offset_spec, jump_spec, load_index_spec,
    load_registers_spec, random_spec, return_spec, shift_left_spec, shift_right_spec, skip_if,
    sprite_covers, sprite_pixel, store_decimal_spec, store_registers_spec, subtract_from_spec,
    subtract_spec, toggled, wait_key_spec, with_register,
};
use vstd::arithmetic::power2::lemma2_to64;
use vstd::prelude::*;

verus! {

/// Whether the sprite has a lit pixel on cell `p` that is drawn before the
/// pixel in row `rows` and column `cols` when the sprite is drawn row by row
/// and, within a row, column by column.
spec fn drawn_before(
    s: MachineState,
    x0: int,
    y0: int,
    n: int,
    rows: int,
    cols: int,
    p: int,
) -> bool {
    let col = (p % 64 - x0) % 64;
    let row = (p / 64 - y0) % 32;
    sprite_covers(s, x0, y0, n, p) && (row < rows || (row == rows && col < cols))
}

/// The mask `0x80 >> col` selects the sprite pixel in column `col`.
proof fn lemma_mask_selects_pixel(byte: u8, col: usize)
    requires
        col < 8,
    ensures
        (byte & (0x80u8 >> col) != 0) == sprite_pixel(byte, col as int),
{
    lemma2_to64();
    if col == 0 {
        assert((byte & (0x80u8 >> 0usize) != 0) == ((byte / 128) % 2 == 1)) by (bit_vector);
    } else if col == 1 {
        assert((byte & (0x80u8 >> 1usize) != 0) == ((byte / 64) % 2 == 1)) by (bit_vector);
    } else if col == 2 {
        assert((byte & (0x80u8 >> 2usize) != 0) == ((byte / 32) % 2 == 1)) by (bit_vector);
    } else if col == 3 {
        assert((byte & (0x80u8 >> 3usize) != 0) == ((byte / 16) % 2 == 1)) by (bit_vector);
    } else if col == 4 {
        assert((byte & (0x80u8 >> 4usize) != 0) == ((byte / 8) % 2 == 1)) by (bit_vector);
    } else if col == 5 {
        assert((byte & (0x80u8 >> 5usize) != 0) == ((byte / 4) % 2 == 1)) by (bit_vector);
    } else if col == 6 {
        assert((byte & (0x80u8 >> 6usize) != 0) == ((byte / 2) % 2 == 1)) by (bit_vector);
    } else {
        assert((byte & (0x80u8 >> 7usize) != 0) == ((byte / 1) % 2 == 1)) by (bit_vector);
    }
}

impl Chip8 {
    /// CLS: clears the display.
    pub fn op_00e0(&mut self)
        ensures
            final(self)@ == clear_screen_spec(old(self)@),
            forall|p: int| 0 <= p < 2048 ==> final(self).display@[p] == 0,
            final(self).draw_flag,
    {
        self.display = [0u8; 2048];
        self.draw_flag = true;
    }

    /// RET: returns from a subroutine.
    pub fn op_00ee(&mut self)
        requires
            1 <= old(self).sp <= 16,
        ensures
            final(self)@ == return_spec(old(self)@),
    {
        self.sp -= 1;
        self.pc = self.stack[self.sp as usize];
    }

    /// SYS addr: does nothing.
    pub fn op_0nnn(&mut self, _addr: u16)
        ensures
            final(self)@ == old(self)@,
    {
    }

    /// JP addr: jumps to `addr`.
    pub fn op_1nnn(&mut self, addr: u16)
        ensures
            final(self)@ == jump_spec(old(self)@, addr),
    {
        self.pc = addr;
    }

    /// CALL addr: calls the subroutine at `addr`.
    pub fn op_2nnn(&mut self, addr: u16)
        requires
            old(self).sp < 16,
        ensures
            final(self)@ == call_spec(old(self)@, addr),
    {
        self.stack[self.sp as usize] = self.pc;
        self.sp += 1;
        self.pc = addr;
    }

    /// SE Vx, byte: skips the next instruction if Vx equals `nn`.
    pub fn op_3xnn(&mut self, x: usize, nn: u8)
        requires
            x < 16,
            old(self).vx@[x as int] == nn ==> old(self).pc + 2 <= 0xFFFF,
        ensures
            final(self)@ == skip_if(old(self)@, old(self).vx@[x as int] == nn),
    {
        if self.vx[x] == nn {
            self.pc += 2;
        }
    }

    /// SNE Vx, byte: skips the next instruction if Vx differs from `nn`.
    pub fn op_4xnn(&mut self, x: usize, nn: u8)
        requires
            x < 16,
            old(self).vx@[x as int] != nn ==> old(self).pc + 2 <= 0xFFFF,
        ensures
            final(self)@ == skip_if(old(self)@, old(self).vx@[x as int] != nn),
    {
        if self.vx[x] != nn {
            self.pc += 2;
        }
    }

    /// SE Vx, Vy: skips the next instruction if Vx equals Vy.
    pub fn op_5xy0(&mut self, x: usize, y: usize)
        requires
            x < 16,
            y < 16,
            old(self).vx@[x as int] == old(self).vx@[y as int] ==> old(self).pc + 2 <= 0xFFFF,
        ensures
            final(self)@ == skip_if(
                old(self)@,
                old(self).vx@[x as int] == old(self).vx@[y as int],
            ),
    {
        if self.vx[x] == self.vx[y] {
            self.pc += 2;
        }
    }

    /// LD Vx, byte: sets Vx to `nn`.
    pub fn op_6xnn(&mut self, x: usize, nn: u8)
        requires
            x < 16,
        ensures
            final(self)@ == with_register(old(self)@, x as int, nn),
    {
        self.vx[x] = nn;
    }

    /// ADD Vx, byte: adds `nn` to Vx modulo 256 and leaves VF alone.
    pub fn op_7xnn(&mut self, x: usize, nn: u8)
        requires
            x < 16,
        ensures
            final(self)@ == add_byte_spec(old(self)@, x as int, nn),
    {
        self.vx[x] = self.vx[x].wrapping_add(nn);
    }

    /// LD Vx, Vy: sets Vx to Vy.
    pub fn op_8xy0(&mut self, x: usize, y: usize)
        requires
            x < 16,
            y < 16,
        ensures
            final(self)@ == with_register(old(self)@, x as int, old(self).vx@[y as int]),
    {
        self.vx[x] = self.vx[y];
    }

    /// OR Vx, Vy: sets Vx to Vx OR Vy.
    pub fn op_8xy1(&mut self, x: usize, y: usize)
        requires
            x < 16,
            y < 16,
        ensures
            final(self)@ == with_register(
                old(self)@,
                x as int,
                old(self).vx@[x as int] | old(self).vx@[y as int],
            ),
    {
        self.vx[x] = self.vx[x] | self.vx[y];
    }

    /// AND Vx, Vy: sets Vx to Vx AND Vy.
    pub fn op_8xy2(&mut self, x: usize, y: usize)
        requires
            x < 16,
            y < 16,
        ensures
            final(self)@ == with_register(
                old(self)@,
                x as int,
                old(self).vx@[x as int] & old(self).vx@[y as int],
            ),
    {
        self.vx[x] = self.vx[x] & self.vx[y];
    }

    /// XOR Vx, Vy: sets Vx to Vx XOR Vy.
    pub fn op_8xy3(&mut self, x: usize, y: usize)
        requires
            x < 16,
            y < 16,
        ensures
            final(self)@ == with_register(
                old(self)@,
                x as int,
                old(self).vx@[x as int] ^ old(self).vx@[y as int],
            ),
    {
        self.vx[x] = self.vx[x] ^ self.vx[y];
    }

    /// ADD Vx, Vy: adds Vy to Vx modulo 256; VF becomes the carry.
    pub fn op_8xy4(&mut self, x: usize, y: usize)
        requires
            x < 16,
            y < 16,
        ensures
            final(self)@ == add_spec(old(self)@, x as int, y as int),
    {
        let val_x: u16 = self.vx[x] as u16;
        let val_y: u16 = self.vx[y] as u16;
        let sum: u16 = val_x + val_y;
        let carry: u8 = if sum > 0xFF {
            1
        } else {
            0
        };
        assert(sum & 0xFF == sum % 256) by (bit_vector);
        self.vx[x] = (sum & 0xFF) as u8;
        self.vx[FLAG] = carry;
    }

    /// SUB Vx, Vy: Vx becomes Vx - Vy modulo 256; VF becomes 1 if there was
    /// no borrow and 0 if there was.
    pub fn op_8xy5(&mut self, x: usize, y: usize)
        requires
            x < 16,
            y < 16,
        ensures
            final(self)@ == subtract_spec(old(self)@, x as int, y as int),
    {
        let minuend: u8 = self.vx[x];
        let subtrahend: u8 = self.vx[y];
        let no_borrow: u8 = if minuend >= subtrahend {
            1
        } else {
            0
        };
        self.vx[x] = minuend.wrapping_sub(subtrahend);
        self.vx[FLAG] = no_borrow;
    }

    /// SHR Vx: Vx is shifted right by one; VF becomes the bit shifted out.
    pub fn op_8xy6(&mut self, x: usize, _y: usize)
        requires
            x < 16,
        ensures
            final(self)@ == shift_right_spec(old(self)@, x as int),
    {
        let value: u8 = self.vx[x];
        assert(value & 0x1 == value % 2) by (bit_vector);
        assert(value >> 1 == value / 2) by (bit_vector);
        self.vx[x] = value >> 1;
        self.vx[FLAG] = value & 0x1;
    }

    /// SUBN Vx, Vy: Vx becomes Vy - Vx modulo 256; VF becomes 1 if there was
    /// no borrow and 0 if there was.
    pub fn op_8xy7(&mut self, x: usize, y: usize)
        requires
            x < 16,
            y < 16,
        ensures
            final(self)@ == subtract_from_spec(old(self)@, x as int, y as int),
    {
        let minuend: u8 = self.vx[y];
        let subtrahend: u8 = self.vx[x];
        let no_borrow: u8 = if minuend >= subtrahend {
            1
        } else {
            0
        };
        self.vx[x] = minuend.wrapping_sub(subtrahend);
        self.vx[FLAG] = no_borrow;
    }

    /// SHL Vx: Vx is shifted left by one; VF becomes the bit shifted out.
    pub fn op_8xye(&mut self, x: usize, _y: usize)
        requires
            x < 16,
        ensures
            final(self)@ == shift_left_spec(old(self)@, x as int),
    {
        let value: u8 = self.vx[x];
        assert((value & 0x80) >> 7 == value / 128) by (bit_vector);
        assert(value << 1 == (value as u16 * 2) % 256) by (bit_vector);
        self.vx[x] = value << 1;
        self.vx[FLAG] = (value & 0x80) >> 7;
    }

    /// SNE Vx, Vy: skips the next instruction if Vx differs from Vy.
    pub fn op_9xy0(&mut self, x: usize, y: usize)
        requires
            x < 16,
            y < 16,
            old(self).vx@[x as int] != old(self).vx@[y as int] ==> old(self).pc + 2 <= 0xFFFF,
        ensures
            final(self)@ == skip_if(
                old(self)@,
                old(self).vx@[x as int] != old(self).vx@[y as int],
            ),
    {
        if self.vx[x] != self.vx[y] {
            self.pc += 2;
        }
    }

    /// LD I, addr: sets the index register to `addr`.
    pub fn op_annn(&mut self, addr: u16)
        ensures
            final(self)@ == load_index_spec(old(self)@, addr),
    {
        self.i = addr;
    }

    /// JP V0, addr: jumps to `addr` plus V0.
    pub fn op_bnnn(&mut self, addr: u16)
        requires
            addr + old(self).vx@[0] <= 0xFFFF,
        ensures
            final(self)@ == jump_offset_spec(old(self)@, addr),
    {
        self.pc = addr + self.vx[0] as u16;
    }

    /// RND Vx, byte: sets Vx to a random byte AND `nn`.
    pub fn op_cxnn(&mut self, x: usize, nn: u8)
        requires
            x < 16,
        ensures
            exists|random: u8| final(self)@ == random_spec(old(self)@, x as int, nn, random),
    {
        let random: u8 = random_byte();
        self.op_cxnn_with(x, nn, random);
    }

    /// RND Vx, byte, with the random byte given: sets Vx to `random` AND `nn`.
    pub fn op_cxnn_with(&mut self, x: usize, nn: u8, random: u8)
        requires
            x < 16,
        ensures
            final(self)@ == random_spec(old(self)@, x as int, nn, random),
    {
        self.vx[x] = random & nn;
    }

    /// DRW Vx, Vy, nibble: draws the sprite of `height` rows found at the
    /// index register at (Vx mod 64, Vy mod 32), wrapping at the edges; VF
    /// reports a collision.
    pub fn op_dxyn(&mut self, x_idx: usize, y_idx: usize, height: u8)
        requires
            x_idx < 16,
            y_idx < 16,
            height < 16,
            height > 0 ==> old(self).i + height <= 4096,
        ensures
            final(self)@ == draw_spec(old(self)@, x_idx as int, y_idx as int, height as int),
    {
        let x_coord: usize = (self.vx[x_idx] % 64) as usize;
        let y_coord: usize = (self.vx[y_idx] % 32) as usize;
        let height: usize = height as usize;
        self.vx[FLAG] = 0;
        let ghost s0 = old(self)@;
        let ghost x0 = x_coord as int;
        let ghost y0 = y_coord as int;
        let ghost n = height as int;

        let mut row: usize = 0;
        while row < height
            invariant
                row <= height < 16,
                x_coord < 64,
                y_coord < 32,
                x0 == x_coord,
                y0 == y_coord,
                n == height,
                s0 == old(self)@,
                height > 0 ==> s0.i + height <= 4096,
                self.vx@[15] <= 1,
                self@ == (MachineState {
                    display: self.display@,
                    vx: s0.vx.update(15, self.vx@[15]),
                    ..s0
                }),
                forall|p: int|
                    0 <= p < 2048 ==> self.display@[p] == if drawn_before(
                        s0,
                        x0,
                        y0,
                        n,
                        row as int,
                        0,
                        p,
                    ) {
                        toggled(s0.display[p])
                    } else {
                        s0.display[p]
                    },
                self.vx@[15] == 1 <==> exists|p: int|
                    0 <= p < 2048 && drawn_before(s0, x0, y0, n, row as int, 0, p)
                        && s0.display[p] == 1,
            decreases height - row,
        {
            let current_y: usize = (y_coord + row) % 32;
            let sprite_byte: u8 = self.ram[self.i as usize + row];

            let mut col: usize = 0;
            while col < 8
                invariant
                    col <= 8,
                    row < height < 16,
                    x_coord < 64,
                    y_coord < 32,
                    x0 == x_coord,
                    y0 == y_coord,
                    n == height,
                    s0 == old(self)@,
                    current_y == (y_coord + row) % 32,
                    s0.i + height <= 4096,
                    sprite_byte == s0.ram[s0.i + row],
                    self.vx@[15] <= 1,
                    self@ == (MachineState {
                        display: self.display@,
                        vx: s0.vx.update(15, self.vx@[15]),
                        ..s0
                    }),
                    forall|p: int|
                        0 <= p < 2048 ==> self.display@[p] == if drawn_before(
                            s0,
                            x0,
                            y0,
                            n,
                            row as int,
                            col as int,
                            p,
                        ) {
                            toggled(s0.display[p])
                        } else {
                            s0.display[p]
                        },
                    self.vx@[15] == 1 <==> exists|p: int|
                        0 <= p < 2048 && drawn_before(s0, x0, y0, n, row as int, col as int, p)
                            && s0.display[p] == 1,
                decreases 8 - col,
            {
                let current_x: usize = (x_coord + col) % 64;
                let mask: u8 = 0x80 >> col;
                let screen_idx: usize = current_x + current_y * 64;
                let ghost flag_before = self.vx@[15];
                proof {
                    lemma_mask_selects_pixel(sprite_byte, col);
                    assert(screen_idx % 64 == current_x);
                    assert(screen_idx / 64 == current_y);
                    assert((current_x - x0) % 64 == col);
                    assert((current_y - y0) % 32 == row);
                }
                if (sprite_byte & mask) != 0 {
                    if self.display[screen_idx] == 1 {
                        self.vx[FLAG] = 1;
                    }
                    let cell: u8 = self.display[screen_idx];
                    assert(cell ^ 1 == if cell % 2 == 0 {
                        (cell + 1) as u8
                    } else {
                        (cell - 1) as u8
                    }) by (bit_vector);
                    self.display[screen_idx] = cell ^ 1;
                }
                proof {
                    let idx = screen_idx as int;
                    assert(drawn_before(s0, x0, y0, n, row as int, col + 1, idx) == sprite_pixel(
                        sprite_byte,
                        col as int,
                    ));
                    assert forall|p: int| 0 <= p < 2048 && p != idx implies drawn_before(
                        s0,
                        x0,
                        y0,
                        n,
                        row as int,
                        col + 1,
                        p,
                    ) == drawn_before(s0, x0, y0, n, row as int, col as int, p) by {
                        if (p % 64 - x0) % 64 == col && (p / 64 - y0) % 32 == row {
                            assert(p % 64 == current_x);
                            assert(p / 64 == current_y);
                        }
                    }
                    if self.vx@[15] == 1 {
                        if flag_before == 1 {
                            let w = choose|p: int|
                                0 <= p < 2048 && drawn_before(
                                    s0,
                                    x0,
                                    y0,
                                    n,
                                    row as int,
                                    col as int,
                                    p,
                                ) && s0.display[p] == 1;
                            assert(drawn_before(s0, x0, y0, n, row as int, col + 1, w));
                        } else {
                            assert(drawn_before(s0, x0, y0, n, row as int, col + 1, idx));
                            assert(s0.display[idx] == 1);
                        }
                    }
                }
                col += 1;
            }
            proof {
                assert forall|p: int| 0 <= p < 2048 implies drawn_before(
                    s0,
                    x0,
                    y0,
                    n,
                    row as int,
                    8,
                    p,
                ) == drawn_before(s0, x0, y0, n, row + 1, 0, p) by {}
            }
            row += 1;
        }
        self.draw_flag = true;
        proof {
            assert forall|p: int| 0 <= p < 2048 implies drawn_before(s0, x0, y0, n, n, 0, p)
                == sprite_covers(s0, x0, y0, n, p) by {}
            assert(self@.display =~= draw_spec(s0, x_idx as int, y_idx as int, n).display);
        }
    }

    /// SKP Vx: skips the next instruction if the key named by Vx is pressed.
    pub fn op_ex9e(&mut self, x: usize)
        requires
            x < 16,
            old(self).vx@[x as int] < 16,
            old(self).keypad@[old(self).vx@[x as int] as int] ==> old(self).pc + 2 <= 0xFFFF,
        ensures
            final(self)@ == skip_if(old(self)@, old(self).keypad@[old(self).vx@[x as int] as int]),
    {
        if self.keypad[self.vx[x] as usize] {
            self.pc += 2;
        }
    }

    /// SKNP Vx: skips the next instruction if the key named by Vx is not
    /// pressed.
    pub fn op_exa1(&mut self, x: usize)
        requires
            x < 16,
            old(self).vx@[x as int] < 16,
            !old(self).keypad@[old(self).vx@[x as int] as int] ==> old(self).pc + 2 <= 0xFFFF,
        ensures
            final(self)@ == skip_if(
                old(self)@,
                !old(self).keypad@[old(self).vx@[x as int] as int],
            ),
    {
        if !self.keypad[self.vx[x] as usize] {
            self.pc += 2;
        }
    }

    /// LD Vx, DT: sets Vx to the delay timer.
    pub fn op_fx07(&mut self, x: usize)
        requires
            x < 16,
        ensures
            final(self)@ == with_register(old(self)@, x as int, old(self).delay_timer),
    {
        self.vx[x] = self.delay_timer;
    }

    /// The lowest pressed key among the keys 1 to 15, if there is one.
    pub fn first_pressed_key(&self) -> (key: Option<u8>)
        ensures
            match key {
                Some(k) => k == awaited_key(self.keypad@) && 1 <= k < 16,
                None => awaited_key(self.keypad@) >= 16,
            },
    {
        let mut k: usize = 1;
        while k < 16
            invariant
                1 <= k <= 16,
                awaited_key(self.keypad@) == first_pressed_from(self.keypad@, k as int),
            decreases 16 - k,
        {
            if self.keypad[k] {
                return Some(k as u8);
            }
            k += 1;
        }
        None
    }

    /// LD Vx, K: with a key among 1 to 15 pressed, stores the lowest such key
    /// in Vx; with none, steps the program counter back so that this
    /// instruction runs again.
    pub fn op_fx0a(&mut self, x: usize)
        requires
            x < 16,
            awaited_key(old(self).keypad@) >= 16 ==> old(self).pc >= 2,
        ensures
            final(self)@ == wait_key_spec(old(self)@, x as int),
    {
        match self.first_pressed_key() {
            Some(key) => {
                self.vx[x] = key;
            },
            None => {
                self.pc -= 2;
            },
        }
    }

    /// LD DT, Vx: sets the delay timer to Vx.
    pub fn op_fx15(&mut self, x: usize)
        requires
            x < 16,
        ensures
            final(self)@ == (MachineState { delay_timer: old(self).vx@[x as int], ..old(self)@ }),
    {
        self.delay_timer = self.vx[x];
    }

    /// LD ST, Vx: sets the sound timer to Vx.
    pub fn op_fx18(&mut self, x: usize)
        requires
            x < 16,
        ensures
            final(self)@ == (MachineState { sound_timer: old(self).vx@[x as int], ..old(self)@ }),
    {
        self.sound_timer = self.vx[x];
    }

    /// ADD I, Vx: adds Vx to the index register and leaves VF alone.
    pub fn op_fx1e(&mut self, x: usize)
        requires
            x < 16,
            old(self).i + old(self).vx@[x as int] <= 0xFFFF,
        ensures
            final(self)@ == add_index_spec(old(self)@, x as int),
    {
        self.i = self.i + self.vx[x] as u16;
    }

    /// LD F, Vx: points the index register at the glyph for the low nibble
    /// of Vx.
    pub fn op_fx29(&mut self, x: usize)
        requires
            x < 16,
        ensures
            final(self)@ == font_glyph_spec(old(self)@, x as int),
    {
        let value: u8 = self.vx[x];
        assert(value & 0x0F == value % 16) by (bit_vector);
        let digit: u16 = (value & 0x0F) as u16;
        self.i = FONT_START + digit * GLYPH_BYTES;
    }

    /// LD B, Vx: stores the three decimal digits of Vx at the index register.
    pub fn op_fx33(&mut self, x: usize)
        requires
            x < 16,
            old(self).i + 2 < 4096,
        ensures
            final(self)@ == store_decimal_spec(old(self)@, x as int),
    {
        let value: u8 = self.vx[x];
        self.ram[self.i as usize] = value / 100;
        self.ram[self.i as usize + 1] = (value / 10) % 10;
        self.ram[self.i as usize + 2] = value % 10;
    }

    /// LD [I], Vx: stores V0 to Vx in memory from the index register on.
    pub fn op_fx55(&mut self, x: usize)
        requires
            x < 16,
            old(self).i + x < 4096,
        ensures
            final(self)@ == store_registers_spec(old(self)@, x as int),
    {
        let mut k: usize = 0;
        while k <= x
            invariant
                k <= x + 1,
                x < 16,
                old(self).i + x < 4096,
                self@ == (MachineState { ram: self.ram@, ..old(self)@ }),
                forall|a: int|
                    0 <= a < 4096 ==> self.ram@[a] == if old(self).i <= a < old(self).i + k {
                        old(self).vx@[a - old(self).i]
                    } else {
                        old(self).ram@[a]
                    },
            decreases x + 1 - k,
        {
            self.ram[self.i as usize + k] = self.vx[k];
            k += 1;
        }
    }

    /// LD Vx, [I]: loads V0 to Vx from memory from the index register on.
    pub fn op_fx65(&mut self, x: usize)
        requires
            x < 16,
            old(self).i + x < 4096,
        ensures
            final(self)@ == load_registers_spec(old(self)@, x as int),
    {
        let mut k: usize = 0;
        while k <= x
            invariant
                k <= x + 1,
                x < 16,
                old(self).i + x < 4096,
                self@ == (MachineState { vx: self.vx@, ..old(self)@ }),
                forall|r: int|
                    0 <= r < 16 ==> self.vx@[r] == if r < k {
                        old(self).ram@[old(self).i + r]
                    } else {
                        old(self).vx@[r]
                    },
            decreases x + 1 - k,
        {
            self.vx[k] = self.ram[self.i as usize + k];
            k += 1;
        }
    }
}

} // verus!
