//! What each instruction means, as a function from the state before it to the
//! state after it, and the conditions under which it cannot be carried out.
//!
//! The functions here are the reference that the executable handlers are
//! proved against. The program counter that they see is the one after the
//! fetch, pointing at the following instruction.

use crate::font::glyph_address;
use crate::instruction::Instruction;
use crate::machine::{
    MachineState, DISPLAY_HEIGHT, DISPLAY_SIZE, DISPLAY_WIDTH, FLAG, MEMORY_SIZE, STACK_DEPTH,
};
use vstd::arithmetic::power2::pow2;
use vstd::prelude::*;

verus! {

/// A condition under which an instruction cannot be carried out. The machine
/// stops rather than going on in a corrupted state.
#[derive(Clone, Copy, Debug, PartialEq, Eq, Structural)]
pub enum Fault {
    /// The instruction word would be read past the end of memory.
    FetchOutOfRange,
    /// A call with sixteen return addresses already on the stack, or a stack
    /// pointer that points beyond the stack.
    StackOverflow,
    /// A return with no return address on the stack.
    StackUnderflow,
    /// The instruction would read or write past the end of memory.
    MemoryOutOfRange,
    /// The register names a key that the keypad does not have.
    KeyOutOfRange,
    /// The program counter or the index register would leave its sixteen bits.
    AddressOutOfRange,
}

/// The state with register `x` set to `value`.
pub open spec fn with_register(s: MachineState, x: int, value: u8) -> MachineState {
    MachineState { vx: s.vx.update(x, value), ..s }
}

/// The state with the program counter moved past one more instruction when
/// `condition` holds, and the same state when it does not.
pub open spec fn skip_if(s: MachineState, condition: bool) -> MachineState {
    if condition {
        MachineState { pc: (s.pc + 2) as u16, ..s }
    } else {
        s
    }
}

/// `a - b` modulo 256.
pub open spec fn wrapping_difference(a: u8, b: u8) -> u8 {
    ((a - b) % 256) as u8
}

/// 00E0: every display cell zero, and the display marked as changed.
pub open spec fn clear_screen_spec(s: MachineState) -> MachineState {
    MachineState { display: Seq::new(DISPLAY_SIZE as nat, |p: int| 0u8), draw_flag: true, ..s }
}

/// 00EE: the last return address leaves the stack and becomes the program
/// counter.
pub open spec fn return_spec(s: MachineState) -> MachineState {
    MachineState { sp: (s.sp - 1) as u16, pc: s.stack[s.sp - 1], ..s }
}

/// 1NNN: the program counter becomes `addr`.
pub open spec fn jump_spec(s: MachineState, addr: u16) -> MachineState {
    MachineState { pc: addr, ..s }
}

/// 2NNN: the program counter goes onto the stack and becomes `addr`.
pub open spec fn call_spec(s: MachineState, addr: u16) -> MachineState {
    MachineState {
        stack: s.stack.update(s.sp as int, s.pc),
        sp: (s.sp + 1) as u16,
        pc: addr,
        ..s
    }
}

/// 7XNN: Vx plus `nn` modulo 256; VF stays.
pub open spec fn add_byte_spec(s: MachineState, x: int, nn: u8) -> MachineState {
    with_register(s, x, ((s.vx[x] + nn) % 256) as u8)
}

/// The state after an arithmetic instruction: Vx holds `result`, and VF,
/// written last, holds `flag`. Where x is VF itself, the flag is what stays.
pub open spec fn with_result_and_flag(s: MachineState, x: int, result: u8, flag: u8) -> MachineState {
    MachineState { vx: s.vx.update(x, result).update(FLAG as int, flag), ..s }
}

/// 8XY4: Vx receives Vx + Vy modulo 256, and VF the carry: 1 if the sum is
/// above 255 and 0 otherwise.
pub open spec fn add_spec(s: MachineState, x: int, y: int) -> MachineState {
    let sum = s.vx[x] + s.vx[y];
    let carry: u8 = if sum > 255 { 1 } else { 0 };
    with_result_and_flag(s, x, (sum % 256) as u8, carry)
}

/// 8XY5: Vx receives Vx - Vy modulo 256, and VF receives 1 if Vx >= Vy and
/// 0 otherwise. Both are taken from the registers as they were before.
pub open spec fn subtract_spec(s: MachineState, x: int, y: int) -> MachineState {
    let no_borrow: u8 = if s.vx[x] >= s.vx[y] { 1 } else { 0 };
    with_result_and_flag(s, x, wrapping_difference(s.vx[x], s.vx[y]), no_borrow)
}

/// 8XY6: Vx is halved, and VF receives the bit shifted out, the lowest bit
/// that Vx had.
pub open spec fn shift_right_spec(s: MachineState, x: int) -> MachineState {
    with_result_and_flag(s, x, s.vx[x] / 2, s.vx[x] % 2)
}

/// 8XY7: Vx receives Vy - Vx modulo 256, and VF receives 1 if Vy >= Vx and
/// 0 otherwise. Both are taken from the registers as they were before.
pub open spec fn subtract_from_spec(s: MachineState, x: int, y: int) -> MachineState {
    let no_borrow: u8 = if s.vx[y] >= s.vx[x] { 1 } else { 0 };
    with_result_and_flag(s, x, wrapping_difference(s.vx[y], s.vx[x]), no_borrow)
}

/// 8XYE: Vx is doubled modulo 256, and VF receives the bit shifted out, the
/// highest bit that Vx had.
pub open spec fn shift_left_spec(s: MachineState, x: int) -> MachineState {
    with_result_and_flag(s, x, ((s.vx[x] * 2) % 256) as u8, s.vx[x] / 128)
}

/// ANNN: the index register becomes `addr`.
pub open spec fn load_index_spec(s: MachineState, addr: u16) -> MachineState {
    MachineState { i: addr, ..s }
}

/// BNNN: the program counter becomes `addr` plus V0.
pub open spec fn jump_offset_spec(s: MachineState, addr: u16) -> MachineState {
    MachineState { pc: (addr + s.vx[0]) as u16, ..s }
}

/// CXNN: Vx becomes the random byte masked with `nn`.
pub open spec fn random_spec(s: MachineState, x: int, nn: u8, random: u8) -> MachineState {
    with_register(s, x, random & nn)
}

/// Whether the pixel in column `col` of a sprite row is lit. Column 0 is the
/// most significant bit.
pub open spec fn sprite_pixel(row_byte: u8, col: int) -> bool {
    (row_byte as int / pow2((7 - col) as nat) as int) % 2 == 1
}

/// A display cell after a lit sprite pixel was drawn onto it: its lowest bit
/// flipped.
pub open spec fn toggled(cell: u8) -> u8 {
    if cell % 2 == 0 {
        (cell + 1) as u8
    } else {
        (cell - 1) as u8
    }
}

/// Whether a sprite of `n` rows, read at the index register and drawn with
/// its top left corner at (`x0`, `y0`), has a lit pixel on display cell `p`.
/// Columns wrap at the right edge and rows at the bottom edge.
pub open spec fn sprite_covers(s: MachineState, x0: int, y0: int, n: int, p: int) -> bool {
    let col = (p % (DISPLAY_WIDTH as int) - x0) % (DISPLAY_WIDTH as int);
    let row = (p / (DISPLAY_WIDTH as int) - y0) % (DISPLAY_HEIGHT as int);
    col < 8 && row < n && sprite_pixel(s.ram[s.i + row], col)
}

/// Whether the sprite has a lit pixel on a display cell that holds 1.
pub open spec fn sprite_collides(s: MachineState, x0: int, y0: int, n: int) -> bool {
    exists|p: int| 0 <= p < DISPLAY_SIZE && sprite_covers(s, x0, y0, n, p) && s.display[p] == 1
}

/// DXYN: the sprite is combined into the display at (Vx mod 64, Vy mod 32),
/// VF reports whether it hit a lit cell, and the display is marked as changed.
pub open spec fn draw_spec(s: MachineState, x: int, y: int, n: int) -> MachineState {
    let x0 = s.vx[x] % (DISPLAY_WIDTH as u8);
    let y0 = s.vx[y] % (DISPLAY_HEIGHT as u8);
    let hit: u8 = if sprite_collides(s, x0 as int, y0 as int, n) { 1 } else { 0 };
    MachineState {
        display: Seq::new(
            DISPLAY_SIZE as nat,
            |p: int|
                if sprite_covers(s, x0 as int, y0 as int, n, p) {
                    toggled(s.display[p])
                } else {
                    s.display[p]
                },
        ),
        vx: s.vx.update(FLAG as int, hit),
        draw_flag: true,
        ..s
    }
}

/// The lowest pressed key among the keys `from` to 15, or 16 if none of them
/// is pressed.
pub open spec fn first_pressed_from(keypad: Seq<bool>, from: int) -> int
    decreases 16 - from,
{
    if from >= 16 {
        16
    } else if keypad[from] {
        from
    } else {
        first_pressed_from(keypad, from + 1)
    }
}

/// The key that a waiting instruction picks up: the lowest pressed key among
/// the keys 1 to 15, or 16 if none of them is pressed. Key 0 is not looked at.
pub open spec fn awaited_key(keypad: Seq<bool>) -> int {
    first_pressed_from(keypad, 1)
}

/// FX0A: with a key among 1 to 15 pressed, Vx receives the lowest such key;
/// with none, the program counter goes back onto this instruction.
pub open spec fn wait_key_spec(s: MachineState, x: int) -> MachineState {
    let key = awaited_key(s.keypad);
    if key < 16 {
        with_register(s, x, key as u8)
    } else {
        MachineState { pc: (s.pc - 2) as u16, ..s }
    }
}

/// FX1E: the index register plus Vx; VF stays.
pub open spec fn add_index_spec(s: MachineState, x: int) -> MachineState {
    MachineState { i: (s.i + s.vx[x]) as u16, ..s }
}

/// FX29: the index register points at the glyph for the low nibble of Vx.
pub open spec fn font_glyph_spec(s: MachineState, x: int) -> MachineState {
    MachineState { i: glyph_address((s.vx[x] % 16) as int) as u16, ..s }
}

/// FX33: hundreds, tens and ones of Vx at the index register and the two
/// cells after it.
pub open spec fn store_decimal_spec(s: MachineState, x: int) -> MachineState {
    let value = s.vx[x];
    MachineState {
        ram: s.ram.update(s.i as int, value / 100).update(s.i + 1, (value / 10) % 10).update(
            s.i + 2,
            value % 10,
        ),
        ..s
    }
}

/// FX55: V0 to Vx in the memory cells from the index register on.
pub open spec fn store_registers_spec(s: MachineState, x: int) -> MachineState {
    MachineState {
        ram: Seq::new(
            MEMORY_SIZE as nat,
            |a: int|
                if s.i <= a <= s.i + x {
                    s.vx[a - s.i]
                } else {
                    s.ram[a]
                },
        ),
        ..s
    }
}

/// FX65: V0 to Vx from the memory cells from the index register on.
pub open spec fn load_registers_spec(s: MachineState, x: int) -> MachineState {
    MachineState {
        vx: Seq::new(
            16,
            |k: int|
                if k <= x {
                    s.ram[s.i + k]
                } else {
                    s.vx[k]
                },
        ),
        ..s
    }
}

/// The state after `instr`, given the random byte that a `Random`
/// instruction would draw. Other instructions do not look at `random`.
pub open spec fn execute_spec(s: MachineState, instr: Instruction, random: u8) -> MachineState {
    match instr {
        Instruction::ClearScreen => clear_screen_spec(s),
        Instruction::Return => return_spec(s),
        Instruction::System { addr } => s,
        Instruction::Jump { addr } => jump_spec(s, addr),
        Instruction::Call { addr } => call_spec(s, addr),
        Instruction::SkipEqualByte { x, nn } => skip_if(s, s.vx[x as int] == nn),
        Instruction::SkipNotEqualByte { x, nn } => skip_if(s, s.vx[x as int] != nn),
        Instruction::SkipEqual { x, y } => skip_if(s, s.vx[x as int] == s.vx[y as int]),
        Instruction::LoadByte { x, nn } => with_register(s, x as int, nn),
        Instruction::AddByte { x, nn } => add_byte_spec(s, x as int, nn),
        Instruction::Move { x, y } => with_register(s, x as int, s.vx[y as int]),
        Instruction::Or { x, y } => with_register(s, x as int, s.vx[x as int] | s.vx[y as int]),
        Instruction::And { x, y } => with_register(s, x as int, s.vx[x as int] & s.vx[y as int]),
        Instruction::Xor { x, y } => with_register(s, x as int, s.vx[x as int] ^ s.vx[y as int]),
        Instruction::Add { x, y } => add_spec(s, x as int, y as int),
        Instruction::Subtract { x, y } => subtract_spec(s, x as int, y as int),
        Instruction::ShiftRight { x, y } => shift_right_spec(s, x as int),
        Instruction::SubtractFrom { x, y } => subtract_from_spec(s, x as int, y as int),
        Instruction::ShiftLeft { x, y } => shift_left_spec(s, x as int),
        Instruction::SkipNotEqual { x, y } => skip_if(s, s.vx[x as int] != s.vx[y as int]),
        Instruction::LoadIndex { addr } => load_index_spec(s, addr),
        Instruction::JumpOffset { addr } => jump_offset_spec(s, addr),
        Instruction::Random { x, nn } => random_spec(s, x as int, nn, random),
        Instruction::Draw { x, y, n } => draw_spec(s, x as int, y as int, n as int),
        Instruction::SkipKeyPressed { x } => skip_if(s, s.keypad[s.vx[x as int] as int]),
        Instruction::SkipKeyReleased { x } => skip_if(s, !s.keypad[s.vx[x as int] as int]),
        Instruction::ReadDelay { x } => with_register(s, x as int, s.delay_timer),
        Instruction::WaitKey { x } => wait_key_spec(s, x as int),
        Instruction::SetDelay { x } => MachineState { delay_timer: s.vx[x as int], ..s },
        Instruction::SetSound { x } => MachineState { sound_timer: s.vx[x as int], ..s },
        Instruction::AddIndex { x } => add_index_spec(s, x as int),
        Instruction::FontGlyph { x } => font_glyph_spec(s, x as int),
        Instruction::StoreDecimal { x } => store_decimal_spec(s, x as int),
        Instruction::StoreRegisters { x } => store_registers_spec(s, x as int),
        Instruction::LoadRegisters { x } => load_registers_spec(s, x as int),
        Instruction::Unknown => s,
    }
}

/// The fault that stops a conditional skip, if any: the program counter
/// cannot move past 0xFFFF.
pub open spec fn skip_fault(s: MachineState, condition: bool) -> Option<Fault> {
    if condition && s.pc + 2 > 0xFFFF {
        Some(Fault::AddressOutOfRange)
    } else {
        None
    }
}

/// The fault that stops an access to memory cells of which `last` is the
/// highest, if any.
pub open spec fn memory_fault(last: int) -> Option<Fault> {
    if last >= MEMORY_SIZE {
        Some(Fault::MemoryOutOfRange)
    } else {
        None
    }
}

/// The fault that stops a skip on the key named by `key`, if any.
pub open spec fn key_skip_fault(s: MachineState, key: u8, wanted: bool) -> Option<Fault> {
    if key >= 16 {
        Some(Fault::KeyOutOfRange)
    } else {
        skip_fault(s, s.keypad[key as int] == wanted)
    }
}

/// The fault that stops `instr` in state `s`, or `None` where it can be
/// carried out.
pub open spec fn fault_of(s: MachineState, instr: Instruction) -> Option<Fault> {
    match instr {
        Instruction::Return => if s.sp == 0 {
            Some(Fault::StackUnderflow)
        } else if s.sp > STACK_DEPTH {
            Some(Fault::StackOverflow)
        } else {
            None
        },
        Instruction::Call { addr } => if s.sp >= STACK_DEPTH {
            Some(Fault::StackOverflow)
        } else {
            None
        },
        Instruction::SkipEqualByte { x, nn } => skip_fault(s, s.vx[x as int] == nn),
        Instruction::SkipNotEqualByte { x, nn } => skip_fault(s, s.vx[x as int] != nn),
        Instruction::SkipEqual { x, y } => skip_fault(s, s.vx[x as int] == s.vx[y as int]),
        Instruction::SkipNotEqual { x, y } => skip_fault(s, s.vx[x as int] != s.vx[y as int]),
        Instruction::JumpOffset { addr } => if addr + s.vx[0] > 0xFFFF {
            Some(Fault::AddressOutOfRange)
        } else {
            None
        },
        Instruction::Draw { x, y, n } => if n > 0 {
            memory_fault(s.i + n - 1)
        } else {
            None
        },
        Instruction::SkipKeyPressed { x } => key_skip_fault(s, s.vx[x as int], true),
        Instruction::SkipKeyReleased { x } => key_skip_fault(s, s.vx[x as int], false),
        Instruction::WaitKey { x } => if awaited_key(s.keypad) >= 16 && s.pc < 2 {
            Some(Fault::AddressOutOfRange)
        } else {
            None
        },
        Instruction::AddIndex { x } => if s.i + s.vx[x as int] > 0xFFFF {
            Some(Fault::AddressOutOfRange)
        } else {
            None
        },
        Instruction::StoreDecimal { x } => memory_fault(s.i + 2),
        Instruction::StoreRegisters { x } => memory_fault(s.i + x),
        Instruction::LoadRegisters { x } => memory_fault(s.i + x),
        _ => None,
    }
}

} // verus!
