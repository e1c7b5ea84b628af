//! The machine's state and the operations that do not belong to any one
//! instruction: construction, program loading and the timer tick.

use crate::font::{FONT_BYTES, FONT_SET, FONT_START};
use vstd::prelude::*;

verus! {

/// Number of addressable bytes.
pub const MEMORY_SIZE: usize = 4096;

/// Address at which programs are loaded and at which execution starts.
pub const PROGRAM_START: u16 = 0x200;

/// Largest number of program bytes that fit above `PROGRAM_START`.
pub const PROGRAM_CAPACITY: usize = 3584;

/// Width of the display in pixels.
pub const DISPLAY_WIDTH: usize = 64;

/// Height of the display in pixels.
pub const DISPLAY_HEIGHT: usize = 32;

/// Number of display cells, one byte each, stored row by row.
pub const DISPLAY_SIZE: usize = 2048;

/// Number of return addresses that the call stack holds.
pub const STACK_DEPTH: usize = 16;

/// Index of VF, the register that doubles as carry, borrow and collision flag.
pub const FLAG: usize = 0xF;

/// A CHIP-8 machine.
///
/// `vx[0xF]` is an ordinary register that arithmetic and drawing also use to
/// report carry, borrow and collision.
pub struct Chip8 {
    /// Memory. Addresses below 0x200 are reserved; the font lives at 0x050.
    pub ram: [u8; MEMORY_SIZE],
    /// Address of the next instruction to fetch.
    pub pc: u16,
    /// Index register, used for indirect memory access.
    pub i: u16,
    /// General-purpose registers V0 to VF.
    pub vx: [u8; 16],
    /// Display cells, row by row, each 0 or 1.
    pub display: [u8; DISPLAY_SIZE],
    /// Set whenever the display changes; cleared by whoever presents it.
    pub draw_flag: bool,
    /// Return addresses of the active subroutine calls.
    pub stack: [u16; STACK_DEPTH],
    /// Number of return addresses on the stack.
    pub sp: u16,
    /// Pressed state of the sixteen keys.
    pub keypad: [bool; 16],
    /// Counts down to zero, one step per frame.
    pub delay_timer: u8,
    /// Counts down to zero, one step per frame; a tone sounds while it is not zero.
    pub sound_timer: u8,
}

/// The mathematical value of a [`Chip8`]: every array as a sequence.
#[verifier::ext_equal]
pub struct MachineState {
    pub ram: Seq<u8>,
    pub pc: u16,
    pub i: u16,
    pub vx: Seq<u8>,
    pub display: Seq<u8>,
    pub draw_flag: bool,
    pub stack: Seq<u16>,
    pub sp: u16,
    pub keypad: Seq<bool>,
    pub delay_timer: u8,
    pub sound_timer: u8,
}

impl MachineState {
    /// The sequences have the lengths of the machine's arrays.
    pub open spec fn shaped(self) -> bool {
        &&& self.ram.len() == MEMORY_SIZE
        &&& self.vx.len() == 16
        &&& self.display.len() == DISPLAY_SIZE
        &&& self.stack.len() == STACK_DEPTH
        &&& self.keypad.len() == 16
    }

    /// Every display cell is 0 or 1.
    pub open spec fn display_is_binary(self) -> bool {
        forall|p: int| 0 <= p < self.display.len() ==> self.display[p] <= 1
    }
}

impl View for Chip8 {
    type V = MachineState;

    open spec fn view(&self) -> MachineState {
        MachineState {
            ram: self.ram@,
            pc: self.pc,
            i: self.i,
            vx: self.vx@,
            display: self.display@,
            draw_flag: self.draw_flag,
            stack: self.stack@,
            sp: self.sp,
            keypad: self.keypad@,
            delay_timer: self.delay_timer,
            sound_timer: self.sound_timer,
        }
    }
}

/// The state of a machine that was just built: the font in place and
/// everything else zero.
pub open spec fn initial_state() -> MachineState {
    MachineState {
        ram: Seq::new(
            MEMORY_SIZE as nat,
            |a: int|
                if FONT_START <= a < FONT_START + FONT_BYTES {
                    FONT_SET@[a - FONT_START]
                } else {
                    0u8
                },
        ),
        pc: 0,
        i: 0,
        vx: Seq::new(16, |k: int| 0u8),
        display: Seq::new(DISPLAY_SIZE as nat, |p: int| 0u8),
        draw_flag: false,
        stack: Seq::new(STACK_DEPTH as nat, |k: int| 0u16),
        sp: 0,
        keypad: Seq::new(16, |k: int| false),
        delay_timer: 0,
        sound_timer: 0,
    }
}

/// Number of program bytes that `load_rom` copies from a program of `len` bytes.
pub open spec fn loaded_len(len: int) -> int {
    if len <= PROGRAM_CAPACITY { len } else { PROGRAM_CAPACITY as int }
}

/// The state after loading `data`: the program counter at `PROGRAM_START` and
/// the bytes that fit copied there; the rest of the state stays.
pub open spec fn load_rom_spec(s: MachineState, data: Seq<u8>) -> MachineState {
    MachineState {
        ram: Seq::new(
            MEMORY_SIZE as nat,
            |a: int|
                if PROGRAM_START <= a < PROGRAM_START + loaded_len(data.len() as int) {
                    data[a - PROGRAM_START]
                } else {
                    s.ram[a]
                },
        ),
        pc: PROGRAM_START,
        ..s
    }
}

/// One step of a timer: down by one, staying at zero.
pub open spec fn timer_step(t: u8) -> u8 {
    if t > 0 { (t - 1) as u8 } else { 0 }
}

/// The state after one timer tick.
pub open spec fn tick_timers_spec(s: MachineState) -> MachineState {
    MachineState {
        delay_timer: timer_step(s.delay_timer),
        sound_timer: timer_step(s.sound_timer),
        ..s
    }
}

impl Chip8 {
    /// Each timer that is not zero goes down by one.
    pub fn tick_timers(&mut self)
        ensures
            final(self)@ == tick_timers_spec(old(self)@),
    {
        if self.delay_timer > 0 {
            self.delay_timer -= 1;
        }
        if self.sound_timer > 0 {
            self.sound_timer -= 1;
        }
    }

    /// A machine with the font table in memory and all else zero.
    pub fn new() -> (machine: Chip8)
        ensures
            machine@ == initial_state(),
    {
        let mut ram = [0u8; 4096];
        let mut k: usize = 0;
        while k < FONT_BYTES
            invariant
                k <= FONT_BYTES,
                forall|a: int|
                    0 <= a < 4096 ==> ram@[a] == if FONT_START <= a < FONT_START + k {
                        FONT_SET@[a - FONT_START]
                    } else {
                        0u8
                    },
            decreases FONT_BYTES - k,
        {
            ram[FONT_START as usize + k] = FONT_SET[k];
            k += 1;
        }
        Chip8 {
            ram,
            pc: 0,
            i: 0,
            vx: [0u8; 16],
            display: [0u8; 2048],
            draw_flag: false,
            stack: [0u16; 16],
            sp: 0,
            keypad: [false; 16],
            delay_timer: 0,
            sound_timer: 0,
        }
    }

    /// Whether the program counter is where a loaded program can be: at
    /// `PROGRAM_START` or above. A machine that is not must not be run.
    pub fn ready_to_run(&self) -> (ok: bool)
        ensures
            ok == (self.pc >= PROGRAM_START),
    {
        self.pc >= PROGRAM_START
    }

    /// Copies a program to `PROGRAM_START`, dropping what does not fit, and
    /// points the program counter at it.
    pub fn load_rom(&mut self, data: &[u8])
        ensures
            final(self)@ == load_rom_spec(old(self)@, data@),
    {
        let start: usize = PROGRAM_START as usize;
        self.pc = PROGRAM_START;
        let copy_len: usize = if data.len() <= PROGRAM_CAPACITY {
            data.len()
        } else {
            PROGRAM_CAPACITY
        };
        let mut k: usize = 0;
        while k < copy_len
            invariant
                k <= copy_len <= PROGRAM_CAPACITY,
                copy_len == loaded_len(data@.len() as int),
                start == PROGRAM_START,
                self@ == (MachineState {
                    ram: self.ram@,
                    pc: PROGRAM_START,
                    ..old(self)@
                }),
                forall|a: int|
                    0 <= a < 4096 ==> self.ram@[a] == if start <= a < start + k {
                        data@[a - start]
                    } else {
                        old(self).ram@[a]
                    },
            decreases copy_len - k,
        {
            self.ram[start + k] = data[k];
            k += 1;
        }
    }
}

} // verus!
