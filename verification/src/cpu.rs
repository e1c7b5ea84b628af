//! The fetch, decode and execute cycle.

use crate::instruction::{decode, decode_spec, Instruction};
use crate::machine::{Chip8, MachineState, MEMORY_SIZE, STACK_DEPTH};
use crate::semantics::{execute_spec, fault_of, random_spec, Fault};
use vstd::prelude::*;

verus! {

/// What became of an instruction word.
#[derive(Clone, Copy, Debug, PartialEq, Eq, Structural)]
pub enum Report {
    /// The word was an instruction, and it was carried out.
    Executed,
    /// The word matches no instruction. Nothing was done; the word is handed
    /// back for diagnosis.
    UnknownOpcode(u16),
}

/// Whether the two bytes of the next instruction lie within memory.
pub open spec fn can_fetch(s: MachineState) -> bool {
    s.pc + 1 < MEMORY_SIZE
}

/// The instruction word at the program counter: two bytes, high byte first.
pub open spec fn fetch_word(s: MachineState) -> u16 {
    (s.ram[s.pc as int] * 256 + s.ram[s.pc + 1]) as u16
}

/// The state after a fetch: the program counter moved past the word.
pub open spec fn after_fetch(s: MachineState) -> MachineState {
    MachineState { pc: (s.pc + 2) as u16, ..s }
}

/// The report on `word`.
pub open spec fn report_spec(word: u16) -> Report {
    if decode_spec(word) is Unknown {
        Report::UnknownOpcode(word)
    } else {
        Report::Executed
    }
}

/// The fault that stops the next cycle, or `None` where it can run.
pub open spec fn cycle_fault(s: MachineState) -> Option<Fault> {
    if !can_fetch(s) {
        Some(Fault::FetchOutOfRange)
    } else {
        fault_of(after_fetch(s), decode_spec(fetch_word(s)))
    }
}

/// The state after one cycle: fetch, then the fetched instruction.
pub open spec fn cycle_spec(s: MachineState, random: u8) -> MachineState {
    execute_spec(after_fetch(s), decode_spec(fetch_word(s)), random)
}

impl Chip8 {
    /// Reads the instruction word at the program counter, high byte first,
    /// and moves the program counter past it.
    pub fn fetch(&mut self) -> (opcode: u16)
        requires
            can_fetch(old(self)@),
        ensures
            opcode == fetch_word(old(self)@),
            final(self)@ == after_fetch(old(self)@),
    {
        let high_byte: u8 = self.ram[self.pc as usize];
        let low_byte: u8 = self.ram[self.pc as usize + 1];
        self.pc += 2;
        assert(((high_byte as u16) << 8) | (low_byte as u16) == high_byte * 256 + low_byte)
            by (bit_vector);
        let opcode: u16 = ((high_byte as u16) << 8) | (low_byte as u16);
        opcode
    }

    /// The fault that stops `instr` in this state, if any.
    pub fn fault(&self, instr: Instruction) -> (fault: Option<Fault>)
        requires
            instr.well_formed(),
        ensures
            fault == fault_of(self@, instr),
    {
        match instr {
            Instruction::Return => {
                if self.sp == 0 {
                    Some(Fault::StackUnderflow)
                } else if self.sp as usize > STACK_DEPTH {
                    Some(Fault::StackOverflow)
                } else {
                    None
                }
            },
            Instruction::Call { addr: _ } => {
                if self.sp as usize >= STACK_DEPTH {
                    Some(Fault::StackOverflow)
                } else {
                    None
                }
            },
            Instruction::SkipEqualByte { x, nn } => self.skip_fault(self.vx[x] == nn),
            Instruction::SkipNotEqualByte { x, nn } => self.skip_fault(self.vx[x] != nn),
            Instruction::SkipEqual { x, y } => self.skip_fault(self.vx[x] == self.vx[y]),
            Instruction::SkipNotEqual { x, y } => self.skip_fault(self.vx[x] != self.vx[y]),
            Instruction::JumpOffset { addr: _ } => None,
            Instruction::Draw { x: _, y: _, n } => {
                if n > 0 && self.i as usize + n as usize > MEMORY_SIZE {
                    Some(Fault::MemoryOutOfRange)
                } else {
                    None
                }
            },
            Instruction::SkipKeyPressed { x } => self.key_skip_fault(self.vx[x], true),
            Instruction::SkipKeyReleased { x } => self.key_skip_fault(self.vx[x], false),
            Instruction::WaitKey { x: _ } => {
                if self.pc < 2 && self.first_pressed_key().is_none() {
                    Some(Fault::AddressOutOfRange)
                } else {
                    None
                }
            },
            Instruction::AddIndex { x } => {
                if self.i as u32 + self.vx[x] as u32 > 0xFFFF {
                    Some(Fault::AddressOutOfRange)
                } else {
                    None
                }
            },
            Instruction::StoreDecimal { x: _ } => {
                if self.i as usize + 2 >= MEMORY_SIZE {
                    Some(Fault::MemoryOutOfRange)
                } else {
                    None
                }
            },
            Instruction::StoreRegisters { x } => {
                if self.i as usize + x >= MEMORY_SIZE {
                    Some(Fault::MemoryOutOfRange)
                } else {
                    None
                }
            },
            Instruction::LoadRegisters { x } => {
                if self.i as usize + x >= MEMORY_SIZE {
                    Some(Fault::MemoryOutOfRange)
                } else {
                    None
                }
            },
            _ => None,
        }
    }

    /// The fault that stops a skip taken under `condition`, if any.
    fn skip_fault(&self, condition: bool) -> (fault: Option<Fault>)
        ensures
            fault == crate::semantics::skip_fault(self@, condition),
    {
        if condition && self.pc > 0xFFFD {
            Some(Fault::AddressOutOfRange)
        } else {
            None
        }
    }

    /// The fault that stops a skip on the pressed state of `key`, if any.
    fn key_skip_fault(&self, key: u8, wanted: bool) -> (fault: Option<Fault>)
        ensures
            fault == crate::semantics::key_skip_fault(self@, key, wanted),
    {
        if key >= 16 {
            Some(Fault::KeyOutOfRange)
        } else {
            self.skip_fault(self.keypad[key as usize] == wanted)
        }
    }

    /// Carries out one instruction. `random` is the byte that a `Random`
    /// instruction uses; the others do not look at it.
    pub fn execute(&mut self, instr: Instruction, random: u8)
        requires
            instr.well_formed(),
            fault_of(old(self)@, instr) is None,
        ensures
            final(self)@ == execute_spec(old(self)@, instr, random),
    {
        match instr {
            Instruction::ClearScreen => self.op_00e0(),
            Instruction::Return => self.op_00ee(),
            Instruction::System { addr } => self.op_0nnn(addr),
            Instruction::Jump { addr } => self.op_1nnn(addr),
            Instruction::Call { addr } => self.op_2nnn(addr),
            Instruction::SkipEqualByte { x, nn } => self.op_3xnn(x, nn),
            Instruction::SkipNotEqualByte { x, nn } => self.op_4xnn(x, nn),
            Instruction::SkipEqual { x, y } => self.op_5xy0(x, y),
            Instruction::LoadByte { x, nn } => self.op_6xnn(x, nn),
            Instruction::AddByte { x, nn } => self.op_7xnn(x, nn),
            Instruction::Move { x, y } => self.op_8xy0(x, y),
            Instruction::Or { x, y } => self.op_8xy1(x, y),
            Instruction::And { x, y } => self.op_8xy2(x, y),
            Instruction::Xor { x, y } => self.op_8xy3(x, y),
            Instruction::Add { x, y } => self.op_8xy4(x, y),
            Instruction::Subtract { x, y } => self.op_8xy5(x, y),
            Instruction::ShiftRight { x, y } => self.op_8xy6(x, y),
            Instruction::SubtractFrom { x, y } => self.op_8xy7(x, y),
            Instruction::ShiftLeft { x, y } => self.op_8xye(x, y),
            Instruction::SkipNotEqual { x, y } => self.op_9xy0(x, y),
            Instruction::LoadIndex { addr } => self.op_annn(addr),
            Instruction::JumpOffset { addr } => self.op_bnnn(addr),
            Instruction::Random { x, nn } => self.op_cxnn_with(x, nn, random),
            Instruction::Draw { x, y, n } => self.op_dxyn(x, y, n),
            Instruction::SkipKeyPressed { x } => self.op_ex9e(x),
            Instruction::SkipKeyReleased { x } => self.op_exa1(x),
            Instruction::ReadDelay { x } => self.op_fx07(x),
            Instruction::WaitKey { x } => self.op_fx0a(x),
            Instruction::SetDelay { x } => self.op_fx15(x),
            Instruction::SetSound { x } => self.op_fx18(x),
            Instruction::AddIndex { x } => self.op_fx1e(x),
            Instruction::FontGlyph { x } => self.op_fx29(x),
            Instruction::StoreDecimal { x } => self.op_fx33(x),
            Instruction::StoreRegisters { x } => self.op_fx55(x),
            Instruction::LoadRegisters { x } => self.op_fx65(x),
            Instruction::Unknown => {},
        }
    }

    /// Carries out one instruction, drawing a random byte where the
    /// instruction asks for one.
    fn perform(&mut self, instr: Instruction)
        requires
            instr.well_formed(),
            fault_of(old(self)@, instr) is None,
        ensures
            exists|random: u8| final(self)@ == execute_spec(old(self)@, instr, random),
            !(instr is Random) ==> final(self)@ == execute_spec(old(self)@, instr, 0),
    {
        match instr {
            Instruction::Random { x, nn } => {
                self.op_cxnn(x, nn);
                proof {
                    let drawn = choose|random: u8|
                        self@ == random_spec(old(self)@, x as int, nn, random);
                    assert(self@ == execute_spec(old(self)@, instr, drawn));
                }
            },
            _ => {
                self.execute(instr, 0);
            },
        }
    }

    /// Decodes `opcode` and carries it out, drawing a random byte where the
    /// instruction asks for one. A word that matches no instruction changes
    /// nothing and is reported.
    pub fn decode_execute(&mut self, opcode: u16) -> (report: Report)
        requires
            fault_of(old(self)@, decode_spec(opcode)) is None,
        ensures
            report == report_spec(opcode),
            exists|random: u8|
                final(self)@ == execute_spec(old(self)@, decode_spec(opcode), random),
            !(decode_spec(opcode) is Random) ==> final(self)@ == execute_spec(
                old(self)@,
                decode_spec(opcode),
                0,
            ),
            decode_spec(opcode) is Unknown ==> final(self)@ == old(self)@,
    {
        let instr = decode(opcode);
        self.perform(instr);
        match instr {
            Instruction::Unknown => Report::UnknownOpcode(opcode),
            _ => Report::Executed,
        }
    }

    /// Runs one cycle: fetches the next instruction word, decodes it and
    /// carries it out. Where the cycle cannot run, the fault is returned and
    /// the machine is left as it was.
    pub fn cycle(&mut self) -> (result: Result<Report, Fault>)
        ensures
            match result {
                Ok(report) => {
                    &&& cycle_fault(old(self)@) is None
                    &&& report == report_spec(fetch_word(old(self)@))
                    &&& exists|random: u8| final(self)@ == cycle_spec(old(self)@, random)
                    &&& !(decode_spec(fetch_word(old(self)@)) is Random) ==> final(self)@
                        == cycle_spec(old(self)@, 0)
                },
                Err(fault) => cycle_fault(old(self)@) == Some(fault) && final(self)@ == old(self)@,
            },
    {
        if self.pc as usize + 1 >= MEMORY_SIZE {
            return Err(Fault::FetchOutOfRange);
        }
        let opcode = self.fetch();
        let instr = decode(opcode);
        match self.fault(instr) {
            Some(fault) => {
                self.pc -= 2;
                Err(fault)
            },
            None => {
                let ghost fetched = self@;
                self.perform(instr);
                proof {
                    let drawn = choose|random: u8| self@ == execute_spec(fetched, instr, random);
                    assert(self@ == cycle_spec(old(self)@, drawn));
                }
                match instr {
                    Instruction::Unknown => Ok(Report::UnknownOpcode(opcode)),
                    _ => Ok(Report::Executed),
                }
            },
        }
    }
}

} // verus!
