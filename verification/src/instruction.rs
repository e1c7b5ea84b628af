//! Instruction words and their decoding.
//!
//! A word is four nibbles. The first selects the family; the others are
//! register indices, a four-bit or eight-bit immediate, or a twelve-bit
//! address, depending on the family.

use vstd::prelude::*;

verus! {

/// One decoded instruction. `x` and `y` are register indices.
#[derive(Clone, Copy, Debug, PartialEq, Eq, Structural)]
pub enum Instruction {
    /// 00E0: clear the display.
    ClearScreen,
    /// 00EE: return from a subroutine.
    Return,
    /// 0NNN: call a machine-code routine; does nothing.
    System { addr: u16 },
    /// 1NNN: jump to `addr`.
    Jump { addr: u16 },
    /// 2NNN: call the subroutine at `addr`.
    Call { addr: u16 },
    /// 3XNN: skip the next instruction if Vx equals `nn`.
    SkipEqualByte { x: usize, nn: u8 },
    /// 4XNN: skip the next instruction if Vx differs from `nn`.
    SkipNotEqualByte { x: usize, nn: u8 },
    /// 5XY0: skip the next instruction if Vx equals Vy.
    SkipEqual { x: usize, y: usize },
    /// 6XNN: set Vx to `nn`.
    LoadByte { x: usize, nn: u8 },
    /// 7XNN: add `nn` to Vx, without touching VF.
    AddByte { x: usize, nn: u8 },
    /// 8XY0: set Vx to Vy.
    Move { x: usize, y: usize },
    /// 8XY1: set Vx to Vx OR Vy.
    Or { x: usize, y: usize },
    /// 8XY2: set Vx to Vx AND Vy.
    And { x: usize, y: usize },
    /// 8XY3: set Vx to Vx XOR Vy.
    Xor { x: usize, y: usize },
    /// 8XY4: add Vy to Vx; VF reports the carry.
    Add { x: usize, y: usize },
    /// 8XY5: subtract Vy from Vx; VF reports that there was no borrow.
    Subtract { x: usize, y: usize },
    /// 8XY6: shift Vx right by one; VF receives the bit shifted out.
    ShiftRight { x: usize, y: usize },
    /// 8XY7: set Vx to Vy minus Vx; VF reports that there was no borrow.
    SubtractFrom { x: usize, y: usize },
    /// 8XYE: shift Vx left by one; VF receives the bit shifted out.
    ShiftLeft { x: usize, y: usize },
    /// 9XY0: skip the next instruction if Vx differs from Vy.
    SkipNotEqual { x: usize, y: usize },
    /// ANNN: set the index register to `addr`.
    LoadIndex { addr: u16 },
    /// BNNN: jump to `addr` plus V0.
    JumpOffset { addr: u16 },
    /// CXNN: set Vx to a random byte AND `nn`.
    Random { x: usize, nn: u8 },
    /// DXYN: draw an `n`-row sprite at (Vx, Vy).
    Draw { x: usize, y: usize, n: u8 },
    /// EX9E: skip the next instruction if the key named by Vx is pressed.
    SkipKeyPressed { x: usize },
    /// EXA1: skip the next instruction if the key named by Vx is not pressed.
    SkipKeyReleased { x: usize },
    /// FX07: set Vx to the delay timer.
    ReadDelay { x: usize },
    /// FX0A: wait for a key and store its index in Vx.
    WaitKey { x: usize },
    /// FX15: set the delay timer to Vx.
    SetDelay { x: usize },
    /// FX18: set the sound timer to Vx.
    SetSound { x: usize },
    /// FX1E: add Vx to the index register.
    AddIndex { x: usize },
    /// FX29: point the index register at the font glyph for Vx.
    FontGlyph { x: usize },
    /// FX33: store the decimal digits of Vx at the index register.
    StoreDecimal { x: usize },
    /// FX55: store V0 to Vx at the index register.
    StoreRegisters { x: usize },
    /// FX65: load V0 to Vx from the index register.
    LoadRegisters { x: usize },
    /// A word that matches no instruction.
    Unknown,
}

/// Bits 12 to 15 of a word: the family.
pub open spec fn primary_of(word: u16) -> u16 {
    word / 0x1000
}

/// Bits 8 to 11 of a word: the register index X.
pub open spec fn x_of(word: u16) -> usize {
    ((word / 0x100) % 16) as usize
}

/// Bits 4 to 7 of a word: the register index Y.
pub open spec fn y_of(word: u16) -> usize {
    ((word / 0x10) % 16) as usize
}

/// Bits 0 to 3 of a word: the immediate N.
pub open spec fn n_of(word: u16) -> u8 {
    (word % 16) as u8
}

/// Bits 0 to 7 of a word: the immediate NN.
pub open spec fn nn_of(word: u16) -> u8 {
    (word % 0x100) as u8
}

/// Bits 0 to 11 of a word: the address NNN.
pub open spec fn nnn_of(word: u16) -> u16 {
    word % 0x1000
}

/// The instruction that a word stands for. Within a family the most
/// specific pattern wins: 00E0 and 00EE come before 0NNN.
pub open spec fn decode_spec(word: u16) -> Instruction {
    let x = x_of(word);
    let y = y_of(word);
    let n = n_of(word);
    let nn = nn_of(word);
    let addr = nnn_of(word);
    match primary_of(word) {
        0x0 => if word == 0x00E0 {
            Instruction::ClearScreen
        } else if word == 0x00EE {
            Instruction::Return
        } else {
            Instruction::System { addr }
        },
        0x1 => Instruction::Jump { addr },
        0x2 => Instruction::Call { addr },
        0x3 => Instruction::SkipEqualByte { x, nn },
        0x4 => Instruction::SkipNotEqualByte { x, nn },
        0x5 => if n == 0 {
            Instruction::SkipEqual { x, y }
        } else {
            Instruction::Unknown
        },
        0x6 => Instruction::LoadByte { x, nn },
        0x7 => Instruction::AddByte { x, nn },
        0x8 => match n {
            0x0 => Instruction::Move { x, y },
            0x1 => Instruction::Or { x, y },
            0x2 => Instruction::And { x, y },
            0x3 => Instruction::Xor { x, y },
            0x4 => Instruction::Add { x, y },
            0x5 => Instruction::Subtract { x, y },
            0x6 => Instruction::ShiftRight { x, y },
            0x7 => Instruction::SubtractFrom { x, y },
            0xE => Instruction::ShiftLeft { x, y },
            _ => Instruction::Unknown,
        },
        0x9 => if n == 0 {
            Instruction::SkipNotEqual { x, y }
        } else {
            Instruction::Unknown
        },
        0xA => Instruction::LoadIndex { addr },
        0xB => Instruction::JumpOffset { addr },
        0xC => Instruction::Random { x, nn },
        0xD => Instruction::Draw { x, y, n },
        0xE => match nn {
            0x9E => Instruction::SkipKeyPressed { x },
            0xA1 => Instruction::SkipKeyReleased { x },
            _ => Instruction::Unknown,
        },
        _ => match nn {
            0x07 => Instruction::ReadDelay { x },
            0x0A => Instruction::WaitKey { x },
            0x15 => Instruction::SetDelay { x },
            0x18 => Instruction::SetSound { x },
            0x1E => Instruction::AddIndex { x },
            0x29 => Instruction::FontGlyph { x },
            0x33 => Instruction::StoreDecimal { x },
            0x55 => Instruction::StoreRegisters { x },
            0x65 => Instruction::LoadRegisters { x },
            _ => Instruction::Unknown,
        },
    }
}

impl Instruction {
    /// Register indices are below 16, `n` is a nibble and addresses have
    /// twelve bits.
    pub open spec fn well_formed(self) -> bool {
        match self {
            Instruction::ClearScreen | Instruction::Return | Instruction::Unknown => true,
            Instruction::System { addr }
            | Instruction::Jump { addr }
            | Instruction::Call { addr }
            | Instruction::LoadIndex { addr }
            | Instruction::JumpOffset { addr } => addr < 0x1000,
            Instruction::SkipEqualByte { x, nn }
            | Instruction::SkipNotEqualByte { x, nn }
            | Instruction::LoadByte { x, nn }
            | Instruction::AddByte { x, nn }
            | Instruction::Random { x, nn } => x < 16,
            Instruction::SkipEqual { x, y }
            | Instruction::Move { x, y }
            | Instruction::Or { x, y }
            | Instruction::And { x, y }
            | Instruction::Xor { x, y }
            | Instruction::Add { x, y }
            | Instruction::Subtract { x, y }
            | Instruction::ShiftRight { x, y }
            | Instruction::SubtractFrom { x, y }
            | Instruction::ShiftLeft { x, y }
            | Instruction::SkipNotEqual { x, y } => x < 16 && y < 16,
            Instruction::Draw { x, y, n } => x < 16 && y < 16 && n < 16,
            Instruction::SkipKeyPressed { x }
            | Instruction::SkipKeyReleased { x }
            | Instruction::ReadDelay { x }
            | Instruction::WaitKey { x }
            | Instruction::SetDelay { x }
            | Instruction::SetSound { x }
            | Instruction::AddIndex { x }
            | Instruction::FontGlyph { x }
            | Instruction::StoreDecimal { x }
            | Instruction::StoreRegisters { x }
            | Instruction::LoadRegisters { x } => x < 16,
        }
    }
}

/// Every word decodes to a well-formed instruction.
pub proof fn lemma_decode_well_formed(word: u16)
    ensures
        decode_spec(word).well_formed(),
{
}

/// Decodes one instruction word.
pub fn decode(opcode: u16) -> (instr: Instruction)
    ensures
        instr == decode_spec(opcode),
        instr.well_formed(),
{
    let primary: u16 = (opcode & 0xF000) >> 12;
    let x: usize = ((opcode & 0x0F00) >> 8) as usize;
    let y: usize = ((opcode & 0x00F0) >> 4) as usize;
    let n: u8 = (opcode & 0x000F) as u8;
    let nn: u8 = (opcode & 0x00FF) as u8;
    let nnn: u16 = opcode & 0x0FFF;
    proof {
        assert((opcode & 0xF000) >> 12 == opcode / 0x1000) by (bit_vector);
        assert((opcode & 0x0F00) >> 8 == (opcode / 0x100) % 16) by (bit_vector);
        assert((opcode & 0x00F0) >> 4 == (opcode / 0x10) % 16) by (bit_vector);
        assert(opcode & 0x000F == opcode % 16) by (bit_vector);
        assert(opcode & 0x00FF == opcode % 0x100) by (bit_vector);
        assert(opcode & 0x0FFF == opcode % 0x1000) by (bit_vector);
        assert(opcode == 0x00E0 <==> (primary == 0 && x == 0 && y == 0xE && n == 0));
        assert(opcode == 0x00EE <==> (primary == 0 && x == 0 && y == 0xE && n == 0xE));
        assert(nn as int == y * 16 + n);
        lemma_decode_well_formed(opcode);
    }
    match (primary, x, y, n) {
        (0x0, 0x0, 0xE, 0x0) => Instruction::ClearScreen,
        (0x0, 0x0, 0xE, 0xE) => Instruction::Return,
        (0x0, _, _, _) => Instruction::System { addr: nnn },
        (0x1, _, _, _) => Instruction::Jump { addr: nnn },
        (0x2, _, _, _) => Instruction::Call { addr: nnn },
        (0x3, _, _, _) => Instruction::SkipEqualByte { x, nn },
        (0x4, _, _, _) => Instruction::SkipNotEqualByte { x, nn },
        (0x5, _, _, 0x0) => Instruction::SkipEqual { x, y },
        (0x6, _, _, _) => Instruction::LoadByte { x, nn },
        (0x7, _, _, _) => Instruction::AddByte { x, nn },
        (0x8, _, _, 0x0) => Instruction::Move { x, y },
        (0x8, _, _, 0x1) => Instruction::Or { x, y },
        (0x8, _, _, 0x2) => Instruction::And { x, y },
        (0x8, _, _, 0x3) => Instruction::Xor { x, y },
        (0x8, _, _, 0x4) => Instruction::Add { x, y },
        (0x8, _, _, 0x5) => Instruction::Subtract { x, y },
        (0x8, _, _, 0x6) => Instruction::ShiftRight { x, y },
        (0x8, _, _, 0x7) => Instruction::SubtractFrom { x, y },
        (0x8, _, _, 0xE) => Instruction::ShiftLeft { x, y },
        (0x9, _, _, 0x0) => Instruction::SkipNotEqual { x, y },
        (0xA, _, _, _) => Instruction::LoadIndex { addr: nnn },
        (0xB, _, _, _) => Instruction::JumpOffset { addr: nnn },
        (0xC, _, _, _) => Instruction::Random { x, nn },
        (0xD, _, _, _) => Instruction::Draw { x, y, n },
        (0xE, _, 0x9, 0xE) => Instruction::SkipKeyPressed { x },
        (0xE, _, 0xA, 0x1) => Instruction::SkipKeyReleased { x },
        (0xF, _, 0x0, 0x7) => Instruction::ReadDelay { x },
        (0xF, _, 0x0, 0xA) => Instruction::WaitKey { x },
        (0xF, _, 0x1, 0x5) => Instruction::SetDelay { x },
        (0xF, _, 0x1, 0x8) => Instruction::SetSound { x },
        (0xF, _, 0x1, 0xE) => Instruction::AddIndex { x },
        (0xF, _, 0x2, 0x9) => Instruction::FontGlyph { x },
        (0xF, _, 0x3, 0x3) => Instruction::StoreDecimal { x },
        (0xF, _, 0x5, 0x5) => Instruction::StoreRegisters { x },
        (0xF, _, 0x6, 0x5) => Instruction::LoadRegisters { x },
        _ => Instruction::Unknown,
    }
}

} // verus!
