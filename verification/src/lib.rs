//! A CHIP-8 virtual machine: memory, registers, stack, display, keypad and
//! timers, with the instruction set interpreted one word at a time.
//!
//! Every operation is specified as a function on [`machine::MachineState`],
//! the mathematical view of a [`machine::Chip8`], and proved against it.

pub mod console;
pub mod cpu;
mod entropy;
pub mod font;
pub mod frame;
pub mod host;
pub mod instruction;
pub mod laws;
pub mod machine;
pub mod ops;
pub mod semantics;

pub use cpu::Report;
pub use frame::TickReport;
pub use host::HostKey;
pub use instruction::Instruction;
pub use machine::Chip8;
pub use machine::MachineState;
pub use semantics::Fault;
