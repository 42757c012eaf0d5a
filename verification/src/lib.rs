//! A cycle-level emulator for the Datapoint 2200, an early programmable
//! terminal.  The crate models the 8-bit CPU with its two register banks,
//! hardware call stack and interrupt latch, the databus protocol between the
//! CPU and its peripherals (screen, keyboard, cassette), a time-based cassette
//! transport, and the clock that interleaves instruction execution with
//! peripheral advancement.  A small assembler and disassembler for the
//! machine's instruction set are included for building test programs.

pub mod assembler;
pub mod cassette;
pub mod clock;
pub mod cpu;
pub mod databus;
pub mod datapoint;
pub mod disassembler;
pub mod instruction;
pub mod keyboard;
pub mod laws;
pub mod numtext;
pub mod screen;

pub use instruction::{Instruction, InstructionType};
