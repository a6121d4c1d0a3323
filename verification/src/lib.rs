//! Emulation core of a MOS 6502 based home computer: the instruction
//! execution engine, the bank-switched address space and the interval
//! timer that drives its interrupts.

pub mod alu;
pub mod bytes;
pub mod c64;
pub mod c64memory;
pub mod clock;
pub mod cpu;
pub mod dump;
pub mod engine;
pub mod history;
pub mod instruction;
pub mod laws;
pub mod memory;
pub mod names;
pub mod registers;
pub mod semantics;
pub mod status;
pub mod text;
pub mod timer;
pub mod trace;
