//! A SAP-1 style 8-bit computer: a single-bus von Neumann machine with an
//! accumulator, a secondary register, an ALU, a program counter, 256 bytes of
//! memory and a microcoded control unit.
//!
//! The executable machine lives in [`emulator`]; its mathematical model, the
//! microcode table and the datapath semantics live in [`model`].  The module
//! [`cycles`] proves, for each instruction, exactly what one full instruction
//! cycle does to the machine state, and [`laws`] states the machine-wide
//! guarantees (cycle counts, halting, memory framing) on top of those lemmas.
//! [`disasm`] is the display helper that maps instruction bytes to mnemonics.

pub mod cycles;
pub mod disasm;
pub mod emulator;
pub mod laws;
pub mod model;
