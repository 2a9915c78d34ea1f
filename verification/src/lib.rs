//! Core of an emulator for a classic 8-bit handheld game console: the
//! CPU's register file, the cartridge mapper with its bank-switching
//! state, the unified address space that routes every CPU-visible
//! address to its owning region, and the arithmetic instruction
//! handlers, each with a verified contract.

pub mod cpu;
pub mod instrs;
pub mod mem;
pub mod regs;
pub mod rom;
