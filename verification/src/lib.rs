//! A verified fetch-decode-execute engine for a fixed-width (CHIP-8-style)
//! instruction set: a register file of 16 eight-bit registers, 4096 bytes of
//! memory, a 16-deep call stack, and the arithmetic and control-flow
//! semantics of each instruction, including the overflow-flag conventions.

pub mod cpu;
pub mod isa;
pub mod laws;
