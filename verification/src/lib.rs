//! The core of an emulator for the MOS 6502 family of 8-bit processors:
//! a 64 KiB memory image, the opcode table, and the processor itself with
//! bit-exact instruction semantics and per-instruction cycle accounting.
//!
//! Every executable function carries a contract stated over a mathematical
//! model of the machine: the processor state as a plain value, and memory as
//! a sequence of 65,536 bytes.

pub mod addressing;
pub mod alu;
pub mod cpu;
pub mod execute;
pub mod instructions;
pub mod laws;
pub mod mem;
pub mod opcodes;
pub mod semantics;
