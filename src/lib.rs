//! An emulator for an idealised Z80 CPU.
//!
//! The decoder turns byte windows into symbolic operations, and the
//! execution engine applies each operation to the register file and memory.
//! Every function is stated against a model of the machine state made of the
//! register file and the memory contents as a sequence of bytes.
pub mod cpu;
pub mod ops;
pub mod z80;
