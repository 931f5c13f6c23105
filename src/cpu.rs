//! The processor's state and its instruction decoder.
pub mod encoding;
pub mod mem;
pub mod opcodes;
pub mod reg;
