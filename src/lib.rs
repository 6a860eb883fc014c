//! An emulator for a small three-byte instruction set whose encoding
//! (opcode values, field order, register identifiers, flag masks and
//! syscall numbers) is supplied as data.

pub mod arch;
pub mod assembler;
pub mod emulator;
pub mod laws;
