//! Decoding of Intel 8086 machine code.
//!
//! The opcode byte of each instruction is classified by a binary search over
//! its bits, which is proved to agree with the flat opcode map in
//! [`opcode::opcode_kind`]; [`encoding`] states that map by the fields of
//! the 8086 encoding, and a byte stream is then split into instructions.

pub mod bits;
pub mod opcode;
pub mod encoding;
pub mod decode;
pub mod regs;
