//! A virtual machine for a 16-bit word, eight-register instruction set with
//! character input and output, together with its decoder and disassembler.
//!
//! `word` holds the argument model and the arithmetic modulo 32768, `op` the
//! instructions and their decoding, `vm` the machine and its step semantics,
//! `disasm` the text of instructions, and `lemmas` the laws proved of them.
//! `teleporter` and `maze` hold two small helpers for programs that the
//! machine runs.
pub mod word;
pub mod op;
pub mod vm;
pub mod disasm;
pub mod teleporter;
pub mod maze;
pub mod lemmas;
