//! A verified simulator of the LC-3, a 16-bit von-Neumann teaching
//! architecture: 16 opcodes, 8 general-purpose registers and a 64K-word
//! address space. The instruction codec, the executor, the register file,
//! the memory subsystem (with its memory-mapped keyboard registers), the
//! program loader and the run loop all carry contracts that pin their
//! behaviour down to the word.

pub mod error;
pub mod instructions;
pub mod machine;
pub mod memory;
pub mod registers;
pub mod streams;
