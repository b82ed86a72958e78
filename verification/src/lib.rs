//! A bytecode interpreter for a small register machine: thirteen signed
//! 32-bit registers, one flat byte memory, and twelve-byte instruction
//! records that are fetched, decoded and executed until the program ends.

pub mod arith;
pub mod console;
pub mod error;
pub mod instruction;
pub mod laws;
pub mod machine;
pub mod memory;
pub mod registers;
