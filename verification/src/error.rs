use vstd::prelude::*;

verus! {

/// Why a program could not be loaded, or why a run stopped.
#[derive(Clone, Copy, Debug, PartialEq, Eq, Structural)]
pub enum VmError {
    /// The program has more bytes than the memory can hold.
    ProgramTooLarge { length: usize },
    /// The address at which a run was asked to start is larger than any
    /// value that the program counter can hold.
    BadStartAddress { start: usize },
    /// A memory access at `address` does not lie wholly inside the memory.
    OutOfBounds { address: i32 },
    /// An operand names a register that does not exist.
    InvalidRegister { index: i32 },
    /// A division whose divisor, held in register `register`, is zero.
    DivisionByZero { register: i32 },
    /// The record fetched at `address` holds an opcode that no instruction has.
    UnknownOpcode { opcode: i32, address: i32 },
}

} // verus!
