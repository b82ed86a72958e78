use vstd::prelude::*;
use crate::arith::{
    add32, both_set, code_of_digit, code_to_digit, digit_of_code, digit_to_code, div32,
    either_set, low16, low16_of, low8, low8_of, mul32, quotient, sign32, sign_of_difference,
    sub32, wrap32,
};
use crate::error::VmError;
use crate::instruction::{decode_spec, Instruction};
use crate::memory::{in_bounds, record_at, with_word, word_of, Memory, CAPACITY};
use crate::registers::{valid_register, Registers, IO, PC};

verus! {

/// The machine as contracts see it: the thirteen registers and the bytes of
/// the memory.
#[verifier::ext_equal]
pub struct State {
    pub regs: Seq<i32>,
    pub mem: Seq<u8>,
}

impl State {
    /// Thirteen registers and a memory of full size.
    pub open spec fn wf(self) -> bool {
        self.regs.len() == 13 && self.mem.len() == CAPACITY
    }

    /// The value of register `index`.
    pub open spec fn reg(self, index: i32) -> i32 {
        self.regs[index as int]
    }

    /// This state with `value` in register `index`.
    pub open spec fn with_reg(self, index: i32, value: i32) -> State {
        State { regs: self.regs.update(index as int, value), mem: self.mem }
    }

    /// This state with another memory content.
    pub open spec fn with_mem(self, mem: Seq<u8>) -> State {
        State { regs: self.regs, mem }
    }
}

/// What an executed instruction tells the loop that drives the machine.
#[derive(Clone, Copy, Debug, PartialEq, Eq, Structural)]
pub enum Signal {
    /// Nothing special: go on with the next record.
    Advance,
    /// The instruction has set the program counter itself.
    Jumped,
    /// The program has ended.
    Halt,
    /// Write this byte to the output as one character.
    PrintChar(u8),
    /// Write this number to the output in decimal.
    PrintInteger(i32),
    /// Read one character of input and deliver it.
    ReadChar,
    /// Read a line of input, and deliver the number it holds.
    ReadInteger,
}

/// What a two-register instruction leaves in its first register, given the
/// values `x` of the first and `y` of the second.
pub open spec fn two_register_value(instruction: Instruction, x: i32, y: i32) -> i32 {
    match instruction {
        Instruction::Add => wrap32(x + y),
        Instruction::Subtract => wrap32(x - y),
        Instruction::Multiply => wrap32(x * y),
        Instruction::Divide => wrap32(quotient(x as int, y as int)),
        Instruction::And => both_set(x, y),
        Instruction::Or => either_set(x, y),
        Instruction::Compare => sign_of_difference(x, y),
        Instruction::Move => y,
        _ => x,
    }
}

/// Whether a conditional jump is taken on the register value `v`.
pub open spec fn jump_taken(instruction: Instruction, v: i32) -> bool {
    match instruction {
        Instruction::CompareZeroJump => v == 0,
        Instruction::GreaterThanZeroJump => v > 0,
        Instruction::LessThanZeroJump => v < 0,
        Instruction::NonZeroJump => v != 0,
        _ => false,
    }
}

/// The effect of a two-register instruction with operands `a` and `b`.
pub open spec fn two_register_spec(s: State, instruction: Instruction, a: i32, b: i32) -> Result<
    (State, Signal),
    VmError,
> {
    if !valid_register(a) {
        Err(VmError::InvalidRegister { index: a })
    } else if !valid_register(b) {
        Err(VmError::InvalidRegister { index: b })
    } else if instruction == Instruction::Divide && s.reg(b) == 0 {
        Err(VmError::DivisionByZero { register: b })
    } else {
        Ok((s.with_reg(a, two_register_value(instruction, s.reg(a), s.reg(b))), Signal::Advance))
    }
}

/// The effect of a conditional jump on register `a` to the target `b`: a
/// jump that is taken leaves the target less one record width in the program
/// counter, one that is not taken leaves the state as it is.
pub open spec fn conditional_jump_spec(s: State, instruction: Instruction, a: i32, b: i32) -> Result<
    (State, Signal),
    VmError,
> {
    if !valid_register(a) {
        Err(VmError::InvalidRegister { index: a })
    } else if jump_taken(instruction, s.reg(a)) {
        Ok((s.with_reg(PC, wrap32(b - 12)), Signal::Jumped))
    } else {
        Ok((s, Signal::Advance))
    }
}

/// The effect of a load or a store of register `a` at the address `b`.
pub open spec fn memory_access_spec(s: State, instruction: Instruction, a: i32, b: i32) -> Result<
    (State, Signal),
    VmError,
> {
    let width: int = if instruction == Instruction::LoadByte || instruction
        == Instruction::StoreByte {
        1
    } else {
        2
    };
    if !valid_register(a) {
        Err(VmError::InvalidRegister { index: a })
    } else if !in_bounds(b, width) {
        Err(VmError::OutOfBounds { address: b })
    } else {
        let t = match instruction {
            Instruction::LoadByte => s.with_reg(a, s.mem[b as int] as i32),
            Instruction::LoadWord => s.with_reg(a, word_of(s.mem[b as int], s.mem[b + 1]) as i32),
            Instruction::StoreByte => s.with_mem(s.mem.update(b as int, low8_of(s.reg(a)))),
            Instruction::StoreWord => s.with_mem(with_word(s.mem, b as int, low16_of(s.reg(a)))),
            _ => s,
        };
        Ok((t, Signal::Advance))
    }
}

/// What executing `instruction` with the operand words `a` and `b` does to
/// the state `s`: the state after it and the signal for the loop, or the
/// error on which it fails. The program counter is advanced by the loop, not
/// here.
pub open spec fn execute_spec(s: State, instruction: Instruction, a: i32, b: i32) -> Result<
    (State, Signal),
    VmError,
> {
    match instruction {
        Instruction::Add
        | Instruction::And
        | Instruction::Compare
        | Instruction::Divide
        | Instruction::Move
        | Instruction::Multiply
        | Instruction::Or
        | Instruction::Subtract => two_register_spec(s, instruction, a, b),
        Instruction::CompareZeroJump
        | Instruction::GreaterThanZeroJump
        | Instruction::LessThanZeroJump
        | Instruction::NonZeroJump => conditional_jump_spec(s, instruction, a, b),
        Instruction::LoadByte
        | Instruction::LoadWord
        | Instruction::StoreByte
        | Instruction::StoreWord => memory_access_spec(s, instruction, a, b),
        Instruction::AddImmediate => if valid_register(a) {
            Ok((s.with_reg(a, wrap32(s.reg(a) + b)), Signal::Advance))
        } else {
            Err(VmError::InvalidRegister { index: a })
        },
        Instruction::LoadAddress => if valid_register(a) {
            Ok((s.with_reg(a, b), Signal::Advance))
        } else {
            Err(VmError::InvalidRegister { index: a })
        },
        Instruction::Jump => Ok((s.with_reg(PC, wrap32(a - 12)), Signal::Jumped)),
        Instruction::JumpRelative => if valid_register(a) {
            Ok((s.with_reg(PC, wrap32(s.reg(a) - 12)), Signal::Jumped))
        } else {
            Err(VmError::InvalidRegister { index: a })
        },
        Instruction::ConvertASCIIToInteger => Ok(
            (s.with_reg(IO, digit_of_code(s.reg(IO))), Signal::Advance),
        ),
        Instruction::ConvertIntegerToASCII => Ok(
            (s.with_reg(IO, code_of_digit(s.reg(IO))), Signal::Advance),
        ),
        Instruction::InputASCII => Ok((s, Signal::ReadChar)),
        Instruction::InputInteger => Ok((s, Signal::ReadInteger)),
        Instruction::OutputASCII => Ok((s, Signal::PrintChar(low8_of(s.reg(IO))))),
        Instruction::OutputInteger => Ok((s, Signal::PrintInteger(s.reg(IO)))),
        Instruction::End => Ok((s, Signal::Halt)),
    }
}

/// One turn of the loop: fetch the record at the program counter, decode
/// it, execute it and, unless the program has ended, add one record width to
/// the program counter. After a jump that is taken the program counter thus
/// holds the jump's target.
#[verifier::opaque]
pub open spec fn step_spec(s: State) -> Result<(State, Signal), VmError> {
    let pc = s.reg(PC);
    if !in_bounds(pc, 12) {
        Err(VmError::OutOfBounds { address: pc })
    } else {
        let record = record_at(s.mem, pc as int);
        match decode_spec(record.0) {
            None => Err(VmError::UnknownOpcode { opcode: record.0, address: pc }),
            Some(instruction) => match execute_spec(s, instruction, record.1, record.2) {
                Err(e) => Err(e),
                Ok((t, signal)) => if signal == Signal::Halt {
                    Ok((t, signal))
                } else {
                    Ok((t.with_reg(PC, wrap32(t.reg(PC) + 12)), signal))
                },
            },
        }
    }
}

/// Whether the loop goes on by itself after a signal.
pub open spec fn goes_on(signal: Signal) -> bool {
    signal == Signal::Advance || signal == Signal::Jumped
}

/// At most `steps` turns of the loop from the state `s`: the state in which
/// the loop stops, and why. It stops on the first error, with the state
/// before the failing turn; on the first signal that asks something of the
/// driver (`Halt`, an output, an input), with the state after that turn; or,
/// with `Advance`, once the steps are used up.
pub open spec fn run_spec(s: State, steps: nat) -> (State, Result<Signal, VmError>)
    decreases steps,
{
    if steps == 0 {
        (s, Ok(Signal::Advance))
    } else {
        match step_spec(s) {
            Err(e) => (s, Err(e)),
            Ok((t, signal)) => if goes_on(signal) {
                run_spec(t, (steps - 1) as nat)
            } else {
                (t, Ok(signal))
            },
        }
    }
}

/// The virtual machine: a register file and a memory that holds the
/// program.
pub struct VM {
    registers: Registers,
    memory: Memory,
}

impl View for VM {
    type V = State;

    closed spec fn view(&self) -> State {
        State { regs: self.registers@, mem: self.memory@ }
    }
}

impl VM {
    /// The machine's state is well formed: `new` returns only such machines,
    /// and every method keeps them so.
    pub open spec fn wf(&self) -> bool {
        self@.wf()
    }

    /// A machine with `code` loaded at address 0, the rest of the memory and
    /// every register at zero. A program longer than the memory is refused
    /// with `ProgramTooLarge`.
    pub fn new(code: Vec<u8>) -> (r: Result<VM, VmError>)
        ensures
            code@.len() <= CAPACITY ==> r is Ok && r->Ok_0.wf() && r->Ok_0@ == (State {
                regs: Seq::new(13, |i: int| 0i32),
                mem: crate::memory::loaded(code@),
            }),
            code@.len() > CAPACITY ==> r is Err && r->Err_0 == (VmError::ProgramTooLarge {
                length: code.len(),
            }),
    {
        match Memory::new(&code) {
            Err(e) => Err(e),
            Ok(memory) => {
                let vm = VM { registers: Registers::new(), memory };
                assert(vm@ =~= (State {
                    regs: Seq::new(13, |i: int| 0i32),
                    mem: crate::memory::loaded(code@),
                }));
                Ok(vm)
            },
        }
    }

    /// The value of register `index`, or `InvalidRegister`.
    pub fn register(&self, index: i32) -> (r: Result<i32, VmError>)
        ensures
            r == if valid_register(index) {
                Ok::<i32, VmError>(self@.reg(index))
            } else {
                Err::<i32, VmError>(VmError::InvalidRegister { index })
            },
    {
        self.registers.get(index)
    }

    /// Stores `value` in register `index`; where there is no such register,
    /// changes nothing and returns `InvalidRegister`.
    pub fn set_register(&mut self, index: i32, value: i32) -> (r: Result<(), VmError>)
        ensures
            valid_register(index) ==> r == Ok::<(), VmError>(()) && final(self)@ == old(
                self,
            )@.with_reg(index, value),
            !valid_register(index) ==> r == Err::<(), VmError>(VmError::InvalidRegister { index })
                && final(self)@ == old(self)@,
    {
        self.registers.set(index, value)
    }

    /// The byte of memory at `address`, or `OutOfBounds`.
    pub fn peek(&self, address: i32) -> (r: Result<u8, VmError>)
        requires
            self.wf(),
        ensures
            r == if in_bounds(address, 1) {
                Ok::<u8, VmError>(self@.mem[address as int])
            } else {
                Err::<u8, VmError>(VmError::OutOfBounds { address })
            },
    {
        self.memory.read_byte(address)
    }

    /// Executes one decoded instruction on the operand words of its record,
    /// `record[1]` and `record[2]`. On success the machine is in the state
    /// that `execute_spec` gives and the signal is returned; on an error the
    /// machine is unchanged.
    pub fn execute(&mut self, instruction: Instruction, record: &[i32; 3]) -> (r: Result<
        Signal,
        VmError,
    >)
        requires
            old(self).wf(),
        ensures
            final(self).wf(),
            match execute_spec(old(self)@, instruction, record@[1], record@[2]) {
                Ok((t, signal)) => r == Ok::<Signal, VmError>(signal) && final(self)@ == t,
                Err(e) => r == Err::<Signal, VmError>(e) && final(self)@ == old(self)@,
            },
    {
        let a: i32 = record[1];
        let b: i32 = record[2];
        proof {
            self.registers.lemma_len();
        }
        match instruction {
            Instruction::Add
            | Instruction::And
            | Instruction::Compare
            | Instruction::Divide
            | Instruction::Move
            | Instruction::Multiply
            | Instruction::Or
            | Instruction::Subtract => {
                let x: i32 = self.registers.get(a)?;
                let y: i32 = self.registers.get(b)?;
                let value: i32 = match instruction {
                    Instruction::Add => add32(x, y),
                    Instruction::Subtract => sub32(x, y),
                    Instruction::Multiply => mul32(x, y),
                    Instruction::Divide => {
                        if y == 0 {
                            return Err(VmError::DivisionByZero { register: b });
                        }
                        div32(x, y)
                    },
                    Instruction::And => if x != 0 && y != 0 {
                        1
                    } else {
                        0
                    },
                    Instruction::Or => if x != 0 || y != 0 {
                        1
                    } else {
                        0
                    },
                    Instruction::Compare => sign32(x, y),
                    _ => y,
                };
                let _ = self.registers.set(a, value);
                Ok(Signal::Advance)
            },
            Instruction::CompareZeroJump
            | Instruction::GreaterThanZeroJump
            | Instruction::LessThanZeroJump
            | Instruction::NonZeroJump => {
                let v: i32 = self.registers.get(a)?;
                let taken: bool = match instruction {
                    Instruction::CompareZeroJump => v == 0,
                    Instruction::GreaterThanZeroJump => v > 0,
                    Instruction::LessThanZeroJump => v < 0,
                    _ => v != 0,
                };
                if taken {
                    let _ = self.registers.set(PC, sub32(b, 12));
                    Ok(Signal::Jumped)
                } else {
                    Ok(Signal::Advance)
                }
            },
            Instruction::LoadByte => {
                let _ = self.registers.get(a)?;
                let value: u8 = self.memory.read_byte(b)?;
                let _ = self.registers.set(a, value as i32);
                Ok(Signal::Advance)
            },
            Instruction::LoadWord => {
                let _ = self.registers.get(a)?;
                let value: u16 = self.memory.read_word(b)?;
                let _ = self.registers.set(a, value as i32);
                Ok(Signal::Advance)
            },
            Instruction::StoreByte => {
                let v: i32 = self.registers.get(a)?;
                self.memory.write_byte(b, low8(v))?;
                Ok(Signal::Advance)
            },
            Instruction::StoreWord => {
                let v: i32 = self.registers.get(a)?;
                self.memory.write_word(b, low16(v))?;
                Ok(Signal::Advance)
            },
            Instruction::AddImmediate => {
                let x: i32 = self.registers.get(a)?;
                let _ = self.registers.set(a, add32(x, b));
                Ok(Signal::Advance)
            },
            Instruction::LoadAddress => {
                self.registers.set(a, b)?;
                Ok(Signal::Advance)
            },
            Instruction::Jump => {
                let _ = self.registers.set(PC, sub32(a, 12));
                Ok(Signal::Jumped)
            },
            Instruction::JumpRelative => {
                let target: i32 = self.registers.get(a)?;
                let _ = self.registers.set(PC, sub32(target, 12));
                Ok(Signal::Jumped)
            },
            Instruction::ConvertASCIIToInteger => {
                let code: i32 = self.registers.io();
                let _ = self.registers.set(IO, code_to_digit(code));
                Ok(Signal::Advance)
            },
            Instruction::ConvertIntegerToASCII => {
                let value: i32 = self.registers.io();
                let _ = self.registers.set(IO, digit_to_code(value));
                Ok(Signal::Advance)
            },
            Instruction::InputASCII => Ok(Signal::ReadChar),
            Instruction::InputInteger => Ok(Signal::ReadInteger),
            Instruction::OutputASCII => Ok(Signal::PrintChar(low8(self.registers.io()))),
            Instruction::OutputInteger => Ok(Signal::PrintInteger(self.registers.io())),
            Instruction::End => Ok(Signal::Halt),
        }
    }

    /// One turn of the loop, as `step_spec` gives it. On an error the machine
    /// is unchanged.
    pub fn step(&mut self) -> (r: Result<Signal, VmError>)
        requires
            old(self).wf(),
        ensures
            final(self).wf(),
            match step_spec(old(self)@) {
                Ok((t, signal)) => r == Ok::<Signal, VmError>(signal) && final(self)@ == t,
                Err(e) => r == Err::<Signal, VmError>(e) && final(self)@ == old(self)@,
            },
    {
        proof {
            reveal(step_spec);
            self.registers.lemma_len();
        }
        let pc: i32 = self.registers.pc();
        let record: [i32; 3] = self.memory.read_instruction(pc)?;
        let instruction = match Instruction::decode(record[0]) {
            Some(instruction) => instruction,
            None => {
                return Err(VmError::UnknownOpcode { opcode: record[0], address: pc });
            },
        };
        let signal = self.execute(instruction, &record)?;
        match signal {
            Signal::Halt => {},
            _ => {
                proof {
                    self.registers.lemma_len();
                }
                let next: i32 = add32(self.registers.pc(), 12);
                let _ = self.registers.set(PC, next);
            },
        }
        Ok(signal)
    }

    /// Goes on from the present state for at most `max_steps` turns of the
    /// loop, as `run_spec` gives it, and returns why it stopped: `Halt`, a
    /// signal that asks for output or input, an error, or `Advance` where the
    /// steps are used up and the program has not ended.
    pub fn resume(&mut self, max_steps: u64) -> (r: Result<Signal, VmError>)
        requires
            old(self).wf(),
        ensures
            final(self).wf(),
            (final(self)@, r) == run_spec(old(self)@, max_steps as nat),
    {
        let ghost start = self@;
        let mut left: u64 = max_steps;
        while left > 0
            invariant
                self.wf(),
                start == old(self)@,
                run_spec(self@, left as nat) == run_spec(start, max_steps as nat),
            decreases left,
        {
            match self.step() {
                Err(e) => {
                    return Err(e);
                },
                Ok(signal) => match signal {
                    Signal::Advance | Signal::Jumped => {
                        left -= 1;
                    },
                    _ => {
                        return Ok(signal);
                    },
                },
            }
        }
        Ok(Signal::Advance)
    }

    /// Sets the program counter to `start_address` and runs from there for at
    /// most `max_steps` turns of the loop. Where no whole record lies at that
    /// address, the first fetch fails with `OutOfBounds`, as any later one
    /// would. Only an address too large for the program counter to hold is
    /// refused with `BadStartAddress`, before anything changes.
    pub fn run(&mut self, start_address: usize, max_steps: u64) -> (r: Result<Signal, VmError>)
        requires
            old(self).wf(),
        ensures
            final(self).wf(),
            start_address > i32::MAX ==> r == Err::<Signal, VmError>(
                VmError::BadStartAddress { start: start_address },
            ) && final(self)@ == old(self)@,
            start_address <= i32::MAX ==> (final(self)@, r) == run_spec(
                old(self)@.with_reg(PC, start_address as i32),
                max_steps as nat,
            ),
    {
        if start_address > 0x7fff_ffff {
            return Err(VmError::BadStartAddress { start: start_address });
        }
        proof {
            self.registers.lemma_len();
        }
        let _ = self.registers.set(PC, start_address as i32);
        self.resume(max_steps)
    }

    /// Delivers the number that was read for a `ReadInteger` signal, or a
    /// character's code for a `ReadChar` signal: it goes to the input/output
    /// register, and nothing else changes.
    pub fn deliver(&mut self, value: i32)
        ensures
            final(self)@ == old(self)@.with_reg(IO, value),
    {
        let _ = self.registers.set(IO, value);
    }
}

} // verus!
