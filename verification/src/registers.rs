use vstd::prelude::*;
use crate::error::VmError;

verus! {

/// How many registers the machine has.
pub const REGISTER_COUNT: i32 = 13;

/// Index of the register through which the input and output instructions pass
/// their values.
pub const IO: i32 = 0;

/// Index of the program counter.
pub const PC: i32 = 12;

/// Whether an operand word names a register.
pub open spec fn valid_register(index: i32) -> bool {
    0 <= index < REGISTER_COUNT
}

/// The register file: thirteen signed 32-bit slots, addressed by the index
/// that an instruction's operand word holds.
pub struct Registers {
    slots: [i32; 13],
}

impl View for Registers {
    type V = Seq<i32>;

    closed spec fn view(&self) -> Seq<i32> {
        self.slots@
    }
}

impl Registers {
    /// A register file with every slot at zero.
    pub fn new() -> (r: Registers)
        ensures
            r@ =~= Seq::new(13, |i: int| 0i32),
    {
        Registers { slots: [0i32; 13] }
    }

    /// The file always has thirteen slots.
    pub proof fn lemma_len(&self)
        ensures
            self@.len() == 13,
    {
    }

    /// The value of register `index`, or `InvalidRegister` where there is no
    /// such register.
    pub fn get(&self, index: i32) -> (r: Result<i32, VmError>)
        ensures
            r == if valid_register(index) {
                Ok::<i32, VmError>(self@[index as int])
            } else {
                Err::<i32, VmError>(VmError::InvalidRegister { index })
            },
    {
        if 0 <= index && index < REGISTER_COUNT {
            Ok(self.slots[index as usize])
        } else {
            Err(VmError::InvalidRegister { index })
        }
    }

    /// Stores `value` in register `index` and leaves the others as they were;
    /// where there is no such register, changes nothing and returns
    /// `InvalidRegister`.
    pub fn set(&mut self, index: i32, value: i32) -> (r: Result<(), VmError>)
        ensures
            valid_register(index) ==> r == Ok::<(), VmError>(()) && final(self)@ == old(self)@.update(
                index as int,
                value,
            ),
            !valid_register(index) ==> r == Err::<(), VmError>(VmError::InvalidRegister { index })
                && final(self)@ == old(self)@,
    {
        if 0 <= index && index < REGISTER_COUNT {
            self.slots[index as usize] = value;
            Ok(())
        } else {
            Err(VmError::InvalidRegister { index })
        }
    }

    /// The program counter.
    pub fn pc(&self) -> (r: i32)
        ensures
            r == self@[PC as int],
    {
        self.slots[12]
    }

    /// The input/output register.
    pub fn io(&self) -> (r: i32)
        ensures
            r == self@[IO as int],
    {
        self.slots[0]
    }
}

} // verus!
