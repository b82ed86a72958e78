use vstd::prelude::*;

verus! {

/// The instructions of the machine, in the order of their opcodes: `Add` is
/// opcode 0 and `End` is opcode 26.
#[derive(Clone, Copy, Debug, PartialEq, Eq, Structural)]
pub enum Instruction {
    Add,
    AddImmediate,
    And,
    Compare,
    CompareZeroJump,
    ConvertASCIIToInteger,
    ConvertIntegerToASCII,
    Divide,
    GreaterThanZeroJump,
    InputASCII,
    InputInteger,
    Jump,
    JumpRelative,
    LessThanZeroJump,
    LoadAddress,
    LoadByte,
    LoadWord,
    Move,
    Multiply,
    NonZeroJump,
    Or,
    OutputASCII,
    OutputInteger,
    StoreByte,
    StoreWord,
    Subtract,
    End,
}

/// The opcode that stands for an instruction in a record.
pub open spec fn opcode_of(instruction: Instruction) -> i32 {
    match instruction {
        Instruction::Add => 0,
        Instruction::AddImmediate => 1,
        Instruction::And => 2,
        Instruction::Compare => 3,
        Instruction::CompareZeroJump => 4,
        Instruction::ConvertASCIIToInteger => 5,
        Instruction::ConvertIntegerToASCII => 6,
        Instruction::Divide => 7,
        Instruction::GreaterThanZeroJump => 8,
        Instruction::InputASCII => 9,
        Instruction::InputInteger => 10,
        Instruction::Jump => 11,
        Instruction::JumpRelative => 12,
        Instruction::LessThanZeroJump => 13,
        Instruction::LoadAddress => 14,
        Instruction::LoadByte => 15,
        Instruction::LoadWord => 16,
        Instruction::Move => 17,
        Instruction::Multiply => 18,
        Instruction::NonZeroJump => 19,
        Instruction::Or => 20,
        Instruction::OutputASCII => 21,
        Instruction::OutputInteger => 22,
        Instruction::StoreByte => 23,
        Instruction::StoreWord => 24,
        Instruction::Subtract => 25,
        Instruction::End => 26,
    }
}

/// The instruction that an opcode stands for, if any: the one whose opcode
/// it is.
pub open spec fn decode_spec(opcode: i32) -> Option<Instruction> {
    if exists|i: Instruction| opcode_of(i) == opcode {
        Some(choose|i: Instruction| opcode_of(i) == opcode)
    } else {
        None
    }
}

/// Every instruction is what its own opcode decodes to.
pub proof fn lemma_decode_opcode(instruction: Instruction)
    ensures
        decode_spec(opcode_of(instruction)) == Some(instruction),
{
    let opcode = opcode_of(instruction);
    assert forall|j: Instruction| opcode_of(j) == opcode implies j == instruction by {}
}

impl Instruction {
    /// The opcode of this instruction.
    pub fn opcode(self) -> (r: i32)
        ensures
            r == opcode_of(self),
            0 <= r <= 26,
    {
        match self {
            Instruction::Add => 0,
            Instruction::AddImmediate => 1,
            Instruction::And => 2,
            Instruction::Compare => 3,
            Instruction::CompareZeroJump => 4,
            Instruction::ConvertASCIIToInteger => 5,
            Instruction::ConvertIntegerToASCII => 6,
            Instruction::Divide => 7,
            Instruction::GreaterThanZeroJump => 8,
            Instruction::InputASCII => 9,
            Instruction::InputInteger => 10,
            Instruction::Jump => 11,
            Instruction::JumpRelative => 12,
            Instruction::LessThanZeroJump => 13,
            Instruction::LoadAddress => 14,
            Instruction::LoadByte => 15,
            Instruction::LoadWord => 16,
            Instruction::Move => 17,
            Instruction::Multiply => 18,
            Instruction::NonZeroJump => 19,
            Instruction::Or => 20,
            Instruction::OutputASCII => 21,
            Instruction::OutputInteger => 22,
            Instruction::StoreByte => 23,
            Instruction::StoreWord => 24,
            Instruction::Subtract => 25,
            Instruction::End => 26,
        }
    }

    /// Decodes an opcode: `Some` of the instruction with that opcode for the
    /// opcodes 0 to 26, `None` for every other word.
    pub fn decode(opcode: i32) -> (r: Option<Instruction>)
        ensures
            r == decode_spec(opcode),
            r matches Some(i) ==> opcode_of(i) == opcode,
            r is Some <==> 0 <= opcode <= 26,
    {
        let r = match opcode {
            0 => Some(Instruction::Add),
            1 => Some(Instruction::AddImmediate),
            2 => Some(Instruction::And),
            3 => Some(Instruction::Compare),
            4 => Some(Instruction::CompareZeroJump),
            5 => Some(Instruction::ConvertASCIIToInteger),
            6 => Some(Instruction::ConvertIntegerToASCII),
            7 => Some(Instruction::Divide),
            8 => Some(Instruction::GreaterThanZeroJump),
            9 => Some(Instruction::InputASCII),
            10 => Some(Instruction::InputInteger),
            11 => Some(Instruction::Jump),
            12 => Some(Instruction::JumpRelative),
            13 => Some(Instruction::LessThanZeroJump),
            14 => Some(Instruction::LoadAddress),
            15 => Some(Instruction::LoadByte),
            16 => Some(Instruction::LoadWord),
            17 => Some(Instruction::Move),
            18 => Some(Instruction::Multiply),
            19 => Some(Instruction::NonZeroJump),
            20 => Some(Instruction::Or),
            21 => Some(Instruction::OutputASCII),
            22 => Some(Instruction::OutputInteger),
            23 => Some(Instruction::StoreByte),
            24 => Some(Instruction::StoreWord),
            25 => Some(Instruction::Subtract),
            26 => Some(Instruction::End),
            _ => None,
        };
        proof {
            match r {
                Some(i) => {
                    assert(opcode_of(i) == opcode);
                    assert forall|j: Instruction| opcode_of(j) == opcode implies j == i by {}
                },
                None => {
                    assert forall|j: Instruction| opcode_of(j) != opcode by {}
                },
            }
        }
        r
    }
}

} // verus!
