use bytecode_vm::arith::{
    add32, code_to_digit, digit_to_code, div32, low16, low8, mul32, sign32, sub32,
};
use bytecode_vm::error::VmError;
use bytecode_vm::memory::{Memory, CAPACITY};
use bytecode_vm::registers::{Registers, IO, PC, REGISTER_COUNT};

fn memory_with(code: &[u8]) -> Memory {
    match Memory::new(&code.to_vec()) {
        Ok(memory) => memory,
        Err(e) => panic!("program refused: {:?}", e),
    }
}

#[test]
fn memory_loads_code_at_the_low_end() {
    let memory = memory_with(&[9, 8, 7]);
    assert_eq!(memory.read_byte(0), Ok(9));
    assert_eq!(memory.read_byte(1), Ok(8));
    assert_eq!(memory.read_byte(2), Ok(7));
    assert_eq!(memory.read_byte(3), Ok(0));
    assert_eq!(memory.read_byte(9_999_999), Ok(0));
    assert_eq!(CAPACITY, 10_000_000);
}

#[test]
fn memory_refuses_a_program_that_is_too_long() {
    let code = vec![1u8; CAPACITY + 1];
    assert_eq!(
        Memory::new(&code).err(),
        Some(VmError::ProgramTooLarge { length: CAPACITY + 1 })
    );
    let full = vec![1u8; CAPACITY];
    let memory = Memory::new(&full).ok().unwrap();
    assert_eq!(memory.read_byte(9_999_999), Ok(1));
}

#[test]
fn memory_reads_are_bounds_checked() {
    let memory = memory_with(&[]);
    assert_eq!(memory.read_byte(10_000_000), Err(VmError::OutOfBounds { address: 10_000_000 }));
    assert_eq!(memory.read_byte(-1), Err(VmError::OutOfBounds { address: -1 }));
    assert_eq!(memory.read_word(9_999_999), Err(VmError::OutOfBounds { address: 9_999_999 }));
    assert_eq!(memory.read_word(9_999_998), Ok(0));
    assert_eq!(memory.read_word(-2), Err(VmError::OutOfBounds { address: -2 }));
    assert_eq!(
        memory.read_instruction(9_999_989),
        Err(VmError::OutOfBounds { address: 9_999_989 })
    );
    assert_eq!(memory.read_instruction(9_999_988), Ok([0, 0, 0]));
    assert_eq!(memory.read_instruction(-4), Err(VmError::OutOfBounds { address: -4 }));
}

#[test]
fn memory_writes_are_bounds_checked() {
    let mut memory = memory_with(&[]);
    assert_eq!(
        memory.write_byte(10_000_000, 1),
        Err(VmError::OutOfBounds { address: 10_000_000 })
    );
    assert_eq!(memory.write_byte(-1, 1), Err(VmError::OutOfBounds { address: -1 }));
    assert_eq!(memory.write_word(9_999_999, 0xffff), Err(VmError::OutOfBounds { address: 9_999_999 }));
    assert_eq!(memory.read_byte(9_999_999), Ok(0));
    assert_eq!(memory.write_word(9_999_998, 0xabcd), Ok(()));
    assert_eq!(memory.read_byte(9_999_998), Ok(0xcd));
    assert_eq!(memory.read_byte(9_999_999), Ok(0xab));
    assert_eq!(memory.write_byte(0, 200), Ok(()));
    assert_eq!(memory.read_byte(0), Ok(200));
    assert_eq!(memory.read_byte(1), Ok(0));
}

#[test]
fn memory_words_and_records_are_little_endian() {
    let memory = memory_with(&[
        0x01, 0x00, 0x00, 0x00, 0xff, 0xff, 0xff, 0xff, 0x78, 0x56, 0x34, 0x12, 0x00, 0x00, 0x00,
        0x80,
    ]);
    assert_eq!(memory.read_instruction(0), Ok([1, -1, 0x12345678]));
    assert_eq!(memory.read_instruction(4), Ok([-1, 0x12345678, i32::MIN]));
    assert_eq!(memory.read_word(8), Ok(0x5678));
    assert_eq!(memory.read_word(9), Ok(0x3456));
    assert_eq!(memory.read_word(4), Ok(0xffff));
    assert_eq!(memory.read_word(3), Ok(0xff00));
}

#[test]
fn memory_word_write_touches_two_bytes_only() {
    let mut memory = memory_with(&[1, 2, 3, 4, 5]);
    assert_eq!(memory.write_word(1, 0xbeef), Ok(()));
    assert_eq!(memory.read_byte(0), Ok(1));
    assert_eq!(memory.read_byte(1), Ok(0xef));
    assert_eq!(memory.read_byte(2), Ok(0xbe));
    assert_eq!(memory.read_byte(3), Ok(4));
    assert_eq!(memory.read_byte(4), Ok(5));
    assert_eq!(memory.read_word(1), Ok(0xbeef));
}

#[test]
fn registers_get_and_set_by_index() {
    let mut registers = Registers::new();
    for i in 0..REGISTER_COUNT {
        assert_eq!(registers.get(i), Ok(0));
    }
    assert_eq!(registers.set(4, -17), Ok(()));
    assert_eq!(registers.get(4), Ok(-17));
    assert_eq!(registers.get(3), Ok(0));
    assert_eq!(registers.get(5), Ok(0));
    assert_eq!(registers.set(PC, 120), Ok(()));
    assert_eq!(registers.set(IO, 7), Ok(()));
    assert_eq!(registers.pc(), 120);
    assert_eq!(registers.io(), 7);
    assert_eq!(registers.get(12), Ok(120));
    assert_eq!(registers.get(0), Ok(7));
}

#[test]
fn registers_reject_bad_indices() {
    let mut registers = Registers::new();
    assert_eq!(registers.get(13), Err(VmError::InvalidRegister { index: 13 }));
    assert_eq!(registers.get(-1), Err(VmError::InvalidRegister { index: -1 }));
    assert_eq!(registers.set(13, 5), Err(VmError::InvalidRegister { index: 13 }));
    assert_eq!(registers.set(i32::MIN, 5), Err(VmError::InvalidRegister { index: i32::MIN }));
    for i in 0..13 {
        assert_eq!(registers.get(i), Ok(0));
    }
}

#[test]
fn two_complement_helpers_give_exact_values() {
    assert_eq!(add32(2, 3), 5);
    assert_eq!(add32(i32::MAX, 1), i32::MIN);
    assert_eq!(add32(i32::MIN, -1), i32::MAX);
    assert_eq!(sub32(2, 3), -1);
    assert_eq!(sub32(0, 12), -12);
    assert_eq!(sub32(i32::MIN, 12), i32::MAX - 11);
    assert_eq!(mul32(-4, 5), -20);
    assert_eq!(mul32(0x10000, 0x10000), 0);
    assert_eq!(mul32(i32::MIN, -1), i32::MIN);
    assert_eq!(div32(9, 2), 4);
    assert_eq!(div32(-9, 2), -4);
    assert_eq!(div32(9, -2), -4);
    assert_eq!(div32(-9, -2), 4);
    assert_eq!(div32(0, 5), 0);
    assert_eq!(div32(i32::MIN, -1), i32::MIN);
    assert_eq!(div32(i32::MIN, 1), i32::MIN);
    assert_eq!(sign32(1, 2), -1);
    assert_eq!(sign32(2, 1), 1);
    assert_eq!(sign32(2, 2), 0);
    assert_eq!(low8(0x1ff), 0xff);
    assert_eq!(low8(-1), 0xff);
    assert_eq!(low8(-256), 0);
    assert_eq!(low8(65), 65);
    assert_eq!(low16(0x12345), 0x2345);
    assert_eq!(low16(-1), 0xffff);
    assert_eq!(low16(i32::MIN), 0);
    assert_eq!(code_to_digit(53), 5);
    assert_eq!(code_to_digit(47), -1);
    assert_eq!(code_to_digit(58), -1);
    assert_eq!(digit_to_code(5), 53);
    assert_eq!(digit_to_code(10), 48);
    assert_eq!(digit_to_code(-1), 48);
}
