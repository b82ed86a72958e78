use vstd::prelude::*;
use vstd::slice::slice_subrange;
use byteorder::{ByteOrder, LittleEndian};
use crate::error::VmError;

verus! {

/// The size of the memory in bytes. It never changes.
pub const CAPACITY: usize = 10_000_000;

/// The 16-bit value whose little-endian form is `b0 b1`.
pub open spec fn word_of(b0: u8, b1: u8) -> u16 {
    (b0 as int + 256 * (b1 as int)) as u16
}

/// The signed 32-bit value whose little-endian two's-complement form is
/// `b0 b1 b2 b3`.
pub open spec fn long_of(b0: u8, b1: u8, b2: u8, b3: u8) -> i32 {
    let unsigned = b0 as int + 0x100 * (b1 as int) + 0x1_0000 * (b2 as int) + 0x100_0000 * (
    b3 as int);
    if unsigned >= 0x8000_0000 {
        (unsigned - 0x1_0000_0000) as i32
    } else {
        unsigned as i32
    }
}

/// The low byte of a 16-bit value.
pub open spec fn low_byte(value: u16) -> u8 {
    (value as int % 256) as u8
}

/// The high byte of a 16-bit value.
pub open spec fn high_byte(value: u16) -> u8 {
    (value as int / 256) as u8
}

/// Whether the `width` bytes from `address` on lie inside the memory.
pub open spec fn in_bounds(address: i32, width: int) -> bool {
    0 <= address && address + width <= CAPACITY
}

/// What the memory holds once `code` is loaded: the program at the low end,
/// zero everywhere above it.
pub open spec fn loaded(code: Seq<u8>) -> Seq<u8> {
    Seq::new(
        CAPACITY as nat,
        |i: int|
            if i < code.len() {
                code[i]
            } else {
                0u8
            },
    )
}

/// The three words of the record that starts at `address` in `bytes`.
pub open spec fn record_at(bytes: Seq<u8>, address: int) -> (i32, i32, i32) {
    (
        long_of(bytes[address], bytes[address + 1], bytes[address + 2], bytes[address + 3]),
        long_of(bytes[address + 4], bytes[address + 5], bytes[address + 6], bytes[address + 7]),
        long_of(bytes[address + 8], bytes[address + 9], bytes[address + 10], bytes[address + 11]),
    )
}

/// `bytes` with the 16-bit `value` stored little-endian at `address`.
pub open spec fn with_word(bytes: Seq<u8>, address: int, value: u16) -> Seq<u8> {
    bytes.update(address, low_byte(value)).update(address + 1, high_byte(value))
}

/// Reads a 16-bit value with `byteorder::LittleEndian::read_u16`, which
/// takes the first two bytes of the slice as a little-endian number and
/// panics on a slice shorter than two bytes.
#[verifier::external_body]
fn le_read_u16(buf: &[u8]) -> (r: u16)
    requires
        buf@.len() >= 2,
    ensures
        r == word_of(buf@[0], buf@[1]),
{
    LittleEndian::read_u16(buf)
}

/// Reads a signed 32-bit value with `byteorder::LittleEndian::read_i32`,
/// which takes the first four bytes of the slice as a little-endian
/// two's-complement number and panics on a slice shorter than four bytes.
#[verifier::external_body]
fn le_read_i32(buf: &[u8]) -> (r: i32)
    requires
        buf@.len() >= 4,
    ensures
        r == long_of(buf@[0], buf@[1], buf@[2], buf@[3]),
{
    LittleEndian::read_i32(buf)
}

/// Stores a 16-bit value with `byteorder::LittleEndian::write_u16`, which
/// overwrites the first two bytes of the slice it is given, low byte first,
/// and panics on a slice shorter than two bytes. The slice handed to it
/// starts at `at`, so the bytes at `at` and `at + 1` change and no others.
#[verifier::external_body]
fn le_write_u16(bytes: &mut Vec<u8>, at: usize, value: u16)
    requires
        at + 2 <= old(bytes)@.len(),
    ensures
        final(bytes)@ == with_word(old(bytes)@, at as int, value),
{
    LittleEndian::write_u16(&mut bytes[at..], value)
}

/// The machine's memory: a byte buffer of fixed size that holds both the
/// program and its data.
pub struct Memory {
    bytes: Vec<u8>,
}

impl View for Memory {
    type V = Seq<u8>;

    closed spec fn view(&self) -> Seq<u8> {
        self.bytes@
    }
}

impl Memory {
    /// The memory has its full, fixed size.
    pub open spec fn wf(&self) -> bool {
        self@.len() == CAPACITY
    }

    /// Builds the memory and loads `code` at address 0. A program longer than
    /// the memory is refused with `ProgramTooLarge`.
    pub fn new(code: &Vec<u8>) -> (r: Result<Memory, VmError>)
        ensures
            code@.len() <= CAPACITY ==> r is Ok && r->Ok_0.wf() && r->Ok_0@ == loaded(code@),
            code@.len() > CAPACITY ==> r is Err && r->Err_0 == (VmError::ProgramTooLarge {
                length: code.len(),
            }),
    {
        let n: usize = code.len();
        if n > CAPACITY {
            return Err(VmError::ProgramTooLarge { length: n });
        }
        let mut bytes: Vec<u8> = vec![0u8; CAPACITY];
        let mut i: usize = 0;
        while i < n
            invariant
                n == code@.len(),
                n <= CAPACITY,
                i <= n,
                bytes@.len() == CAPACITY,
                forall|j: int| 0 <= j < i ==> bytes@[j] == code@[j],
                forall|j: int| i <= j < CAPACITY ==> bytes@[j] == 0u8,
            decreases n - i,
        {
            bytes.set(i, code[i]);
            i += 1;
        }
        assert(bytes@ =~= loaded(code@));
        Ok(Memory { bytes })
    }

    /// The byte at `address`, or `OutOfBounds`.
    pub fn read_byte(&self, address: i32) -> (r: Result<u8, VmError>)
        requires
            self.wf(),
        ensures
            r == if in_bounds(address, 1) {
                Ok::<u8, VmError>(self@[address as int])
            } else {
                Err::<u8, VmError>(VmError::OutOfBounds { address })
            },
    {
        if address < 0 || address as usize >= CAPACITY {
            return Err(VmError::OutOfBounds { address });
        }
        Ok(self.bytes[address as usize])
    }

    /// The 16-bit little-endian value at `address`, or `OutOfBounds` unless
    /// both of its bytes lie inside the memory.
    pub fn read_word(&self, address: i32) -> (r: Result<u16, VmError>)
        requires
            self.wf(),
        ensures
            r == if in_bounds(address, 2) {
                Ok::<u16, VmError>(word_of(self@[address as int], self@[address + 1]))
            } else {
                Err::<u16, VmError>(VmError::OutOfBounds { address })
            },
    {
        if address < 0 || address as usize > CAPACITY - 2 {
            return Err(VmError::OutOfBounds { address });
        }
        let at: usize = address as usize;
        let window = slice_subrange(self.bytes.as_slice(), at, at + 2);
        Ok(le_read_u16(window))
    }

    /// The instruction record at `address`: three signed 32-bit
    /// little-endian words, opcode first. `OutOfBounds` unless all twelve
    /// bytes lie inside the memory.
    pub fn read_instruction(&self, address: i32) -> (r: Result<[i32; 3], VmError>)
        requires
            self.wf(),
        ensures
            in_bounds(address, 12) ==> r is Ok && (r->Ok_0@[0], r->Ok_0@[1], r->Ok_0@[2])
                == record_at(self@, address as int),
            !in_bounds(address, 12) ==> r == Err::<[i32; 3], VmError>(
                VmError::OutOfBounds { address },
            ),
    {
        if address < 0 || address as usize > CAPACITY - 12 {
            return Err(VmError::OutOfBounds { address });
        }
        let at: usize = address as usize;
        let all = self.bytes.as_slice();
        let opcode: i32 = le_read_i32(slice_subrange(all, at, at + 4));
        let first: i32 = le_read_i32(slice_subrange(all, at + 4, at + 8));
        let second: i32 = le_read_i32(slice_subrange(all, at + 8, at + 12));
        Ok([opcode, first, second])
    }

    /// Stores one byte at `address` and leaves every other byte as it was;
    /// out of bounds, changes nothing and returns `OutOfBounds`.
    pub fn write_byte(&mut self, address: i32, value: u8) -> (r: Result<(), VmError>)
        requires
            old(self).wf(),
        ensures
            final(self).wf(),
            in_bounds(address, 1) ==> r == Ok::<(), VmError>(()) && final(self)@ == old(
                self,
            )@.update(address as int, value),
            !in_bounds(address, 1) ==> r == Err::<(), VmError>(VmError::OutOfBounds { address })
                && final(self)@ == old(self)@,
    {
        if address < 0 || address as usize >= CAPACITY {
            return Err(VmError::OutOfBounds { address });
        }
        self.bytes.set(address as usize, value);
        Ok(())
    }

    /// Stores a 16-bit value little-endian at `address` and `address + 1` and
    /// leaves every other byte as it was; unless both bytes lie inside the
    /// memory, changes nothing and returns `OutOfBounds`.
    pub fn write_word(&mut self, address: i32, value: u16) -> (r: Result<(), VmError>)
        requires
            old(self).wf(),
        ensures
            final(self).wf(),
            in_bounds(address, 2) ==> r == Ok::<(), VmError>(()) && final(self)@ == with_word(
                old(self)@,
                address as int,
                value,
            ),
            !in_bounds(address, 2) ==> r == Err::<(), VmError>(VmError::OutOfBounds { address })
                && final(self)@ == old(self)@,
    {
        if address < 0 || address as usize > CAPACITY - 2 {
            return Err(VmError::OutOfBounds { address });
        }
        le_write_u16(&mut self.bytes, address as usize, value);
        Ok(())
    }
}

} // verus!
