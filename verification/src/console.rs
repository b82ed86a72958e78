use vstd::prelude::*;
use vstd::string::StrSliceExecFns;
use crate::machine::VM;
use crate::registers::IO;

verus! {

/// A line of text without the white space at its two ends, as `str::trim`
/// gives it.
pub uninterp spec fn trimmed(line: Seq<char>) -> Seq<char>;

/// The signed 32-bit number that a text holds in decimal, as `str::parse`
/// reads it for `i32`; `None` where the text is no such number.
pub uninterp spec fn parsed_integer(text: Seq<char>) -> Option<i32>;

/// Calls `str::trim`, whose result depends on the text alone: the slice
/// without leading and trailing white space.
#[verifier::external_body]
fn trim_line(line: &str) -> (r: &str)
    ensures
        r@ == trimmed(line@),
{
    line.trim()
}

/// Calls `str::parse` for `i32`, whose result depends on the text alone,
/// and keeps the number where there is one.
#[verifier::external_body]
fn parse_integer(text: &str) -> (r: Option<i32>)
    ensures
        r == parsed_integer(text@),
{
    text.parse::<i32>().ok()
}

impl VM {
    /// Answers a `ReadChar` signal with a line of input: the code of the
    /// line's first character goes to the input/output register. An empty
    /// line changes nothing. Returns whether a character was taken.
    pub fn accept_char_line(&mut self, line: &str) -> (taken: bool)
        ensures
            taken == (line@.len() > 0),
            taken ==> final(self)@ == old(self)@.with_reg(IO, line@[0] as i32),
            !taken ==> final(self)@ == old(self)@,
    {
        if line.unicode_len() == 0 {
            false
        } else {
            let first: char = line.get_char(0);
            self.deliver(first as u32 as i32);
            true
        }
    }

    /// Answers a `ReadInteger` signal with what was read: a number goes to
    /// the input/output register, and `None` changes nothing. Returns whether
    /// a number was taken.
    pub fn accept_integer(&mut self, number: Option<i32>) -> (taken: bool)
        ensures
            taken == number is Some,
            number matches Some(n) ==> final(self)@ == old(self)@.with_reg(IO, n),
            number is None ==> final(self)@ == old(self)@,
    {
        match number {
            Some(n) => {
                self.deliver(n);
                true
            },
            None => false,
        }
    }

    /// Answers a `ReadInteger` signal with a line of input: the line is
    /// trimmed and read as a decimal number, which goes to the input/output
    /// register. A line that holds no such number changes nothing. Returns
    /// whether a number was taken.
    pub fn accept_integer_line(&mut self, line: &str) -> (taken: bool)
        ensures
            taken == parsed_integer(trimmed(line@)) is Some,
            parsed_integer(trimmed(line@)) matches Some(n) ==> final(self)@ == old(
                self,
            )@.with_reg(IO, n),
            !taken ==> final(self)@ == old(self)@,
    {
        let number = parse_integer(trim_line(line));
        self.accept_integer(number)
    }
}

} // verus!
