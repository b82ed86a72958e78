use vstd::prelude::*;

verus! {

/// The signed 32-bit value that agrees with `x` in its low 32 bits: what
/// two's-complement arithmetic keeps of a result that does not fit.
pub open spec fn wrap32(x: int) -> i32 {
    if (x % 0x1_0000_0000) > 0x7fff_ffff {
        ((x % 0x1_0000_0000) - 0x1_0000_0000) as i32
    } else {
        (x % 0x1_0000_0000) as i32
    }
}

/// The quotient of `x` by `d` rounded towards zero, as an integer.
pub open spec fn quotient(x: int, d: int) -> int
    recommends
        d != 0,
{
    if x >= 0 && d > 0 {
        x / d
    } else if x < 0 && d < 0 {
        (-x) / (-d)
    } else if x < 0 {
        -((-x) / d)
    } else {
        -(x / (-d))
    }
}

/// The sign of `a - b`: -1, 0 or 1.
pub open spec fn sign_of_difference(a: i32, b: i32) -> i32 {
    if a < b {
        -1i32
    } else if a > b {
        1i32
    } else {
        0i32
    }
}

/// 1 where both values are non-zero, else 0.
pub open spec fn both_set(a: i32, b: i32) -> i32 {
    if a != 0 && b != 0 {
        1i32
    } else {
        0i32
    }
}

/// 1 where at least one value is non-zero, else 0.
pub open spec fn either_set(a: i32, b: i32) -> i32 {
    if a != 0 || b != 0 {
        1i32
    } else {
        0i32
    }
}

/// The digit that a character code stands for, or -1 where the code is not
/// that of a decimal digit.
pub open spec fn digit_of_code(code: i32) -> i32 {
    if 48 <= code <= 57 {
        (code - 48) as i32
    } else {
        -1i32
    }
}

/// The character code of a digit, or the code of `'0'` where the value is
/// not a digit.
pub open spec fn code_of_digit(value: i32) -> i32 {
    if 0 <= value <= 9 {
        (value + 48) as i32
    } else {
        48i32
    }
}

/// The low eight bits of a value, as a byte.
pub open spec fn low8_of(value: i32) -> u8 {
    (value as int % 256) as u8
}

/// The low sixteen bits of a value, as an unsigned 16-bit number.
pub open spec fn low16_of(value: i32) -> u16 {
    (value as int % 65536) as u16
}

/// A value is left as it is by `wrap32` exactly when it fits.
pub proof fn lemma_wrap32_fits(x: int)
    requires
        -0x8000_0000 <= x <= 0x7fff_ffff,
    ensures
        wrap32(x) == x,
{
}

/// What `wrap32` gives for a value at most one full turn outside the range.
pub proof fn lemma_wrap32_near(x: int)
    requires
        -0x1_8000_0000 <= x <= 0x1_7fff_ffff,
    ensures
        wrap32(x) == if x > 0x7fff_ffff {
            x - 0x1_0000_0000
        } else if x < -0x8000_0000 {
            x + 0x1_0000_0000
        } else {
            x
        },
{
}

/// Subtracting in two's complement what was added in two's complement
/// gives the first value back.
pub proof fn lemma_add_sub_cancel(x: i32, y: i32)
    ensures
        wrap32(wrap32(x + y) - y) == x,
        wrap32(wrap32(x - y) + y) == x,
{
    lemma_wrap32_near(x + y);
    lemma_wrap32_near(wrap32(x + y) - y);
    lemma_wrap32_near(x - y);
    lemma_wrap32_near(wrap32(x - y) + y);
}

/// A quotient of a natural number lies between zero and the dividend, and
/// at most at half of it once the divisor is two or more.
proof fn lemma_quotient_bounds(x: int, d: int)
    requires
        x >= 0,
        d > 0,
    ensures
        0 <= x / d <= x,
        d == 1 ==> x / d == x,
        d >= 2 ==> 2 * (x / d) <= x,
{
    assert(0 <= x / d <= x && (d == 1 ==> x / d == x) && (d >= 2 ==> 2 * (x / d) <= x))
        by (nonlinear_arith)
        requires
            x >= 0,
            d > 0,
    ;
}

/// Sum in two's complement.
pub fn add32(a: i32, b: i32) -> (r: i32)
    ensures
        r == wrap32(a + b),
{
    a.wrapping_add(b)
}

/// Difference in two's complement.
pub fn sub32(a: i32, b: i32) -> (r: i32)
    ensures
        r == wrap32(a - b),
{
    a.wrapping_sub(b)
}

/// Product in two's complement.
pub fn mul32(a: i32, b: i32) -> (r: i32)
    ensures
        r == wrap32(a * b),
{
    a.wrapping_mul(b)
}

/// Quotient rounded towards zero, in two's complement: the one quotient
/// that does not fit, that of the least value by -1, comes out as the least
/// value again.
pub fn div32(a: i32, b: i32) -> (r: i32)
    requires
        b != 0,
    ensures
        r == wrap32(quotient(a as int, b as int)),
{
    proof {
        let x = a as int;
        let d = b as int;
        if x >= 0 && d > 0 {
            lemma_quotient_bounds(x, d);
        } else if x < 0 && d < 0 {
            lemma_quotient_bounds(-x, -d);
        } else if x < 0 {
            lemma_quotient_bounds(-x, d);
        } else {
            lemma_quotient_bounds(x, -d);
        }
    }
    match a.checked_div(b) {
        Some(q) => q,
        None => i32::MIN,
    }
}

/// A value cut down to its low eight bits.
pub fn low8(value: i32) -> (r: u8)
    ensures
        r == low8_of(value),
{
    match value.checked_rem_euclid(256) {
        Some(m) => m as u8,
        None => 0,
    }
}

/// A value cut down to its low sixteen bits.
pub fn low16(value: i32) -> (r: u16)
    ensures
        r == low16_of(value),
{
    match value.checked_rem_euclid(65536) {
        Some(m) => m as u16,
        None => 0,
    }
}

/// The sign of `a - b`.
pub fn sign32(a: i32, b: i32) -> (r: i32)
    ensures
        r == sign_of_difference(a, b),
{
    if a < b {
        -1
    } else if a > b {
        1
    } else {
        0
    }
}

/// Digit of a character code, -1 for any other code.
pub fn code_to_digit(code: i32) -> (r: i32)
    ensures
        r == digit_of_code(code),
{
    if 48 <= code && code <= 57 {
        code - 48
    } else {
        -1
    }
}

/// Character code of a digit, that of `'0'` for any other value.
pub fn digit_to_code(value: i32) -> (r: i32)
    ensures
        r == code_of_digit(value),
{
    if 0 <= value && value <= 9 {
        value + 48
    } else {
        48
    }
}

} // verus!
