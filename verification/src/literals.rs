//! The literal decoder: character classes, digit-run accumulation in a
//! given radix, and conversions between unsigned magnitudes and signed
//! values.
use vstd::prelude::*;
use crate::error::{Error, SpecError};

verus! {

// ---------------------------------------------------------------------
// Character classes
// ---------------------------------------------------------------------
pub open spec fn is_ws(c: char) -> bool {
    c == ' ' || c == '\t' || c == '\r' || c == '\n'
}

pub fn ws(c: char) -> (r: bool)
    ensures
        r == is_ws(c),
{
    c == ' ' || c == '\t' || c == '\r' || c == '\n'
}

pub open spec fn is_digit(c: char) -> bool {
    48 <= c as u32 && c as u32 <= 57
}

pub fn digit(c: char) -> (r: bool)
    ensures
        r == is_digit(c),
{
    let v = c as u32;
    48 <= v && v <= 57
}

pub open spec fn is_oct_digit(c: char) -> bool {
    48 <= c as u32 && c as u32 <= 55
}

pub fn oct_digit(c: char) -> (r: bool)
    ensures
        r == is_oct_digit(c),
{
    let v = c as u32;
    48 <= v && v <= 55
}

pub open spec fn is_hex_digit(c: char) -> bool {
    is_digit(c) || (97 <= c as u32 && c as u32 <= 102) || (65 <= c as u32 && c as u32 <= 70)
}

pub fn hex_digit(c: char) -> (r: bool)
    ensures
        r == is_hex_digit(c),
{
    let v = c as u32;
    (48 <= v && v <= 57) || (97 <= v && v <= 102) || (65 <= v && v <= 70)
}

pub open spec fn is_ident_start(c: char) -> bool {
    (65 <= c as u32 && c as u32 <= 90) || (97 <= c as u32 && c as u32 <= 122) || c == '_'
}

pub fn ident_start(c: char) -> (r: bool)
    ensures
        r == is_ident_start(c),
{
    let v = c as u32;
    (65 <= v && v <= 90) || (97 <= v && v <= 122) || c == '_'
}

pub open spec fn is_ident_char(c: char) -> bool {
    is_ident_start(c) || is_digit(c)
}

pub fn ident_char(c: char) -> (r: bool)
    ensures
        r == is_ident_char(c),
{
    ident_start(c) || digit(c)
}

// ---------------------------------------------------------------------
// Digit values
// ---------------------------------------------------------------------
/// The value of an ASCII hexadecimal digit code (`'0'..'9'`,
/// `'a'..'f'`, `'A'..'F'`); zero for every other byte.
pub open spec fn spec_ascii_hex_to_int(value: u8) -> u8 {
    if 48 <= value && value <= 57 {
        (value - 48) as u8
    } else if 65 <= value && value <= 70 {
        (value - 55) as u8
    } else if 97 <= value && value <= 102 {
        (value - 87) as u8
    } else {
        0
    }
}

/// Decodes an ASCII hexadecimal digit code into its numeric value.
pub fn ascii_hex_to_int(value: u8) -> (r: u8)
    ensures
        r == spec_ascii_hex_to_int(value),
{
    if 48 <= value && value <= 57 {
        value - 48
    } else if 65 <= value && value <= 70 {
        value - 55
    } else if 97 <= value && value <= 102 {
        value - 87
    } else {
        0
    }
}

/// The value of a digit character in a radix of at most 16.
pub open spec fn digit_value(c: char) -> u64 {
    let v = c as u32;
    if 48 <= v && v <= 57 {
        (v - 48) as u64
    } else if 65 <= v && v <= 70 {
        (v - 55) as u64
    } else if 97 <= v && v <= 102 {
        (v - 87) as u64
    } else {
        0
    }
}

pub fn digit_value_of(c: char) -> (r: u64)
    ensures
        r == digit_value(c),
        r <= 15,
{
    let v = c as u32;
    if 48 <= v && v <= 57 {
        (v - 48) as u64
    } else if 65 <= v && v <= 70 {
        (v - 55) as u64
    } else if 97 <= v && v <= 102 {
        (v - 87) as u64
    } else {
        0
    }
}

/// Whether `c` is a digit of the given radix (8, 10 or 16).
pub open spec fn is_radix_digit(radix: u64, c: char) -> bool {
    if radix == 16 {
        is_hex_digit(c)
    } else if radix == 8 {
        is_oct_digit(c)
    } else {
        is_digit(c)
    }
}

pub fn radix_digit(radix: u64, c: char) -> (r: bool)
    ensures
        r == is_radix_digit(radix, c),
{
    if radix == 16 {
        hex_digit(c)
    } else if radix == 8 {
        oct_digit(c)
    } else {
        digit(c)
    }
}

// ---------------------------------------------------------------------
// Digit-run accumulation
// ---------------------------------------------------------------------
/// Accumulates the maximal run of digits of the given radix starting at
/// `i` onto `acc` (`acc * radix + digit`, left to right), stopping at
/// the first non-digit.  Fails when the value leaves the `u64` range.
pub open spec fn sp_scan_radix_run(s: Seq<char>, i: int, acc: u64, radix: u64) -> Result<
    (u64, int),
    SpecError,
>
    decreases s.len() - i,
{
    if i < 0 || i >= s.len() {
        Ok((acc, i))
    } else if is_radix_digit(radix, s[i]) {
        let d = digit_value(s[i]);
        if radix * acc + d > u64::MAX {
            Err(SpecError::NumericLiteralOverflow)
        } else {
            sp_scan_radix_run(s, i + 1, (radix * acc + d) as u64, radix)
        }
    } else {
        Ok((acc, i))
    }
}

/// Whether the scan result `r` is what the model `s` says, the numeric
/// payload being compared directly.
pub open spec fn num_scan_agrees(r: Result<(u64, usize), Error>, s: Result<(u64, int), SpecError>) -> bool {
    match (r, s) {
        (Ok((v, j)), Ok((sv, sj))) => v == sv && j as int == sj,
        (Err(e), Err(se)) => e@ == se,
        _ => false,
    }
}

pub fn scan_radix_run(cs: &Vec<char>, i: usize, acc: u64, radix: u64) -> (r: Result<
    (u64, usize),
    Error,
>)
    requires
        i <= cs@.len(),
        radix == 8 || radix == 10 || radix == 16,
    ensures
        num_scan_agrees(r, sp_scan_radix_run(cs@, i as int, acc, radix)),
        r matches Ok((v, j)) ==> i <= j <= cs@.len(),
        (i < cs@.len() && is_radix_digit(radix, cs@[i as int])) ==> (r matches Ok((v, j)) ==> j
            > i),
    decreases cs@.len() - i,
{
    if i >= cs.len() {
        return Ok((acc, i));
    }
    let c = cs[i];
    if radix_digit(radix, c) {
        let d = digit_value_of(c);
        proof {
            assert((radix as int) * (acc as int) <= 16 * (u64::MAX as int)) by (nonlinear_arith)
                requires
                    radix <= 16,
                    acc <= u64::MAX,
            ;
        }
        let wide: u128 = (radix as u128) * (acc as u128) + (d as u128);
        if wide > u64::MAX as u128 {
            Err(Error::NumericLiteralOverflow)
        } else {
            scan_radix_run(cs, i + 1, wide as u64, radix)
        }
    } else {
        Ok((acc, i))
    }
}

// ---------------------------------------------------------------------
// Signed conversion
// ---------------------------------------------------------------------
/// Applies a sign to an unsigned magnitude, failing when the result
/// leaves the `i64` range.
pub open spec fn sp_signed_of_magnitude(negative: bool, magnitude: u64) -> Result<
    i64,
    SpecError,
> {
    if !negative {
        if magnitude <= i64::MAX as u64 {
            Ok(magnitude as i64)
        } else {
            Err(SpecError::NumericLiteralOverflow)
        }
    } else {
        if magnitude <= i64::MAX as u64 {
            Ok((-(magnitude as i64)) as i64)
        } else if magnitude == (i64::MAX as u64) + 1 {
            Ok(i64::MIN)
        } else {
            Err(SpecError::NumericLiteralOverflow)
        }
    }
}

pub fn signed_of_magnitude(negative: bool, magnitude: u64) -> (r: Result<i64, Error>)
    ensures
        match (r, sp_signed_of_magnitude(negative, magnitude)) {
            (Ok(v), Ok(sv)) => v == sv,
            (Err(e), Err(se)) => e@ == se,
            _ => false,
        },
{
    if !negative {
        if magnitude <= i64::MAX as u64 {
            Ok(magnitude as i64)
        } else {
            Err(Error::NumericLiteralOverflow)
        }
    } else {
        if magnitude <= i64::MAX as u64 {
            Ok(-(magnitude as i64))
        } else if magnitude == (i64::MAX as u64) + 1 {
            Ok(i64::MIN)
        } else {
            Err(Error::NumericLiteralOverflow)
        }
    }
}

// ---------------------------------------------------------------------
// Materializing character ranges
// ---------------------------------------------------------------------
/// Copies the characters of `cs` between `lo` and `hi` into a fresh
/// string.
pub fn chars_to_string(cs: &Vec<char>, lo: usize, hi: usize) -> (r: String)
    requires
        lo <= hi <= cs@.len(),
    ensures
        r@ == cs@.subrange(lo as int, hi as int),
{
    let mut out = String::new();
    let mut i: usize = lo;
    while i < hi
        invariant
            lo <= i <= hi <= cs@.len(),
            out@ == cs@.subrange(lo as int, i as int),
        decreases hi - i,
    {
        crate::text::push_char(&mut out, cs[i]);
        i = i + 1;
        proof {
            assert(out@ =~= cs@.subrange(lo as int, i as int));
        }
    }
    out
}

} // verus!
