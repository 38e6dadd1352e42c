//! Decimal integer fields, parsed and proved exactly.
//!
//! An integer field is an optional `+` or `-` sign followed by one or more
//! ASCII digits, nothing else — the same literals the standard library's
//! integer parsing accepts. The parsers here return the field's value
//! exactly when the text has that shape and the value fits the target
//! range, and a parse error otherwise.

use vstd::prelude::*;
use crate::error::LitchiError;

verus! {

/// An ASCII decimal digit.
pub open spec fn is_ascii_digit(c: char) -> bool {
    48 <= c as u32 && c as u32 <= 57
}

/// The value of an ASCII decimal digit.
pub open spec fn digit_val(c: char) -> int {
    c as u32 - 48
}

/// Every character of the sequence is an ASCII decimal digit.
pub open spec fn all_digits(s: Seq<char>) -> bool {
    forall|i: int| 0 <= i < s.len() ==> is_ascii_digit(#[trigger] s[i])
}

/// The value of a sequence of decimal digits, most significant first.
pub open spec fn digits_val(s: Seq<char>) -> int
    decreases s.len(),
{
    if s.len() == 0 {
        0
    } else {
        10 * digits_val(s.drop_last()) + digit_val(s.last())
    }
}

/// The integer a piece of text denotes: an optional sign followed by one
/// or more digits. `None` when the text has any other shape.
pub open spec fn parsed_int(s: Seq<char>) -> Option<int> {
    let digits = if s.len() > 0 && (s[0] == '+' || s[0] == '-') {
        s.skip(1)
    } else {
        s
    };
    let negative = s.len() > 0 && s[0] == '-';
    if digits.len() > 0 && all_digits(digits) {
        if negative {
            Some(-digits_val(digits))
        } else {
            Some(digits_val(digits))
        }
    } else {
        None
    }
}

/// What parsing a 32-bit integer field returns: the denoted value when it
/// exists and fits, a parse error otherwise.
pub open spec fn spec_parse_i32(s: Seq<char>) -> Result<i32, LitchiError> {
    match parsed_int(s) {
        Some(v) => if -0x8000_0000 <= v && v <= 0x7fff_ffff {
            Ok(v as i32)
        } else {
            Err(LitchiError::ParseIntError)
        },
        None => Err(LitchiError::ParseIntError),
    }
}

/// What parsing a 16-bit integer field returns.
pub open spec fn spec_parse_i16(s: Seq<char>) -> Result<i16, LitchiError> {
    match parsed_int(s) {
        Some(v) => if -0x8000 <= v && v <= 0x7fff {
            Ok(v as i16)
        } else {
            Err(LitchiError::ParseIntError)
        },
        None => Err(LitchiError::ParseIntError),
    }
}

/// Reads the digit run of `s` from `start` to the end. Returns `None`
/// unless it is one or more digits; otherwise returns the run's value,
/// saturated just above `0x8000_0000` so that any 32-bit range check on
/// it decides the same way as on the exact value.
fn digits_value_saturated(s: &str, start: usize, n: usize) -> (r: Option<u64>)
    requires
        start <= n,
        n == s@.len(),
    ensures
        match r {
            None => !(s@.skip(start as int).len() > 0 && all_digits(s@.skip(start as int))),
            Some(acc) => {
                let digits = s@.skip(start as int);
                &&& digits.len() > 0
                &&& all_digits(digits)
                &&& digits_val(digits) <= 0x8000_0000 ==> acc == digits_val(digits)
                &&& digits_val(digits) > 0x8000_0000 ==> acc == 0x8000_0001
                &&& acc <= 0x8000_0001
            },
        },
{
    if start == n {
        assert(s@.skip(start as int).len() == 0);
        return None;
    }
    let mut acc: u64 = 0;
    let mut j: usize = start;
    while j < n
        invariant
            start <= j <= n,
            n == s@.len(),
            all_digits(s@.subrange(start as int, j as int)),
            digits_val(s@.subrange(start as int, j as int)) <= 0x8000_0000 ==> acc == digits_val(
                s@.subrange(start as int, j as int),
            ),
            digits_val(s@.subrange(start as int, j as int)) > 0x8000_0000 ==> acc == 0x8000_0001,
            acc <= 0x8000_0001,
        decreases n - j,
    {
        let c = s.get_char(j);
        let u: u32 = c as u32;
        if u < 48 || u > 57 {
            assert(!is_ascii_digit(s@.skip(start as int)[j - start]));
            return None;
        }
        let d: u64 = (u - 48) as u64;
        proof {
            assert(s@.subrange(start as int, j + 1) =~= s@.subrange(start as int, j as int).push(
                s@[j as int],
            ));
            assert(s@.subrange(start as int, j as int).push(s@[j as int]).drop_last() =~= s@
                .subrange(start as int, j as int));
        }
        acc = acc * 10 + d;
        if acc > 0x8000_0000 {
            acc = 0x8000_0001;
        }
        j = j + 1;
    }
    proof {
        assert(s@.subrange(start as int, n as int) =~= s@.skip(start as int));
    }
    Some(acc)
}

/// Parses a 32-bit integer field.
pub fn parse_i32(s: &str) -> (r: Result<i32, LitchiError>)
    ensures
        r == spec_parse_i32(s@),
{
    let n: usize = s.unicode_len();
    if n == 0 {
        return Err(LitchiError::ParseIntError);
    }
    let first = s.get_char(0);
    let (negative, start): (bool, usize) = if first == '-' {
        (true, 1)
    } else if first == '+' {
        (false, 1)
    } else {
        (false, 0)
    };
    proof {
        if start == 0 {
            assert(s@.skip(0) =~= s@);
        }
    }
    match digits_value_saturated(s, start, n) {
        None => Err(LitchiError::ParseIntError),
        Some(acc) => {
            if negative {
                if acc <= 0x8000_0000 {
                    let wide: i64 = -(acc as i64);
                    Ok(wide as i32)
                } else {
                    Err(LitchiError::ParseIntError)
                }
            } else {
                if acc <= 0x7fff_ffff {
                    Ok(acc as i32)
                } else {
                    Err(LitchiError::ParseIntError)
                }
            }
        },
    }
}

/// Parses a 16-bit integer field.
pub fn parse_i16(s: &str) -> (r: Result<i16, LitchiError>)
    ensures
        r == spec_parse_i16(s@),
{
    let n: usize = s.unicode_len();
    if n == 0 {
        return Err(LitchiError::ParseIntError);
    }
    let first = s.get_char(0);
    let (negative, start): (bool, usize) = if first == '-' {
        (true, 1)
    } else if first == '+' {
        (false, 1)
    } else {
        (false, 0)
    };
    proof {
        if start == 0 {
            assert(s@.skip(0) =~= s@);
        }
    }
    match digits_value_saturated(s, start, n) {
        None => Err(LitchiError::ParseIntError),
        Some(acc) => {
            if negative {
                if acc <= 0x8000 {
                    let wide: i64 = -(acc as i64);
                    Ok(wide as i16)
                } else {
                    Err(LitchiError::ParseIntError)
                }
            } else {
                if acc <= 0x7fff {
                    Ok(acc as i16)
                } else {
                    Err(LitchiError::ParseIntError)
                }
            }
        },
    }
}

} // verus!
