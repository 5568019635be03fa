//! Reading a canvas dimension from typed text.

use vstd::prelude::*;
use vstd::string::StrSliceExecFns;

verus! {

/// Whether `c` is one of the ten decimal digits.
pub open spec fn is_digit(c: char) -> bool {
    '0' <= c <= '9'
}

/// The value of a decimal digit, and zero for any other character.
pub open spec fn digit_value(c: char) -> nat {
    if is_digit(c) {
        (c as u32 - '0' as u32) as nat
    } else {
        0
    }
}

/// Whether every character of `s` is a decimal digit.
pub open spec fn all_digits(s: Seq<char>) -> bool {
    forall|i: int| 0 <= i < s.len() ==> is_digit(#[trigger] s[i])
}

/// The number that the digits of `s` write in base ten.
pub open spec fn digits_value(s: Seq<char>) -> nat
    decreases s.len(),
{
    if s.len() == 0 {
        0
    } else {
        10 * digits_value(s.drop_last()) + digit_value(s.last())
    }
}

/// The text without its leading plus sign, if it has one.
pub open spec fn unsigned_part(s: Seq<char>) -> Seq<char> {
    if s.len() >= 1 && s[0] == '+' {
        s.subrange(1, s.len() as int)
    } else {
        s
    }
}

/// The number that a text writes: an optional plus sign, then one or
/// more decimal digits whose value fits in 32 bits. Any other text writes
/// no number.
pub open spec fn parsed(s: Seq<char>) -> Option<u32> {
    let digits = unsigned_part(s);
    if digits.len() >= 1 && all_digits(digits) && digits_value(digits) <= u32::MAX {
        Some(digits_value(digits) as u32)
    } else {
        None
    }
}

/// Reads a dimension from text: an optional plus sign followed by decimal
/// digits. Empty text, any other character, and a value beyond 32 bits
/// give `None`.
pub fn parse_dimension(text: &str) -> (r: Option<u32>)
    ensures
        r == parsed(text@),
{
    let len: usize = text.unicode_len();
    let start: usize = if len >= 1 && text.get_char(0) == '+' {
        1
    } else {
        0
    };
    if start == len {
        return None;
    }
    let mut value: u32 = 0;
    let mut overflow: bool = false;
    let mut i: usize = start;
    while i < len
        invariant
            start <= i <= len,
            len == text@.len(),
            unsigned_part(text@) == text@.subrange(start as int, len as int),
            all_digits(text@.subrange(start as int, i as int)),
            !overflow ==> value == digits_value(text@.subrange(start as int, i as int)),
            overflow ==> digits_value(text@.subrange(start as int, i as int)) > u32::MAX,
        decreases len - i,
    {
        let c: char = text.get_char(i);
        let ghost before = text@.subrange(start as int, i as int);
        let ghost after = text@.subrange(start as int, i as int + 1);
        assert(after.drop_last() =~= before);
        if !(c >= '0' && c <= '9') {
            assert(unsigned_part(text@)[i as int - start as int] == c);
            return None;
        }
        assert(all_digits(after)) by {
            assert forall|j: int| 0 <= j < after.len() implies is_digit(#[trigger] after[j]) by {
                if j < before.len() {
                    assert(after[j] == before[j]);
                }
            }
        }
        let digit: u32 = c as u32 - '0' as u32;
        if !overflow {
            match value.checked_mul(10) {
                Some(tens) => match tens.checked_add(digit) {
                    Some(next) => {
                        value = next;
                    },
                    None => {
                        overflow = true;
                    },
                },
                None => {
                    overflow = true;
                },
            }
        }
        i = i + 1;
    }
    if overflow {
        None
    } else {
        Some(value)
    }
}

} // verus!
