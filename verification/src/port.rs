//! Port numbers as the caller writes them: decimal text that must fit in 16
//! bits.

use vstd::prelude::*;
use crate::error::ConnectError;
use crate::text::chars_of;

verus! {

/// Whether `c` is one of the ten ASCII digits.
pub open spec fn is_digit(c: char) -> bool {
    0x30 <= c as u32 <= 0x39
}

/// The value of the digit `c`.
pub open spec fn digit_value(c: char) -> nat {
    (c as u32 - 0x30) as nat
}

/// Whether `s` consists of digits only.
pub open spec fn all_digits(s: Seq<char>) -> bool {
    forall|i: int| 0 <= i < s.len() ==> is_digit(#[trigger] s[i])
}

/// The number that the digits of `s` denote in base ten.
pub open spec fn decimal(s: Seq<char>) -> nat
    decreases s.len(),
{
    if s.len() == 0 {
        0
    } else {
        10 * decimal(s.drop_last()) + digit_value(s.last())
    }
}

/// `s` without the plus sign that may open it.
pub open spec fn unsigned_part(s: Seq<char>) -> Seq<char> {
    if s.len() > 0 && s[0] == '+' {
        s.drop_first()
    } else {
        s
    }
}

/// The port that `s` denotes: an optional plus sign, then one or more digits
/// whose value is at most 65535. Leading zeros are allowed; white space and
/// any other character are not.
pub open spec fn port_number(s: Seq<char>) -> Option<u16> {
    let digits = unsigned_part(s);
    if digits.len() > 0 && all_digits(digits) && decimal(digits) <= u16::MAX {
        Some(decimal(digits) as u16)
    } else {
        None
    }
}

/// The value of a run of digits does not shrink when more digits follow.
proof fn lemma_decimal_grows(s: Seq<char>, k: int)
    requires
        0 <= k <= s.len(),
    ensures
        decimal(s.take(k)) <= decimal(s),
    decreases s.len() - k,
{
    if k == s.len() {
        assert(s.take(k) =~= s);
    } else {
        lemma_decimal_grows(s.drop_last(), k);
        assert(s.drop_last().take(k) =~= s.take(k));
    }
}

/// Reads a port number. Text that does not denote one is a configuration
/// error.
pub fn parse_port(text: &str) -> (r: Result<u16, ConnectError>)
    ensures
        match port_number(text@) {
            Some(port) => r == Ok::<u16, ConnectError>(port),
            None => r == Err::<u16, ConnectError>(ConnectError::Configuration),
        },
{
    let chars = chars_of(text);
    let start: usize = if chars.len() > 0 && chars[0] == '+' {
        1
    } else {
        0
    };
    if start == chars.len() {
        return Err(ConnectError::Configuration);
    }
    let ghost digits = unsigned_part(text@);
    assert(digits =~= chars@.subrange(start as int, chars.len() as int));
    let mut value: u32 = 0;
    let mut i: usize = start;
    while i < chars.len()
        invariant
            start <= i <= chars.len(),
            start < chars.len(),
            digits == unsigned_part(text@),
            digits == chars@.subrange(start as int, chars.len() as int),
            all_digits(digits.take(i - start)),
            value == decimal(digits.take(i - start)),
            value <= u16::MAX,
        decreases chars.len() - i,
    {
        let code: u32 = chars[i] as u32;
        if code < 0x30 || code > 0x39 {
            assert(!is_digit(digits[i - start]));
            return Err(ConnectError::Configuration);
        }
        let ghost longer = digits.take(i - start + 1);
        assert(longer.drop_last() =~= digits.take(i - start));
        assert(longer.last() == chars@[i as int]);
        value = value * 10 + (code - 0x30);
        if value > 0xFFFF {
            proof {
                lemma_decimal_grows(digits, i - start + 1);
            }
            return Err(ConnectError::Configuration);
        }
        i += 1;
    }
    assert(digits.take(i - start) =~= digits);
    Ok(value as u16)
}

} // verus!
