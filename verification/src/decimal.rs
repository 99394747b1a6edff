//! Decimal text as a signed 64-bit integer. The standard library does the
//! parsing; what this module says of it is taken on trust, not proved.

use vstd::prelude::*;

verus! {

/// Whether `c` is one of the ten decimal digits.
pub open spec fn is_digit(c: char) -> bool {
    '0' <= c <= '9'
}

/// Whether `s` consists of decimal digits only.
pub open spec fn all_digits(s: Seq<char>) -> bool {
    forall|i: int| 0 <= i < s.len() ==> is_digit(#[trigger] s[i])
}

/// The number that the digits of `s` write in base ten; zero for no digits.
pub open spec fn digits_value(s: Seq<char>) -> int
    decreases s.len(),
{
    if s.len() == 0 {
        0
    } else {
        10 * digits_value(s.drop_last()) + (s.last() as int - '0' as int)
    }
}

/// How text is read as a signed 64-bit integer: one optional sign, `-` or
/// `+`, then at least one decimal digit and nothing else, and a value that
/// fits. There is no result for any other text: none for the empty text, for
/// a sign alone, for white space or separators anywhere, or for a number out
/// of range.
pub open spec fn decimal_i64(s: Seq<char>) -> Option<i64> {
    let signed = s.len() > 0 && (s[0] == '-' || s[0] == '+');
    let digits = if signed { s.drop_first() } else { s };
    let value = if s.len() > 0 && s[0] == '-' {
        -digits_value(digits)
    } else {
        digits_value(digits)
    };
    if digits.len() > 0 && all_digits(digits) && i64::MIN <= value <= i64::MAX {
        Some(value as i64)
    } else {
        None
    }
}

/// Calls `str::parse` for `i64` and keeps the value, if there is one.
///
/// Taken on trust: the standard library accepts exactly the texts that
/// [`decimal_i64`] describes, and yields the value written.
#[verifier::external_body]
pub(crate) fn parse_i64(text: &str) -> (value: Option<i64>)
    ensures
        value == decimal_i64(text@),
{
    match text.parse::<i64>() {
        Ok(v) => Some(v),
        Err(_) => None,
    }
}

} // verus!
