//! Text primitives that the discovery rules are stated over: ASCII
//! case-insensitive comparison and the decimal notation of `i32`.
//!
//! The mathematical definitions live here as spec functions over
//! `Seq<char>`. The executable counterparts are the standard library's own
//! functions; the four wrappers at the end of this file state, without
//! proof, that those functions compute the definitions.

use vstd::prelude::*;

verus! {

/// The code point of `c` with the ASCII capitals `A`-`Z` folded onto `a`-`z`.
pub open spec fn ascii_fold(c: char) -> int {
    if 'A' <= c && c <= 'Z' {
        c as int + 32
    } else {
        c as int
    }
}

/// ASCII case-insensitive equality: the same length, and position by
/// position the same character once ASCII capitals are folded.
pub open spec fn eq_ignore_ascii_case(a: Seq<char>, b: Seq<char>) -> bool {
    &&& a.len() == b.len()
    &&& forall|i: int| 0 <= i < a.len() ==> ascii_fold(#[trigger] a[i]) == ascii_fold(b[i])
}

/// Whether `c` is one of the ASCII digits `0`-`9`.
pub open spec fn is_digit(c: char) -> bool {
    '0' <= c && c <= '9'
}

/// Whether every character of `s` is an ASCII digit.
pub open spec fn all_digits(s: Seq<char>) -> bool {
    forall|i: int| 0 <= i < s.len() ==> is_digit(#[trigger] s[i])
}

/// The number that the digit string `s` denotes in base ten.
pub open spec fn digits_value(s: Seq<char>) -> nat
    decreases s.len(),
{
    if s.len() == 0 {
        0
    } else {
        (digits_value(s.drop_last()) * 10 + (s.last() as int - '0' as int)) as nat
    }
}

/// The `i32` that `s` denotes: an optional `+` or `-` sign followed by one
/// or more ASCII digits and nothing else, with a value in the range of
/// `i32`. Any other string denotes nothing.
pub open spec fn decimal_i32(s: Seq<char>) -> Option<int> {
    let signed = s.len() > 0 && (s[0] == '+' || s[0] == '-');
    let negative = s.len() > 0 && s[0] == '-';
    let digits = if signed {
        s.skip(1)
    } else {
        s
    };
    let magnitude = digits_value(digits) as int;
    let value = if negative {
        -magnitude
    } else {
        magnitude
    };
    if digits.len() > 0 && all_digits(digits) && i32::MIN <= value && value <= i32::MAX {
        Some(value)
    } else {
        None
    }
}

/// The ASCII digit for `d`, for `0 <= d <= 9`.
pub open spec fn digit_char(d: int) -> char {
    ('0' as int + d) as char
}

/// The digits of `n` in base ten, without leading zeros (`0` is `"0"`).
pub open spec fn decimal_digits(n: nat) -> Seq<char>
    decreases n,
{
    if n < 10 {
        seq![digit_char(n as int)]
    } else {
        decimal_digits(n / 10).push(digit_char((n % 10) as int))
    }
}

/// The decimal notation of `n`: a `-` in front of the digits of a negative
/// number, no sign otherwise.
pub open spec fn decimal(n: int) -> Seq<char> {
    if n < 0 {
        seq!['-'] + decimal_digits((-n) as nat)
    } else {
        decimal_digits(n as nat)
    }
}

/// `str`'s `==`. Two strings are equal exactly when they hold the same
/// characters.
#[verifier::external_body]
pub(crate) fn str_eq(a: &str, b: &str) -> (r: bool)
    ensures
        r == (a@ == b@),
{
    a == b
}

/// `str::eq_ignore_ascii_case`. The standard library documents it as the
/// comparison of the two strings after `to_ascii_lowercase`, which is
/// [`eq_ignore_ascii_case`] on their characters.
#[verifier::external_body]
pub(crate) fn str_eq_ignore_ascii_case(a: &str, b: &str) -> (r: bool)
    ensures
        r == eq_ignore_ascii_case(a@, b@),
{
    a.eq_ignore_ascii_case(b)
}

/// `str::parse::<i32>`, with the error dropped. The standard library
/// accepts an optional `+` or `-` sign followed by decimal digits only, and
/// rejects the empty string, a lone sign, any other character (white space
/// and `_` included) and a value outside `i32`: that is [`decimal_i32`].
#[verifier::external_body]
pub(crate) fn parse_i32(s: &str) -> (r: Option<i32>)
    ensures
        match r {
            Some(n) => decimal_i32(s@) == Some(n as int),
            None => decimal_i32(s@) is None,
        },
{
    s.parse::<i32>().ok()
}

/// `i32`'s `to_string`. The standard library prints the shortest decimal
/// notation, with a leading `-` for negative numbers: [`decimal`].
#[verifier::external_body]
pub(crate) fn i32_to_string(n: i32) -> (s: String)
    ensures
        s@ == decimal(n as int),
{
    n.to_string()
}

} // verus!
