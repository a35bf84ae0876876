//! Decimal text for the host-facing default strings.
//!
//! The trait's default answers carry a channel or parameter index inside a
//! name; the rendering of the number is delegated to std's formatter, whose
//! result this module states exactly.

use vstd::prelude::*;

verus! {

/// The character for one decimal digit.
pub open spec fn decimal_digit(d: int) -> char {
    if d == 0 {
        '0'
    } else if d == 1 {
        '1'
    } else if d == 2 {
        '2'
    } else if d == 3 {
        '3'
    } else if d == 4 {
        '4'
    } else if d == 5 {
        '5'
    } else if d == 6 {
        '6'
    } else if d == 7 {
        '7'
    } else if d == 8 {
        '8'
    } else {
        '9'
    }
}

/// The decimal digits of a non-negative number, most significant first.
pub open spec fn decimal_digits(n: int) -> Seq<char>
    decreases n,
{
    if n < 10 {
        seq![decimal_digit(n)]
    } else {
        decimal_digits(n / 10).push(decimal_digit(n % 10))
    }
}

/// The decimal rendering of an integer: its digits, with a leading minus
/// sign when negative.
pub open spec fn decimal(n: int) -> Seq<char> {
    if n < 0 {
        seq!['-'] + decimal_digits(-n)
    } else {
        decimal_digits(n)
    }
}

/// Relies on std's formatting of `i32`: decimal digits, most significant
/// first, with a leading minus sign for negative values, appended here to
/// the given prefix.
#[verifier::external_body]
pub(crate) fn prefixed_number(prefix: &str, n: i32) -> (r: String)
    ensures
        r@ == prefix@ + decimal(n as int),
{
    format!("{}{}", prefix, n)
}

} // verus!
