//! Normalisation of free-text form input.

use vstd::prelude::*;

verus! {

/// What `str::trim` leaves of a string: it with leading and trailing
/// white space removed.
pub uninterp spec fn trim_of(s: Seq<char>) -> Seq<char>;

/// Relies on `str::trim`: the string without leading and trailing white
/// space; an empty string stays empty.
#[verifier::external_body]
fn trimmed(s: &str) -> (r: &str)
    ensures
        r@ == trim_of(s@),
        s@.len() == 0 ==> r@.len() == 0,
{
    s.trim()
}

/// Whether free text counts as blank: nothing is left once trimmed.
pub open spec fn is_blank(s: Seq<char>) -> bool {
    trim_of(s).len() == 0
}

/// The optional value that a text field stores, given the text and what is
/// left of it once trimmed: absent when nothing is left, else the text as
/// entered (untrimmed).
pub fn optional_text(value: String, trimmed_value: &str) -> (r: Option<String>)
    ensures
        r == (if trimmed_value@.len() == 0 { None } else { Some(value) }),
{
    if trimmed_value.is_empty() {
        None
    } else {
        Some(value)
    }
}

/// The optional value that a text field stores for `value`: absent when it
/// is blank, else the text as entered.
pub fn normalize_text(value: String) -> (r: Option<String>)
    ensures
        r == (if is_blank(value@) { None } else { Some(value) }),
{
    let t = trimmed(value.as_str()).to_owned();
    optional_text(value, t.as_str())
}

/// Whether two strings hold the same characters.
pub fn same_text(a: &str, b: &str) -> (r: bool)
    ensures
        r == (a@ == b@),
{
    let a_owned = a.to_owned();
    let b_owned = b.to_owned();
    a_owned == b_owned
}

/// Whether a checkbox's form value means checked: only `true` does.
pub fn is_checked(value: &str) -> (r: bool)
    ensures
        r == (value@ == "true"@),
{
    same_text(value, "true")
}

pub open spec fn is_decimal_digit(c: char) -> bool {
    '0' <= c && c <= '9'
}

/// The number that a string of decimal digits writes.
pub open spec fn decimal_value(s: Seq<char>) -> nat
    decreases s.len(),
{
    if s.len() == 0 {
        0
    } else {
        decimal_value(s.drop_last()) * 10 + ((s.last() as nat) - ('0' as nat)) as nat
    }
}

/// Reading a `u8` in decimal: an optional `+` and then one or more decimal
/// digits, whose value must fit in a `u8`; anything else is no number.
pub open spec fn u8_of_text(s: Seq<char>) -> Option<u8> {
    let digits = if s.len() > 0 && s[0] == '+' {
        s.drop_first()
    } else {
        s
    };
    if digits.len() > 0 && (forall|i: int| 0 <= i < digits.len() ==> is_decimal_digit(
        #[trigger] digits[i],
    )) && decimal_value(digits) <= u8::MAX {
        Some(decimal_value(digits) as u8)
    } else {
        None
    }
}

/// Relies on `str::parse::<u8>` (`u8::from_str_radix` in base 10): it accepts
/// an optional `+` followed by decimal digits only, and fails when the value
/// does not fit in a `u8`.
#[verifier::external_body]
pub(crate) fn parse_u8(s: &str) -> (r: Option<u8>)
    ensures
        r == u8_of_text(s@),
{
    s.parse::<u8>().ok()
}

} // verus!
