//! Identifiers that the service hands out: request ids and lease ids.

use vstd::prelude::*;

verus! {

/// The 128-bit value that `uuid::Uuid::parse_str` reads in `text`, or nothing where
/// it does not accept `text`.
pub uninterp spec fn uuid_value(text: Seq<char>) -> Option<u128>;

/// `value` without its `n` lowest hexadecimal digits.
pub open spec fn without_low_digits(value: nat, n: nat) -> nat
    decreases n,
{
    if n == 0 {
        value
    } else {
        without_low_digits(value / 16, (n - 1) as nat)
    }
}

/// The character that writes the hexadecimal digit `d` in lower case.
pub open spec fn hex_char(d: nat) -> char {
    if d < 10 {
        ((48 + d) as u8) as char
    } else {
        ((87 + d) as u8) as char
    }
}

/// How many hyphens stand before place `i` of the text of an identifier.
pub open spec fn hyphens_before(i: int) -> int {
    if i > 23 {
        4
    } else if i > 18 {
        3
    } else if i > 13 {
        2
    } else if i > 8 {
        1
    } else {
        0
    }
}

/// The text of the identifier of value `value`: its 32 hexadecimal digits in
/// lower case, the most significant first, in groups of 8, 4, 4, 4 and 12
/// with a hyphen between the groups.
pub open spec fn uuid_text(value: u128) -> Seq<char> {
    Seq::new(
        36,
        |i: int|
            if i == 8 || i == 13 || i == 18 || i == 23 {
                '-'
            } else {
                hex_char(
                    without_low_digits(value as nat, (31 - (i - hyphens_before(i))) as nat) % 16,
                )
            },
    )
}

/// Calls `uuid::Uuid::parse_str` on `text`. An identifier that the crate accepts comes
/// back as `as_u128` gives it; the result is the named value `uuid_value` of `text`.
#[verifier::external_body]
fn parse_uuid(text: &str) -> (r: Option<u128>)
    ensures
        r == uuid_value(text@),
{
    uuid::Uuid::parse_str(text).ok().map(|u| u.as_u128())
}

/// Makes the `uuid::Uuid` of value `value` with `from_u128` and writes it with its
/// `Display`, which gives the hyphenated form in lower case.
#[verifier::external_body]
fn format_uuid(value: u128) -> (r: String)
    ensures
        r@ == uuid_text(value),
{
    uuid::Uuid::from_u128(value).to_string()
}

/// A universally unique identifier, held as its 128-bit value.
#[derive(Debug, Clone, Copy, PartialEq, Eq, Structural)]
pub struct Uuid {
    value: u128,
}

/// The identifier that the service gives to a request.
pub type RequestId = Uuid;

/// The identifier of a lease on a blob or a container.
pub type LeaseId = Uuid;

impl View for Uuid {
    type V = u128;

    closed spec fn view(&self) -> u128 {
        self.value
    }
}

/// The view of an optional identifier.
pub open spec fn option_uuid(id: Option<Uuid>) -> Option<u128> {
    match id {
        Some(id) => Some(id@),
        None => None,
    }
}

impl Uuid {
    /// The identifier of value `value`.
    pub fn from_u128(value: u128) -> (r: Uuid)
        ensures
            r@ == value,
    {
        Uuid { value }
    }

    /// The 128-bit value.
    pub fn as_u128(&self) -> (r: u128)
        ensures
            r == self@,
    {
        self.value
    }

    /// Reads an identifier in one of its textual forms.
    pub fn parse_str(text: &str) -> (r: Option<Uuid>)
        ensures
            option_uuid(r) == uuid_value(text@),
    {
        match parse_uuid(text) {
            Some(value) => Some(Uuid { value }),
            None => None,
        }
    }

    /// Writes the identifier in the form in which it travels in a header.
    pub fn to_string(&self) -> (r: String)
        ensures
            r@ == uuid_text(self@),
    {
        format_uuid(self.value)
    }
}

} // verus!
