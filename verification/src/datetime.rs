//! Instants of time as the service writes and reads them.

use crate::text::option_text;
use vstd::prelude::*;

verus! {

/// The instant that `chrono::DateTime::parse_from_rfc2822` reads in `text`, as whole
/// seconds since the Unix epoch and the nanoseconds beyond them, or nothing where it
/// does not accept `text`.
pub uninterp spec fn rfc2822_instant(text: Seq<char>) -> Option<(i64, u32)>;

/// What `chrono::DateTime::to_rfc3339` writes for the instant that lies `secs` seconds
/// and `nanos` nanoseconds after the Unix epoch in UTC, or nothing where
/// `chrono::DateTime::from_timestamp` has no such instant.
pub uninterp spec fn rfc3339_text(secs: i64, nanos: u32) -> Option<Seq<char>>;

/// The first second that has a date: the start of the year -262143.
pub const MIN_TIMESTAMP: i64 = -8_334_601_228_800;

/// The last second that has a date: the end of the year 262142.
pub const MAX_TIMESTAMP: i64 = 8_210_266_876_799;

/// Whether there is an instant `secs` seconds and `nanos` nanoseconds after
/// the Unix epoch: the second lies in a year from -262143 to 262142, and the
/// nanoseconds are under a second, or under two in the last second of a
/// minute, where a leap second may stand.
pub open spec fn instant_exists(secs: i64, nanos: u32) -> bool {
    &&& MIN_TIMESTAMP <= secs <= MAX_TIMESTAMP
    &&& nanos < 2_000_000_000
    &&& nanos < 1_000_000_000 || secs as int % 60 == 59
}

/// Whether `c` may stand in a date written in RFC 3339 with a numeric offset:
/// a digit, or one of `-`, `:`, `T`, `.` and `+`.
pub open spec fn is_rfc3339_char(c: char) -> bool {
    (48 <= c as u32 <= 57) || c == '-' || c == ':' || c == 'T' || c == '.' || c == '+'
}

/// Whether `text` holds nothing but what may stand in such a date.
pub open spec fn is_rfc3339_text(text: Seq<char>) -> bool {
    forall|i: int| 0 <= i < text.len() ==> is_rfc3339_char(#[trigger] text[i])
}

/// Calls `chrono::DateTime::parse_from_rfc2822` on `text`. A date that chrono accepts
/// comes back as `timestamp` and `timestamp_subsec_nanos` give it; the result is the
/// named value `rfc2822_instant` of `text`.
#[verifier::external_body]
fn parse_rfc2822(text: &str) -> (r: Option<(i64, u32)>)
    ensures
        r == rfc2822_instant(text@),
{
    chrono::DateTime::parse_from_rfc2822(text).ok().map(
        |d| (d.timestamp(), d.timestamp_subsec_nanos()),
    )
}

/// Calls `chrono::DateTime::from_timestamp` and, where that gives an instant,
/// `chrono::DateTime::to_rfc3339` on it; the result is the named value `rfc3339_text`
/// of the two numbers. `from_timestamp` gives an instant exactly where the day of
/// `secs` lies in a year that chrono has and the nanoseconds suit the second;
/// `to_rfc3339` writes digits, `-`, `:`, `T`, `.` and the sign of the year or of the
/// offset, and nothing else.
#[verifier::external_body]
fn format_rfc3339(secs: i64, nanos: u32) -> (r: Option<String>)
    ensures
        option_text(r) == rfc3339_text(secs, nanos),
        r is Some <==> instant_exists(secs, nanos),
        r matches Some(text) ==> is_rfc3339_text(text@),
{
    chrono::DateTime::from_timestamp(secs, nanos).map(|d| d.to_rfc3339())
}

/// An instant in UTC: whole seconds since the Unix epoch and the nanoseconds
/// beyond them. Every value is an instant that exists.
#[derive(Debug, Clone, Copy, PartialEq, Eq)]
pub struct UtcDateTime {
    secs: i64,
    nanos: u32,
}

impl View for UtcDateTime {
    type V = (i64, u32);

    closed spec fn view(&self) -> (i64, u32) {
        (self.secs, self.nanos)
    }
}

/// The instant that `(secs, nanos)` stands for, where there is one.
pub open spec fn instant(secs: i64, nanos: u32) -> Option<(i64, u32)> {
    if instant_exists(secs, nanos) {
        Some((secs, nanos))
    } else {
        None
    }
}

/// The instant that an RFC 2822 date stands for.
pub open spec fn rfc2822_date(text: Seq<char>) -> Option<(i64, u32)> {
    match rfc2822_instant(text) {
        Some((secs, nanos)) => instant(secs, nanos),
        None => None,
    }
}

/// The view of an optional instant.
pub open spec fn option_instant(t: Option<UtcDateTime>) -> Option<(i64, u32)> {
    match t {
        Some(t) => Some(t@),
        None => None,
    }
}

impl UtcDateTime {
    #[verifier::type_invariant]
    spec fn is_an_instant(self) -> bool {
        instant_exists(self.secs, self.nanos)
    }

    /// The instant `secs` seconds and `nanos` nanoseconds after the Unix epoch,
    /// if there is one.
    pub fn from_timestamp(secs: i64, nanos: u32) -> (r: Option<UtcDateTime>)
        ensures
            option_instant(r) == instant(secs, nanos),
    {
        if secs < MIN_TIMESTAMP || secs > MAX_TIMESTAMP || nanos >= 2_000_000_000 {
            return None;
        }
        if nanos >= 1_000_000_000 {
            let since_first: i64 = secs - MIN_TIMESTAMP;
            if since_first % 60 != 59 {
                return None;
            }
        }
        Some(UtcDateTime { secs, nanos })
    }

    /// Reads a date in the form of RFC 2822, as the `Date` and `Last-Modified`
    /// headers hold it.
    pub fn parse_from_rfc2822(text: &str) -> (r: Option<UtcDateTime>)
        ensures
            option_instant(r) == rfc2822_date(text@),
    {
        match parse_rfc2822(text) {
            Some((secs, nanos)) => UtcDateTime::from_timestamp(secs, nanos),
            None => None,
        }
    }

    /// Whole seconds since the Unix epoch.
    pub fn timestamp(&self) -> (r: i64)
        ensures
            r == self@.0,
    {
        self.secs
    }

    /// The nanoseconds beyond the whole seconds.
    pub fn timestamp_subsec_nanos(&self) -> (r: u32)
        ensures
            r == self@.1,
    {
        self.nanos
    }

    /// What the instant looks like in RFC 3339.
    pub open spec fn rfc3339(self) -> Seq<char> {
        rfc3339_text(self@.0, self@.1).unwrap()
    }

    /// Writes the instant in the form of RFC 3339.
    pub fn to_rfc3339(&self) -> (r: String)
        ensures
            r@ == self.rfc3339(),
            is_rfc3339_text(r@),
    {
        proof {
            use_type_invariant(self);
        }
        format_rfc3339(self.secs, self.nanos).unwrap()
    }
}

} // verus!
