//! Timestamps.
//!
//! The exchange sends instants as RFC 3339 text and expects query
//! parameters in the same form. Reading and writing that calendar form is
//! delegated to `chrono` through the trusted wrappers here; the library
//! itself only carries an instant as plain seconds and nanoseconds since
//! the epoch. The current time, needed once per signed request, comes from
//! the `time` crate.

use vstd::prelude::*;

verus! {

/// An instant: seconds since the Unix epoch, and nanoseconds within the
/// second.
#[derive(Clone, Copy, Debug, PartialEq, Eq, Structural)]
pub struct Timestamp {
    pub secs: i64,
    pub nanos: u32,
}

/// What RFC 3339 text denotes: the instant, or nothing when the text is
/// not a valid RFC 3339 date-time. Stands for what
/// `chrono::DateTime::parse_from_rfc3339` reads, a function of the text
/// alone.
pub uninterp spec fn rfc3339_parsed(s: Seq<char>) -> Option<(i64, u32)>;

/// The RFC 3339 spelling of an epoch second, or nothing when the instant
/// lies outside the calendar range `chrono` can represent. Stands for what
/// `chrono`'s `to_rfc3339` prints, a function of the second alone.
pub uninterp spec fn rfc3339_of(secs: int) -> Option<Seq<char>>;

/// Relies on `chrono::DateTime::parse_from_rfc3339`: succeeds exactly on
/// valid RFC 3339 text, and the instant read is a function of the text.
#[verifier::external_body]
fn parse_rfc3339_parts(s: &str) -> (r: Option<(i64, u32)>)
    ensures
        r == rfc3339_parsed(s@),
{
    chrono::DateTime::parse_from_rfc3339(s).ok().map(|dt| (dt.timestamp(), dt.timestamp_subsec_nanos()))
}

/// Relies on `chrono::DateTime::from_timestamp` and `to_rfc3339`: in-range
/// seconds format to their RFC 3339 spelling, a function of the second.
#[verifier::external_body]
fn format_rfc3339_secs(secs: i64) -> (r: Option<String>)
    ensures
        r is Some <==> rfc3339_of(secs as int) is Some,
        r matches Some(s) ==> rfc3339_of(secs as int) == Some(s@),
{
    chrono::DateTime::<chrono::Utc>::from_timestamp(secs, 0).map(|dt| dt.to_rfc3339())
}

/// Relies on `time::OffsetDateTime::now_utc`: the clock can return any
/// value, and nothing is promised of it.
#[verifier::external_body]
pub(crate) fn now_unix_secs() -> i64 {
    time::OffsetDateTime::now_utc().unix_timestamp()
}

impl Timestamp {
    /// Read RFC 3339 text.
    pub fn parse(s: &str) -> (r: Option<Timestamp>)
        ensures
            match r {
                Some(t) => rfc3339_parsed(s@) == Some((t.secs, t.nanos)),
                None => rfc3339_parsed(s@) is None,
            },
    {
        match parse_rfc3339_parts(s) {
            Some(p) => Some(Timestamp { secs: p.0, nanos: p.1 }),
            None => None,
        }
    }

    /// The RFC 3339 spelling of this instant's second, when the calendar
    /// can represent it.
    pub fn to_rfc3339_secs(&self) -> (r: Option<String>)
        ensures
            r is Some <==> rfc3339_of(self.secs as int) is Some,
            r matches Some(s) ==> rfc3339_of(self.secs as int) == Some(s@),
    {
        format_rfc3339_secs(self.secs)
    }
}

} // verus!
