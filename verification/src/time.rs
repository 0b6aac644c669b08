//! Points in time, as seconds and nanoseconds since the Unix epoch (UTC).
use vstd::prelude::*;

verus! {

/// A point in time: whole seconds since 1970-01-01 00:00:00 UTC and the
/// nanoseconds within that second.
#[derive(Clone, Copy, Debug, PartialEq, Eq, Structural)]
pub struct Timestamp {
    pub secs: i64,
    pub nanos: u32,
}

/// Whether `a` lies strictly before `b`.
pub open spec fn before(a: Timestamp, b: Timestamp) -> bool {
    a.secs < b.secs || (a.secs == b.secs && a.nanos < b.nanos)
}

impl Timestamp {
    /// The Unix epoch.
    pub fn epoch() -> (t: Timestamp)
        ensures
            t.secs == 0 && t.nanos == 0,
    {
        Timestamp { secs: 0, nanos: 0 }
    }

    /// Whether `self` lies strictly before `other`.
    pub fn is_before(&self, other: &Timestamp) -> (r: bool)
        ensures
            r == before(*self, *other),
    {
        self.secs < other.secs || (self.secs == other.secs && self.nanos < other.nanos)
    }
}

/// The current time, as `chrono::Utc::now` reads the system clock.
#[verifier::external_body]
pub fn now() -> (t: Timestamp) {
    let d = chrono::Utc::now();
    Timestamp { secs: d.timestamp(), nanos: d.timestamp_subsec_nanos() }
}

/// The text `YYYY-MM-DD HH:MM:SS` of a UTC time, as chrono formats it, or
/// none where chrono has no date for the time.
pub uninterp spec fn utc_timestamp_text(secs: i64, nanos: u32) -> Option<Seq<char>>;

/// Formats a time with `chrono::DateTime::from_timestamp` and the pattern
/// `%Y-%m-%d %H:%M:%S` of its naive UTC form. The result stands under the
/// name `utc_timestamp_text`; none comes back where `from_timestamp` refuses
/// the time.
#[verifier::external_body]
pub fn format_utc_timestamp(t: Timestamp) -> (r: Option<String>)
    ensures
        match r {
            Some(s) => utc_timestamp_text(t.secs, t.nanos) == Some(s@),
            None => utc_timestamp_text(t.secs, t.nanos) is None,
        },
{
    match chrono::DateTime::from_timestamp(t.secs, t.nanos) {
        Some(d) => Some(d.naive_utc().format("%Y-%m-%d %H:%M:%S").to_string()),
        None => None,
    }
}

} // verus!
