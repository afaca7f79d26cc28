//! Instants as the API writes them: ISO-8601 text in UTC.
use vstd::prelude::*;

verus! {

/// An instant: whole seconds since the Unix epoch, and the nanoseconds past
/// that second.
#[derive(Clone, Copy, Debug, PartialEq, Eq, Structural)]
pub struct Timestamp {
    pub seconds: i64,
    pub nanos: u32,
}

impl Timestamp {
    /// The instant as a pair of seconds and nanoseconds.
    pub open spec fn instant(&self) -> (int, int) {
        (self.seconds as int, self.nanos as int)
    }
}

/// The instant that an RFC 3339 text denotes, if it is one.
pub uninterp spec fn rfc3339_instant(s: Seq<char>) -> Option<(int, int)>;

/// Relies on chrono::DateTime::parse_from_rfc3339, with `timestamp` and
/// `timestamp_subsec_nanos` of its result: the instant of an RFC 3339 text.
#[verifier::external_body]
pub(crate) fn parse_rfc3339(s: &str) -> (r: Option<Timestamp>)
    ensures
        r is None <==> rfc3339_instant(s@) is None,
        r matches Some(t) ==> rfc3339_instant(s@) == Some(t.instant()),
{
    match chrono::DateTime::parse_from_rfc3339(s) {
        Ok(t) => Some(Timestamp { seconds: t.timestamp(), nanos: t.timestamp_subsec_nanos() }),
        Err(_) => None,
    }
}

} // verus!
