//! Due times: RFC 3339 text and the instant it denotes.

use vstd::prelude::*;

verus! {

/// An instant on the UTC time line.
#[derive(Clone, Copy, Debug, PartialEq, Eq, Structural)]
pub struct UtcDateTime {
    /// Whole non-leap seconds since 1970-01-01T00:00:00Z.
    pub seconds: i64,
    /// Nanoseconds since the last whole second.
    pub nanoseconds: u32,
}

/// The instant that a text denotes under RFC 3339, as seconds since the
/// epoch and nanoseconds within the second, or `None` where the text is not
/// a date and time in that format.
pub uninterp spec fn rfc3339_instant(text: Seq<char>) -> Option<(i64, u32)>;

/// An optional instant as the pair that `rfc3339_instant` speaks of.
pub open spec fn instant_pair(t: Option<UtcDateTime>) -> Option<(i64, u32)> {
    match t {
        Some(t) => Some((t.seconds, t.nanoseconds)),
        None => None,
    }
}

/// Calls `chrono::DateTime::parse_from_rfc3339` and reads the parsed value
/// in UTC through `timestamp` and `timestamp_subsec_nanos`.
///
/// Trusted: the outcome depends on the text alone, so it is given the name
/// `rfc3339_instant`; a text that chrono rejects yields `None`.
#[verifier::external_body]
pub(crate) fn parse_rfc3339(text: &str) -> (parsed: Option<UtcDateTime>)
    ensures
        instant_pair(parsed) == rfc3339_instant(text@),
{
    match chrono::DateTime::parse_from_rfc3339(text) {
        Ok(local) => {
            let utc = local.with_timezone(&chrono::Utc);
            Some(UtcDateTime { seconds: utc.timestamp(), nanoseconds: utc.timestamp_subsec_nanos() })
        },
        Err(_) => None,
    }
}

} // verus!
