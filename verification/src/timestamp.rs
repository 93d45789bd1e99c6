//! Points in time, as the task file and the due check see them.

use vstd::prelude::*;

verus! {

/// An instant on the UTC time line: whole seconds since the start of 1970 and
/// the nanoseconds that follow them.
///
/// The pair is the one that chrono reports for a date and time (`timestamp`
/// and `timestamp_subsec_nanos`), so a value read from chrono and handed back
/// to it names the same instant. During a leap second chrono reports a
/// nanosecond count of a thousand million or more; such a value is kept as it
/// is and counts here as the time that many nanoseconds after `secs`.
#[derive(Debug, Clone, Copy, PartialEq, Eq, Structural)]
pub struct Timestamp {
    pub secs: i64,
    pub nanos: u32,
}

impl Timestamp {
    /// The nanoseconds between the start of 1970 and this instant.
    pub open spec fn since_epoch(self) -> int {
        self.secs * 1_000_000_000 + self.nanos
    }

    /// The instant `nanos` nanoseconds after second `secs` of the Unix era.
    pub fn new(secs: i64, nanos: u32) -> (t: Timestamp)
        ensures
            t == (Timestamp { secs, nanos }),
    {
        Timestamp { secs, nanos }
    }

    /// The nanoseconds from `earlier` to `self`; negative when `self` comes first.
    pub fn nanos_since(&self, earlier: &Timestamp) -> (elapsed: i128)
        ensures
            elapsed == self.since_epoch() - earlier.since_epoch(),
    {
        let later_total: i128 = self.secs as i128 * 1_000_000_000 + self.nanos as i128;
        let earlier_total: i128 = earlier.secs as i128 * 1_000_000_000 + earlier.nanos as i128;
        later_total - earlier_total
    }
}

/// The instant that a date and time in the RFC 3339 format names, or `None`
/// where the text is no such date and time.
pub uninterp spec fn rfc3339_instant(text: Seq<char>) -> Option<Timestamp>;

/// Parses `text` with chrono's `DateTime::parse_from_rfc3339` and takes the
/// instant out of the result with `DateTime::timestamp` and
/// `DateTime::timestamp_subsec_nanos`; a text that chrono rejects gives
/// `None`. The contract gives the result its name and claims nothing else.
#[verifier::external_body]
pub(crate) fn parse_rfc3339(text: &str) -> (instant: Option<Timestamp>)
    ensures
        instant == rfc3339_instant(text@),
{
    match chrono::DateTime::parse_from_rfc3339(text) {
        Ok(moment) => Some(
            Timestamp { secs: moment.timestamp(), nanos: moment.timestamp_subsec_nanos() },
        ),
        Err(_) => None,
    }
}

/// Calls chrono's `Local::now` and takes the instant out of its result with
/// `DateTime::timestamp` and `DateTime::timestamp_subsec_nanos`. The instant
/// depends on the clock, so nothing is claimed of it.
#[verifier::external_body]
pub(crate) fn current_time() -> Timestamp {
    let now = chrono::Local::now();
    Timestamp { secs: now.timestamp(), nanos: now.timestamp_subsec_nanos() }
}

} // verus!
