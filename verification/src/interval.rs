//! How often a task comes round.

use vstd::prelude::*;
use vstd::string::*;

use crate::text::{eq_ignore_ascii_case, same_ignoring_ascii_case};

verus! {

/// The period after which a task is due again.
#[derive(Debug, Clone, Copy, PartialEq, Eq, Structural)]
pub enum Interval {
    Hourly,
    Daily,
    Weekly,
}

impl Interval {
    /// The name under which the interval is shown and stored.
    pub open spec fn label(self) -> Seq<char> {
        match self {
            Interval::Hourly => "Hourly"@,
            Interval::Daily => "Daily"@,
            Interval::Weekly => "Weekly"@,
        }
    }

    /// The length of the interval in seconds.
    pub open spec fn seconds(self) -> int {
        match self {
            Interval::Hourly => 3_600,
            Interval::Daily => 86_400,
            Interval::Weekly => 604_800,
        }
    }

    /// The interval that a label of any letter case stands for: hourly for
    /// `hourly`, weekly for `weekly`, and daily for every other text.
    pub open spec fn from_label(label: Seq<char>) -> Interval {
        if same_ignoring_ascii_case(label, "hourly"@) {
            Interval::Hourly
        } else if same_ignoring_ascii_case(label, "weekly"@) {
            Interval::Weekly
        } else {
            Interval::Daily
        }
    }

    /// Reads an interval from a label, whatever its letter case; a label
    /// that names no interval is read as daily.
    pub fn parse_lenient(label: &str) -> (interval: Interval)
        ensures
            interval == Interval::from_label(label@),
    {
        if eq_ignore_ascii_case(label, "hourly") {
            Interval::Hourly
        } else if eq_ignore_ascii_case(label, "weekly") {
            Interval::Weekly
        } else {
            Interval::Daily
        }
    }

    /// The interval's name as an owned string.
    pub fn to_string(&self) -> (text: String)
        ensures
            text@ == self.label(),
    {
        match self {
            Interval::Hourly => String::from_str("Hourly"),
            Interval::Daily => String::from_str("Daily"),
            Interval::Weekly => String::from_str("Weekly"),
        }
    }
}

} // verus!
