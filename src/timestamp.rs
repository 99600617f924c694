//! Calendar timestamps as read from a monitoring backend's sample times.

use chrono::{Datelike, Timelike};
use vstd::prelude::*;

verus! {

/// A wall-clock instant as written in its own UTC offset.
#[derive(Clone, Copy, Debug, PartialEq, Eq, Structural)]
pub struct Timestamp {
    pub year: i32,
    pub month: u32,
    pub day: u32,
    pub hour: u32,
    pub minute: u32,
    pub second: u32,
    /// Seconds east of UTC.
    pub utc_offset_seconds: i32,
}

impl Timestamp {
    /// Every field lies in its calendar range.
    pub open spec fn wf(&self) -> bool {
        &&& 1 <= self.month <= 12
        &&& 1 <= self.day <= 31
        &&& self.hour < 24
        &&& self.minute < 60
        &&& self.second < 60
    }
}

/// What an RFC 3339 parse of the text yields, if it succeeds.
pub uninterp spec fn rfc3339_timestamp(s: Seq<char>) -> Option<Timestamp>;

/// Relies on chrono::DateTime::parse_from_rfc3339, read through chrono's
/// Datelike and Timelike accessors (month 1..=12, day 1..=31, hour 0..=23,
/// minute and second 0..=59) and FixedOffset::local_minus_utc.
#[verifier::external_body]
pub(crate) fn parse_rfc3339(s: &str) -> (r: Option<Timestamp>)
    ensures
        r == rfc3339_timestamp(s@),
        r is Some ==> r->Some_0.wf(),
{
    match chrono::DateTime::parse_from_rfc3339(s) {
        Ok(t) => Some(Timestamp {
            year: t.year(),
            month: t.month(),
            day: t.day(),
            hour: t.hour(),
            minute: t.minute(),
            second: t.second(),
            utc_offset_seconds: t.offset().local_minus_utc(),
        }),
        Err(_) => None,
    }
}

} // verus!
