//! A wall-clock reading broken into plain calendar fields, and the one
//! trusted call that obtains it from the host's local clock.

use vstd::prelude::*;
use chrono::Datelike;
use chrono::Timelike;

verus! {

/// A local wall-clock reading with millisecond precision.
#[derive(Debug, Clone, Copy, PartialEq, Eq, Structural)]
pub struct Timestamp {
    pub year: i64,
    pub month: u32,
    pub day: u32,
    pub hour: u32,
    pub minute: u32,
    pub second: u32,
    pub milli: u32,
}

impl Timestamp {
    /// The field ranges a calendar clock reading satisfies. During a leap
    /// second the millisecond count may run up to 1999.
    pub open spec fn wf(self) -> bool {
        &&& -2147483648 <= self.year <= 2147483647
        &&& 1 <= self.month <= 12
        &&& 1 <= self.day <= 31
        &&& self.hour <= 23
        &&& self.minute <= 59
        &&& self.second <= 59
        &&& self.milli <= 1999
    }
}

/// Relies on `chrono::Local::now` and the `Datelike`/`Timelike` accessors of
/// the returned date-time: the month is in 1..=12, the day in 1..=31, hour,
/// minute and second are in their clock ranges, and the millisecond count is
/// at most 1999 (it exceeds 999 only during a leap second).
#[verifier::external_body]
pub fn now_local() -> (t: Timestamp)
    ensures
        t.wf(),
{
    let now = chrono::Local::now();
    Timestamp {
        year: now.year() as i64,
        month: now.month(),
        day: now.day(),
        hour: now.hour(),
        minute: now.minute(),
        second: now.second(),
        milli: now.timestamp_subsec_millis(),
    }
}

} // verus!
