//! Wall-clock readings, as the calendar fields that a statement parameter carries.

use chrono::{Datelike, Timelike};
use vstd::prelude::*;

verus! {

/// A local date and time without a zone, field by field.
#[derive(Clone, Copy, Debug, PartialEq, Eq)]
pub struct Timestamp {
    pub year: i32,
    pub month: u32,
    pub day: u32,
    pub hour: u32,
    pub minute: u32,
    pub second: u32,
    /// Nanoseconds into the second; a leap second shows as a value of one
    /// thousand million or more.
    pub nanosecond: u32,
}

impl Timestamp {
    /// Every field lies in the range its calendar unit allows.
    pub open spec fn in_calendar(self) -> bool {
        &&& 1 <= self.month <= 12
        &&& 1 <= self.day <= 31
        &&& self.hour <= 23
        &&& self.minute <= 59
        &&& self.second <= 59
        &&& self.nanosecond <= 1_999_999_999
    }

    /// Midnight on the first of January of year 1000.
    pub fn epoch() -> (t: Timestamp)
        ensures
            t == Timestamp::spec_epoch(),
            t.in_calendar(),
    {
        Timestamp { year: 1000, month: 1, day: 1, hour: 0, minute: 0, second: 0, nanosecond: 0 }
    }

    pub open spec fn spec_epoch() -> Timestamp {
        Timestamp { year: 1000, month: 1, day: 1, hour: 0, minute: 0, second: 0, nanosecond: 0 }
    }
}

/// Reads the machine's clock through `chrono::Local::now().naive_local()` and
/// copies out the fields that `Datelike` and `Timelike` report for it.
///
/// Believed, not proved: the fields are within the ranges that chrono documents
/// for those accessors. Nothing is claimed about which instant comes back, nor
/// that two readings are ordered. `naive_local` gives up only for instants at
/// the edge of chrono's representable years, which a running clock does not reach.
#[verifier::external_body]
pub(crate) fn local_now() -> (t: Timestamp)
    ensures
        t.in_calendar(),
{
    let now = chrono::Local::now().naive_local();
    Timestamp {
        year: now.year(),
        month: now.month(),
        day: now.day(),
        hour: now.hour(),
        minute: now.minute(),
        second: now.second(),
        nanosecond: now.nanosecond(),
    }
}

} // verus!
