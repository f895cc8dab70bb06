//! The current moment, read once and handed on as plain values.

use crate::civil::{CivilDate, CivilDateTime, CivilTime};
use chrono::{Datelike, Timelike, Utc};
use vstd::prelude::*;

verus! {

/// A point in time: its UTC wall-clock reading, and the same instant as
/// seconds and nanoseconds since the start of 1970 (UTC).
#[derive(Clone, Copy, Debug, PartialEq, Eq, Structural)]
pub struct Moment {
    pub civil: CivilDateTime,
    pub seconds: i64,
    pub nanoseconds: u32,
}

/// `Utc::now` of chrono, with the instant handed back field by field. The
/// value depends on the clock; what holds of every reading is that it is a
/// date and time of the calendar, outside a leap second, and that the
/// fraction of a second is less than a second.
#[verifier::external_body]
pub(crate) fn utc_now() -> (now: Moment)
    ensures
        now.civil.is_valid(),
        now.civil.time.nanosecond < 1_000_000_000,
        now.nanoseconds < 1_000_000_000,
{
    let now = Utc::now();
    Moment {
        civil: CivilDateTime {
            date: CivilDate { year: now.year(), month: now.month(), day: now.day() },
            time: CivilTime {
                hour: now.hour(),
                minute: now.minute(),
                second: now.second(),
                nanosecond: now.nanosecond(),
            },
        },
        seconds: now.timestamp(),
        nanoseconds: now.timestamp_subsec_nanos(),
    }
}

} // verus!
