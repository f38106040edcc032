//! Calendar dates as a count of days.
use vstd::prelude::*;

verus! {

/// A calendar date, held as the number of days since 0001-01-01 of the proleptic Gregorian
/// calendar, that day being day 1. Dates are ordered as their day counts are.
#[derive(Debug, PartialEq, Eq, Clone, Copy, Hash, Structural)]
pub struct Date {
    /// Days since the start of the common era.
    pub days: i32,
}

impl Date {
    /// The date that lies `days` days into the common era.
    pub fn from_days(days: i32) -> (r: Date)
        ensures
            r.days == days,
    {
        Date { days }
    }
}

} // verus!
