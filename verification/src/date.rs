//! Calendar dates as plain values.
use vstd::prelude::*;

verus! {

/// A calendar date (proleptic Gregorian), as year, month (1–12) and day
/// of the month.
#[derive(Clone, Copy, Debug, PartialEq, Eq, Structural)]
pub struct Date {
    pub year: i32,
    pub month: u32,
    pub day: u32,
}

} // verus!
