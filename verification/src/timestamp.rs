//! Instants on the UTC time line.

use vstd::prelude::*;

use crate::clock::{is_clock_reading, ClockReading};

verus! {

/// An instant, as nanoseconds since the Unix epoch (1970-01-01 00:00 UTC).
#[derive(Clone, Copy, Debug, PartialEq, Eq, Structural, PartialOrd, Ord, Hash)]
pub struct Timestamp {
    unix_nanos: i128,
}

impl View for Timestamp {
    type V = int;

    closed spec fn view(&self) -> int {
        self.unix_nanos as int
    }
}

/// Nanoseconds in one day.
pub const NANOS_PER_DAY: i128 = 86_400_000_000_000;

impl Timestamp {
    /// The instant `unix_nanos` nanoseconds after the Unix epoch.
    pub fn from_unix_nanos(unix_nanos: i128) -> (r: Timestamp)
        ensures
            r@ == unix_nanos,
    {
        Timestamp { unix_nanos }
    }

    /// Nanoseconds since the Unix epoch.
    pub fn unix_nanos(&self) -> (r: i128)
        ensures
            r == self@,
    {
        self.unix_nanos
    }

    /// The current instant, read from the system clock.
    pub fn now() -> (r: Timestamp)
        ensures
            is_clock_reading(r@),
    {
        ClockReading::read().instant()
    }
}

} // verus!
