//! The system clock.

use vstd::prelude::*;

use crate::timestamp::Timestamp;

verus! {

/// Reads the system clock: `time::OffsetDateTime::now_utc()`, taken as
/// nanoseconds since the Unix epoch.  Nothing is promised of the value: it is
/// whatever the clock says at the moment of the call.
#[verifier::external_body]
fn clock_unix_nanos() -> i128 {
    ::time::OffsetDateTime::now_utc().unix_timestamp_nanos()
}

/// One reading of the system clock.  Only `ClockReading::read` makes one, so
/// the instant of a `ClockReading` is an instant that the clock gave.
#[derive(Clone, Copy, Debug)]
pub struct ClockReading {
    instant: Timestamp,
}

impl View for ClockReading {
    type V = int;

    closed spec fn view(&self) -> int {
        self.instant@
    }
}

/// `t` is an instant that the system clock gave: the instant of some
/// `ClockReading`.
pub open spec fn is_clock_reading(t: int) -> bool {
    exists|c: ClockReading| #[trigger] c@ == t
}

impl ClockReading {
    /// Reads the system clock.
    pub fn read() -> (r: ClockReading) {
        ClockReading { instant: Timestamp::from_unix_nanos(clock_unix_nanos()) }
    }

    /// The instant that the clock gave.
    pub fn instant(&self) -> (r: Timestamp)
        ensures
            r@ == self@,
            is_clock_reading(r@),
    {
        let r = self.instant;
        assert((*self)@ == r@);
        r
    }
}

} // verus!
