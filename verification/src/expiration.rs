//! Expiration times of short URLs: not in the past, not too far ahead.

use vstd::prelude::*;

use crate::clock::is_clock_reading;
use crate::timestamp::{Timestamp, NANOS_PER_DAY};

verus! {

/// Longest lifetime a short URL may be given, in days (ten years of 365 days).
pub const MAX_TTL_DAYS: i128 = 3650;

/// Longest lifetime a short URL may be given, in nanoseconds.
pub const MAX_TTL_NANOS: i128 = MAX_TTL_DAYS * NANOS_PER_DAY;

/// Why an expiration time was refused.
#[derive(Clone, Copy, Debug, PartialEq, Eq, Structural)]
pub enum ExpirationTimeValidationError {
    TooFarInFuture { max_time: Timestamp },
    InPast,
}

/// An accepted expiration time.
#[derive(Clone, Copy, Debug, PartialEq, Eq, Structural, PartialOrd, Ord, Hash)]
pub struct ExpirationTime {
    inner: Timestamp,
}

impl View for ExpirationTime {
    type V = int;

    closed spec fn view(&self) -> int {
        self.inner@
    }
}

/// `proposed` is acceptable as an expiration time when the clock reads `now`.
pub open spec fn expiration_accepts(proposed: int, now: int) -> bool {
    now <= proposed <= now + MAX_TTL_NANOS
}

/// `e` is the refusal of `proposed` when the clock reads `now`: in the past if
/// it is before `now`, otherwise too far ahead, naming `now` plus the longest
/// lifetime as the latest acceptable instant.
pub open spec fn expiration_error_matches(
    e: ExpirationTimeValidationError,
    proposed: int,
    now: int,
) -> bool {
    match e {
        ExpirationTimeValidationError::InPast => proposed < now,
        ExpirationTimeValidationError::TooFarInFuture { max_time } => {
            &&& now <= proposed
            &&& max_time@ == now + MAX_TTL_NANOS
            &&& max_time@ < proposed
        },
    }
}

/// `r` is what validating `proposed` gives when the clock reads `now`.
pub open spec fn expiration_result_matches(
    r: Result<ExpirationTime, ExpirationTimeValidationError>,
    proposed: int,
    now: int,
) -> bool {
    match r {
        Ok(e) => expiration_accepts(proposed, now) && e@ == proposed,
        Err(e) => !expiration_accepts(proposed, now) && expiration_error_matches(e, proposed, now),
    }
}

impl ExpirationTime {
    /// Validates `proposed_time` against the instant `now`.
    pub fn validate_at(proposed_time: Timestamp, now: Timestamp) -> (r: Result<
        Self,
        ExpirationTimeValidationError,
    >)
        ensures
            expiration_result_matches(r, proposed_time@, now@),
    {
        let proposed = proposed_time.unix_nanos();
        let now_nanos = now.unix_nanos();
        if proposed < now_nanos {
            return Err(ExpirationTimeValidationError::InPast);
        }
        match now_nanos.checked_add(MAX_TTL_NANOS) {
            Some(max_nanos) => {
                if proposed > max_nanos {
                    return Err(
                        ExpirationTimeValidationError::TooFarInFuture {
                            max_time: Timestamp::from_unix_nanos(max_nanos),
                        },
                    );
                }
            },
            None => {},
        }
        Ok(ExpirationTime { inner: proposed_time })
    }

    /// Validates `proposed_time` against the current instant: it must not be
    /// in the past, nor more than `MAX_TTL_DAYS` days ahead.
    pub fn new(proposed_time: Timestamp) -> (r: Result<Self, ExpirationTimeValidationError>)
        ensures
            exists|now: int|
                is_clock_reading(now) && #[trigger] expiration_result_matches(r, proposed_time@, now),
    {
        let now = Timestamp::now();
        Self::validate_at(proposed_time, now)
    }

    /// The accepted instant.
    pub fn into_inner(self) -> (r: Timestamp)
        ensures
            r@ == self@,
    {
        self.inner
    }
}

/// Validation against the instant `now` accepts exactly the instants from
/// `now` to ten years of 365 days after it, keeping the instant; an earlier
/// one is refused as in the past, and a later one as too far ahead, naming
/// `now` plus ten years as the latest acceptable instant.
pub proof fn lemma_expiration_window(
    r: Result<ExpirationTime, ExpirationTimeValidationError>,
    proposed: int,
    now: int,
)
    requires
        expiration_result_matches(r, proposed, now),
    ensures
        now <= proposed <= now + 3650 * 86_400_000_000_000 ==> (r matches Ok(e) && e@ == proposed),
        proposed < now ==> r == Err::<ExpirationTime, ExpirationTimeValidationError>(
            ExpirationTimeValidationError::InPast,
        ),
        proposed > now + 3650 * 86_400_000_000_000 ==> (r matches Err(
            ExpirationTimeValidationError::TooFarInFuture { max_time },
        ) && max_time@ == now + 3650 * 86_400_000_000_000),
{
}

} // verus!
