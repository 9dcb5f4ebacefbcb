//! The window within which an ask or a bid may be set to expire.

use vstd::prelude::*;
use crate::error::ExpiryRangeError;
use crate::types::{BlockInfo, Timestamp, NANOS_PER_SECOND};

verus! {

/// Shortest and longest time to expiry that is accepted, in seconds.
#[derive(Clone, Copy, Debug, PartialEq, Eq)]
pub struct ExpiryRange {
    pub min: u64,
    pub max: u64,
}

/// An expiry is acceptable when it lies in the future and the time from `now`
/// until it is at least `range.min` and at most `range.max` seconds.
pub open spec fn expiry_in_window(range: ExpiryRange, now: u64, proposed: u64) -> bool {
    &&& proposed > now
    &&& range.min * NANOS_PER_SECOND <= proposed - now
    &&& proposed - now <= range.max * NANOS_PER_SECOND
}

impl ExpiryRange {
    pub fn new(min: u64, max: u64) -> (r: Self)
        ensures
            r.min == min,
            r.max == max,
    {
        ExpiryRange { min, max }
    }

    /// Accepts `expires` exactly when it lies in this window, counted from the
    /// time of `block`.
    pub fn is_valid(&self, block: &BlockInfo, expires: Timestamp) -> (r: Result<
        (),
        ExpiryRangeError,
    >)
        ensures
            expiry_in_window(*self, block.time.nanos, expires.nanos) ==> r.is_ok(),
            !expiry_in_window(*self, block.time.nanos, expires.nanos) ==> r == Err::<
                (),
                ExpiryRangeError,
            >(ExpiryRangeError::InvalidExpiration),
    {
        if expires.nanos <= block.time.nanos {
            return Err(ExpiryRangeError::InvalidExpiration);
        }
        let ahead: u128 = (expires.nanos - block.time.nanos) as u128;
        let shortest: u128 = (self.min as u128) * (NANOS_PER_SECOND as u128);
        let longest: u128 = (self.max as u128) * (NANOS_PER_SECOND as u128);
        if ahead < shortest || ahead > longest {
            return Err(ExpiryRangeError::InvalidExpiration);
        }
        Ok(())
    }

    /// Accepts the range exactly when its lower bound does not exceed its
    /// upper bound.
    pub fn validate(&self) -> (r: Result<(), ExpiryRangeError>)
        ensures
            self.min <= self.max ==> r.is_ok(),
            self.min > self.max ==> r == Err::<(), ExpiryRangeError>(
                ExpiryRangeError::InvalidExpirationRange,
            ),
    {
        if self.min > self.max {
            return Err(ExpiryRangeError::InvalidExpirationRange);
        }
        Ok(())
    }
}

} // verus!
