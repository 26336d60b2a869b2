//! The ledger's clock and guards on time windows. The time is handed in by
//! the caller on every call; nothing here remembers it.

use vstd::prelude::*;
use crate::errors::CommonError;

verus! {

/// The ledger's notion of the present.
#[derive(Clone, Copy, Debug, PartialEq, Eq, Structural)]
pub struct Clock {
    /// Current slot.
    pub slot: u64,
    /// Current time in seconds since the Unix epoch.
    pub unix_timestamp: i64,
}

/// `now` lies in the window from `start` to `end`, both ends included.
pub open spec fn within_window(now: i64, start: i64, end: i64) -> bool {
    start <= now <= end
}

/// Succeeds exactly when the clock's time lies in `[start, end]`.
pub fn assert_within_window(clock: &Clock, start: i64, end: i64) -> (r: Result<(), CommonError>)
    ensures
        match r {
            Ok(()) => within_window(clock.unix_timestamp, start, end),
            Err(e) => e == CommonError::TimestampInvalid && !within_window(
                clock.unix_timestamp,
                start,
                end,
            ),
        },
{
    let now = clock.unix_timestamp;
    if !(now >= start) {
        return Err(CommonError::TimestampInvalid);
    }
    if !(now <= end) {
        return Err(CommonError::TimestampInvalid);
    }
    Ok(())
}

/// Succeeds exactly when the clock's time is not after `end`.
pub fn assert_not_expired(clock: &Clock, end: i64) -> (r: Result<(), CommonError>)
    ensures
        match r {
            Ok(()) => clock.unix_timestamp <= end,
            Err(e) => e == CommonError::TimestampInvalid && clock.unix_timestamp > end,
        },
{
    let now = clock.unix_timestamp;
    if !(now <= end) {
        return Err(CommonError::TimestampInvalid);
    }
    Ok(())
}

/// Succeeds exactly when the clock's time is not before `start`.
pub fn assert_started(clock: &Clock, start: i64) -> (r: Result<(), CommonError>)
    ensures
        match r {
            Ok(()) => clock.unix_timestamp >= start,
            Err(e) => e == CommonError::TimestampInvalid && clock.unix_timestamp < start,
        },
{
    let now = clock.unix_timestamp;
    if !(now >= start) {
        return Err(CommonError::TimestampInvalid);
    }
    Ok(())
}

} // verus!
