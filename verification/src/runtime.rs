//! What the surroundings hand in, made safe to use.

use vstd::prelude::*;

verus! {

/// What a lock gives access to, whether or not a holder of it has failed before: a failure
/// anywhere must not make every later use of the lock fail.
pub fn lockd<T>(outcome: Result<T, T>) -> (r: T)
    ensures
        outcome matches Ok(guard) ==> r == guard,
        outcome matches Err(guard) ==> r == guard,
{
    match outcome {
        Ok(guard) => guard,
        Err(guard) => guard,
    }
}

/// The time in seconds since the epoch, and zero on a clock that stands before it.
pub fn now_ts(since_epoch: Option<u64>) -> (r: u64)
    ensures
        since_epoch matches Some(seconds) ==> r == seconds,
        since_epoch is None ==> r == 0,
{
    match since_epoch {
        Some(seconds) => seconds,
        None => 0,
    }
}

} // verus!
