//! The wall clock, in whole seconds since the Unix epoch.
use std::time::{Duration, SystemTimeError};
use vstd::prelude::*;

verus! {

#[verifier::external_type_specification]
#[verifier::external_body]
pub struct ExSystemTimeError(SystemTimeError);

/// Calls `SystemTime::elapsed` on `UNIX_EPOCH`, that is the time from the
/// epoch to now. Nothing is claimed of it: it reads the clock, and it errs
/// where the clock reads before the epoch.
#[verifier::external_body]
fn elapsed_since_unix_epoch() -> (res: Result<Duration, SystemTimeError>) {
    std::time::UNIX_EPOCH.elapsed()
}

/// `Duration::as_secs`, the whole seconds of a duration; nothing is
/// claimed of it, as Verus sees no inside of a `Duration`.
pub assume_specification[ Duration::as_secs ](d: &Duration) -> u64;

/// The current time in whole seconds since the Unix epoch; `None` where the
/// clock reads before the epoch.
pub fn now_unix_secs() -> (res: Option<u64>) {
    match elapsed_since_unix_epoch() {
        Ok(d) => Some(d.as_secs()),
        Err(_) => None,
    }
}

} // verus!
