use std::time::{Duration, SystemTime, SystemTimeError};
use vstd::prelude::*;

verus! {

/// `std::time::SystemTime`, a point of the wall clock. It is carried
/// through and never looked into.
#[verifier::external_type_specification]
#[verifier::external_body]
pub struct ExSystemTime(SystemTime);

/// `std::time::SystemTimeError`, what `duration_since` fails with.
#[verifier::external_type_specification]
#[verifier::external_body]
pub struct ExSystemTimeError(SystemTimeError);

/// `SystemTime::now`: the wall clock's present reading. Nothing is claimed
/// of it: two readings need not even be in order.
pub assume_specification[ SystemTime::now ]() -> (now: SystemTime)
;

/// `SystemTime::duration_since`: the time from `earlier` to `later`, or an
/// error where `earlier` is the later of the two. Nothing is claimed of
/// which it is.
pub assume_specification[ SystemTime::duration_since ](later: &SystemTime, earlier: SystemTime) -> (elapsed: Result<Duration, SystemTimeError>)
;

/// `Duration::as_millis`: the whole milliseconds of a duration.
pub assume_specification[ Duration::as_millis ](elapsed: &Duration) -> (millis: u128)
;

/// `std::hint::spin_loop`: tells the processor that the caller is waiting
/// in a loop. It changes nothing that the program can see.
pub assume_specification[ std::hint::spin_loop ]()
;

/// `SystemTime::UNIX_EPOCH`, the point from which a generator without an
/// epoch of its own counts.
#[verifier::external_body]
pub(crate) fn unix_epoch() -> (epoch: SystemTime) {
    SystemTime::UNIX_EPOCH
}

} // verus!
