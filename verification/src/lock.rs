use crate::bowl::{Bowl, BowlView};
use std::ops::DerefMut;
use std::sync::{LockResult, Mutex, MutexGuard, PoisonError};
use vstd::prelude::*;

verus! {

/// `std::sync::Mutex`, a lock around a value. What it holds at a given
/// moment is not known to a thread that does not hold the lock.
#[verifier::external_type_specification]
#[verifier::external_body]
#[verifier::reject_recursive_types(T)]
pub struct ExMutex<T: ?Sized>(Mutex<T>);

/// `std::sync::MutexGuard`, the held lock: while it lives, no other thread
/// reaches the value.
#[verifier::external_type_specification]
#[verifier::external_body]
#[verifier::reject_recursive_types(T)]
pub struct ExMutexGuard<'a, T: ?Sized + 'a>(MutexGuard<'a, T>);

/// `std::sync::PoisonError`, what `lock` fails with after a holder of the
/// lock panicked.
#[verifier::external_type_specification]
#[verifier::external_body]
#[verifier::reject_recursive_types(T)]
pub struct ExPoisonError<T>(PoisonError<T>);

/// The state of the bowl that `lock` was made around by `Mutex::new`. It
/// is what the lock held when it was new, not what it holds now: a holder
/// of the lock may have moved the bowl on since.
pub uninterp spec fn made_around(lock: Mutex<Bowl>) -> BowlView;

/// Calls `Mutex::new`: a new lock, not held, around `bowl`.
///
/// Believed, not proved: the lock is made around `bowl`.
#[verifier::external_body]
pub(crate) fn lock_around(bowl: Bowl) -> (lock: Mutex<Bowl>)
    ensures
        made_around(lock) == bowl@,
{
    Mutex::new(bowl)
}

/// `Mutex::lock`: waits for the lock and takes it, or fails where the lock
/// is poisoned. Nothing is claimed of which it is.
pub assume_specification<T: ?Sized>[ Mutex::<T>::lock ](lock: &Mutex<T>) -> (held: LockResult<
    MutexGuard<'_, T>,
>)
;

/// Calls `DerefMut::deref_mut` of a held lock: the value under the lock.
/// Nothing is claimed of the value: other holders may have changed it.
#[verifier::external_body]
pub(crate) fn held_value<'a, 'b, T>(held: &'a mut MutexGuard<'b, T>) -> (value: &'a mut T) {
    held.deref_mut()
}

} // verus!
