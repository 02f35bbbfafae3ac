//! Exclusive access to shared state: `std::sync::Mutex`, as far as the
//! cache uses it.

use std::sync::Mutex;
use std::sync::MutexGuard;
use vstd::prelude::*;

verus! {

/// `std::sync::Mutex`, opaque: what it guards is seen only through a guard.
#[verifier::external_type_specification]
#[verifier::external_body]
#[verifier::reject_recursive_types(T)]
pub struct ExMutex<T: ?Sized>(std::sync::Mutex<T>);

/// `std::sync::MutexGuard`, opaque. Dropping it releases the lock.
#[verifier::external_type_specification]
#[verifier::external_body]
#[verifier::reject_recursive_types(T)]
pub struct ExMutexGuard<'a, T: ?Sized + 'a>(std::sync::MutexGuard<'a, T>);

/// `Mutex::new` wraps a value in an unlocked mutex. The mutex is opaque,
/// so nothing is claimed of it.
pub assume_specification<T>[ std::sync::Mutex::<T>::new ](value: T) -> (mutex: Mutex<T>);

/// `Mutex::lock` waits until the lock is free and takes it. A lock that
/// was poisoned by a panic of an earlier holder is taken all the same.
/// Nothing is claimed of what the mutex guards: other holders may have
/// changed it.
#[verifier::external_body]
pub(crate) fn lock<T>(mutex: &Mutex<T>) -> (guard: MutexGuard<'_, T>) {
    match mutex.lock() {
        Ok(guard) => guard,
        Err(poisoned) => poisoned.into_inner(),
    }
}

/// `DerefMut::deref_mut` of a guard: the guarded value, for as long as the
/// guard is borrowed. Nothing is claimed of the value.
#[verifier::external_body]
pub(crate) fn guarded<'a, 'b, T>(guard: &'a mut MutexGuard<'b, T>) -> (value: &'a mut T) {
    std::ops::DerefMut::deref_mut(guard)
}

} // verus!
