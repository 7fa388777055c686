//! A distributor shared between threads: reference-counted, behind one lock.
//!
//! Whoever holds the lock has the distributor to itself. What the distributor
//! holds when the lock is taken depends on what other threads did before, so
//! nothing is known of it then.

use crate::distributor::Distributor;
use std::sync::Arc;
use std::sync::Mutex;
use std::sync::MutexGuard;
use vstd::prelude::*;

verus! {

#[verifier::external_type_specification]
#[verifier::external_body]
#[verifier::reject_recursive_types(T)]
pub struct ExMutex<T: ?Sized>(Mutex<T>);

#[verifier::external_type_specification]
#[verifier::external_body]
#[verifier::reject_recursive_types(T)]
pub struct ExMutexGuard<'a, T: ?Sized + 'a>(MutexGuard<'a, T>);

/// `Mutex::new`: a lock around `value`. Nothing is claimed of it.
#[verifier::external_body]
fn lock_around<T>(value: T) -> (lock: Mutex<T>) {
    Mutex::new(value)
}

/// `Mutex::lock`: waits until the lock is free and takes it. A lock that a
/// panicking thread left behind is taken all the same. Nothing is claimed of
/// what the lock guards. A thread that holds the lock already does not come
/// back from the call; no function of this library calls it with the lock
/// held.
#[verifier::external_body]
pub(crate) fn acquire<'a, T>(lock: &'a Mutex<T>) -> (guard: MutexGuard<'a, T>) {
    match lock.lock() {
        Ok(guard) => guard,
        Err(poisoned) => poisoned.into_inner(),
    }
}

/// `DerefMut::deref_mut` of a guard: the guarded value, for as long as the
/// guard is borrowed. Nothing is claimed of it.
#[verifier::external_body]
pub(crate) fn guarded<'a, 'b, T>(guard: &'a mut MutexGuard<'b, T>) -> (value: &'a mut T) {
    &mut **guard
}

/// Puts `distributor` behind a lock and returns the first handle to it.
pub(crate) fn share(distributor: Distributor) -> (handle: Arc<Mutex<Distributor>>) {
    Arc::new(lock_around(distributor))
}

} // verus!
