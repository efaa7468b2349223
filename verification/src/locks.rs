//! The reader-writer lock of the standard library, as the registry uses it:
//! acquired without blocking, or not at all.

use std::sync::RwLock;
use std::sync::RwLockReadGuard;
use std::sync::RwLockWriteGuard;
use vstd::prelude::*;

verus! {

/// `std::sync::RwLock`, carried as an opaque value.
#[verifier::external_type_specification]
#[verifier::external_body]
#[verifier::reject_recursive_types(T)]
pub struct ExRwLock<T: ?Sized>(RwLock<T>);

/// `std::sync::RwLockReadGuard`: shared access, held until it is dropped.
#[verifier::external_type_specification]
#[verifier::external_body]
#[verifier::reject_recursive_types(T)]
pub struct ExRwLockReadGuard<'a, T: ?Sized>(RwLockReadGuard<'a, T>);

/// `std::sync::RwLockWriteGuard`: exclusive access, held until it is dropped.
#[verifier::external_type_specification]
#[verifier::external_body]
#[verifier::reject_recursive_types(T)]
pub struct ExRwLockWriteGuard<'a, T: ?Sized + 'a>(RwLockWriteGuard<'a, T>);

/// `RwLock::new`: an unlocked lock around `value`.  Nothing is claimed of the
/// lock: what it holds later depends on every thread that shares it.
#[verifier::external_body]
pub(crate) fn new_lock<T>(value: T) -> (lock: RwLock<T>) {
    RwLock::new(value)
}

/// `RwLock::try_read`: shared access if it can be had at once.  The attempt
/// never blocks; a lock that is held for writing, or poisoned, gives nothing.
/// Which of the two comes back depends on the other threads, so nothing is
/// claimed of it.
#[verifier::external_body]
pub(crate) fn try_shared<'a, T>(lock: &'a RwLock<T>) -> (guard: Option<RwLockReadGuard<'a, T>>) {
    match lock.try_read() {
        Ok(guard) => Some(guard),
        Err(_) => None,
    }
}

/// `RwLock::try_write`: exclusive access if it can be had at once.  The
/// attempt never blocks; a lock that is held, or poisoned, gives nothing.
#[verifier::external_body]
pub(crate) fn try_exclusive<'a, T>(lock: &'a RwLock<T>) -> (guard: Option<
    RwLockWriteGuard<'a, T>,
>) {
    match lock.try_write() {
        Ok(guard) => Some(guard),
        Err(_) => None,
    }
}

/// `Deref::deref` of a read guard: the value that the lock protects.
#[verifier::external_body]
pub(crate) fn held<'a, 'b, T>(guard: &'a RwLockReadGuard<'b, T>) -> (value: &'a T) {
    &**guard
}

/// `DerefMut::deref_mut` of a write guard: the place that the lock protects.
#[verifier::external_body]
pub(crate) fn held_mut<'a, 'b, T>(guard: &'a mut RwLockWriteGuard<'b, T>) -> (place: &'a mut T) {
    &mut **guard
}

} // verus!
