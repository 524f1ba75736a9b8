//! The boundary to the reader/writer lock.
//!
//! Nothing in this module is proved, and nothing is claimed of the value
//! under the lock: between two acquisitions any other holder may have been
//! at it.

use parking_lot::{RwLock, RwLockReadGuard, RwLockWriteGuard};
use vstd::prelude::*;

verus! {

/// `lock_api::RwLock`: a value that many may read or one may change.
#[verifier::external_type_specification]
#[verifier::external_body]
#[verifier::reject_recursive_types(R)]
#[verifier::reject_recursive_types(T)]
pub struct ExRwLock<R, T: ?Sized>(parking_lot::lock_api::RwLock<R, T>);

/// `parking_lot::RawRwLock`: the lock without the value.
#[verifier::external_type_specification]
#[verifier::external_body]
pub struct ExRawRwLock(parking_lot::RawRwLock);

/// Shared access, held until this is dropped: a
/// `parking_lot::RwLockReadGuard`. The guard's type is bound by a trait of
/// `lock_api`, which Verus does not know, so the guard is held in a struct
/// that Verus does not look into.
#[verifier::external_body]
#[verifier::reject_recursive_types(T)]
pub struct ReadGuard<'a, T>(RwLockReadGuard<'a, T>);

/// Exclusive access, held until this is dropped: a
/// `parking_lot::RwLockWriteGuard`, kept from Verus as the read guard is.
#[verifier::external_body]
#[verifier::reject_recursive_types(T)]
pub struct WriteGuard<'a, T>(RwLockWriteGuard<'a, T>);

/// `lock_api::RwLock::new`: an unlocked lock around `value`.
#[verifier::external_body]
pub(crate) fn new_lock<T>(value: T) -> (lock: RwLock<T>) {
    RwLock::new(value)
}

/// `lock_api::RwLock::read`: blocks until no writer holds the lock.
#[verifier::external_body]
pub(crate) fn acquire_read<'a, T>(lock: &'a RwLock<T>) -> (guard: ReadGuard<'a, T>) {
    ReadGuard(lock.read())
}

/// `lock_api::RwLock::write`: blocks until nobody else holds the lock.
#[verifier::external_body]
pub(crate) fn acquire_write<'a, T>(lock: &'a RwLock<T>) -> (guard: WriteGuard<'a, T>) {
    WriteGuard(lock.write())
}

/// `Deref::deref` of the read guard: the value under the lock.
#[verifier::external_body]
pub(crate) fn read_access<'a, 'b, T>(guard: &'a ReadGuard<'b, T>) -> (value: &'a T) {
    &guard.0
}

/// `DerefMut::deref_mut` of the write guard: the value under the lock.
#[verifier::external_body]
pub(crate) fn write_access<'a, 'b, T>(guard: &'a mut WriteGuard<'b, T>) -> (value: &'a mut T) {
    &mut guard.0
}

} // verus!
