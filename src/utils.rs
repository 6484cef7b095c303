//! Shared, lock-guarded handles to values that many owners use: the device
//! and the memory allocator.
use vstd::prelude::*;

use std::sync::{Arc, Mutex, MutexGuard, RwLock, RwLockReadGuard, RwLockWriteGuard};

verus! {

#[verifier::external_type_specification]
#[verifier::external_body]
#[verifier::reject_recursive_types(T)]
pub struct ExMutex<T: ?Sized>(Mutex<T>);

#[verifier::external_type_specification]
#[verifier::external_body]
#[verifier::reject_recursive_types(T)]
pub struct ExMutexGuard<'a, T: ?Sized + 'a>(MutexGuard<'a, T>);

#[verifier::external_type_specification]
#[verifier::external_body]
#[verifier::reject_recursive_types(T)]
pub struct ExRwLock<T: ?Sized>(RwLock<T>);

#[verifier::external_type_specification]
#[verifier::external_body]
#[verifier::reject_recursive_types(T)]
pub struct ExRwLockReadGuard<'a, T: ?Sized>(RwLockReadGuard<'a, T>);

#[verifier::external_type_specification]
#[verifier::external_body]
#[verifier::reject_recursive_types(T)]
pub struct ExRwLockWriteGuard<'a, T: ?Sized + 'a>(RwLockWriteGuard<'a, T>);

/// Relies on std::sync::Mutex::new: a lock around `value`.
#[verifier::external_body]
fn new_mutex<T>(value: T) -> Mutex<T> {
    Mutex::new(value)
}

/// Relies on std::sync::Mutex::lock: blocks until the lock is held; a lock
/// that a panicking holder poisoned is entered all the same.
#[verifier::external_body]
fn lock_mutex<T>(m: &Mutex<T>) -> MutexGuard<'_, T> {
    m.lock().unwrap_or_else(|poisoned| poisoned.into_inner())
}

/// Relies on std::sync::RwLock::new: a read/write lock around `value`.
#[verifier::external_body]
fn new_rw_lock<T>(value: T) -> RwLock<T> {
    RwLock::new(value)
}

/// Relies on std::sync::RwLock::read: blocks until shared access is held; a
/// poisoned lock is entered all the same.
#[verifier::external_body]
fn read_rw_lock<T>(l: &RwLock<T>) -> RwLockReadGuard<'_, T> {
    l.read().unwrap_or_else(|poisoned| poisoned.into_inner())
}

/// Relies on std::sync::RwLock::write: blocks until exclusive access is held;
/// a poisoned lock is entered all the same.
#[verifier::external_body]
fn write_rw_lock<T>(l: &RwLock<T>) -> RwLockWriteGuard<'_, T> {
    l.write().unwrap_or_else(|poisoned| poisoned.into_inner())
}

/// Relies on std::sync::Arc's Clone: one more owner of the same value.
#[verifier::external_body]
fn share<T>(a: &Arc<T>) -> Arc<T> {
    Arc::clone(a)
}

/// A reference-counted value behind a mutual-exclusion lock.
#[derive(Debug)]
#[verifier::reject_recursive_types(T)]
pub struct ThreadSafeRef<T>(Arc<Mutex<T>>);

impl<T> ThreadSafeRef<T> {
    pub fn new(value: T) -> Self {
        ThreadSafeRef(Arc::new(new_mutex(value)))
    }

    /// Exclusive access, for as long as the guard lives.
    pub fn lock(&self) -> MutexGuard<'_, T> {
        lock_mutex(&self.0)
    }

    /// The shared lock itself.
    pub fn into_inner(self) -> Arc<Mutex<T>> {
        self.0
    }
}

/// A reference-counted value behind a read/write lock: shared access for
/// most calls, exclusive access for creation and destruction.
#[derive(Debug)]
#[verifier::reject_recursive_types(T)]
pub struct ThreadSafeRwRef<T>(Arc<RwLock<T>>);

impl<T> ThreadSafeRwRef<T> {
    pub fn new(value: T) -> Self {
        ThreadSafeRwRef(Arc::new(new_rw_lock(value)))
    }

    /// Shared access, for as long as the guard lives.
    pub fn read(&self) -> RwLockReadGuard<'_, T> {
        read_rw_lock(&self.0)
    }

    /// Exclusive access, for as long as the guard lives.
    pub fn write(&self) -> RwLockWriteGuard<'_, T> {
        write_rw_lock(&self.0)
    }

    /// The shared lock itself.
    pub fn into_inner(self) -> Arc<RwLock<T>> {
        self.0
    }
}

impl<T> Clone for ThreadSafeRef<T> {
    /// Another handle to the same value.
    fn clone(&self) -> Self {
        ThreadSafeRef(share(&self.0))
    }
}

impl<T> Clone for ThreadSafeRwRef<T> {
    /// Another handle to the same value.
    fn clone(&self) -> Self {
        ThreadSafeRwRef(share(&self.0))
    }
}

} // verus!
