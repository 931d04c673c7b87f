//! Handles to state that several parts of the editor share.
//!
//! A `Resource` is cheap to clone, and every clone reaches the same value.
//! The value is read or changed only inside a closure, under a lock that is
//! taken for the closure and given back after it. The lock is never waited
//! for: when it cannot be had at once, because a closure that holds it is
//! still running or because one has panicked while holding it, the access
//! fails and the closure does not run.
use vstd::prelude::*;
use std::sync::Arc;
use std::sync::RwLock;

verus! {

/// The lock: `std::sync::RwLock`.
#[verifier::external_type_specification]
#[verifier::external_body]
#[verifier::reject_recursive_types(T)]
pub struct ExRwLock<T: ?Sized>(RwLock<T>);

/// A shared value behind a lock.
#[verifier::reject_recursive_types(T)]
pub struct Resource<T>(pub Arc<RwLock<T>>);

/// Calls `RwLock::new`. Nothing is claimed of the lock: what it holds can
/// change between any two looks at it.
#[verifier::external_body]
fn lock_new<T>(value: T) -> (lock: RwLock<T>) {
    RwLock::new(value)
}

/// What holds a lock for reading: `std::sync::RwLockReadGuard`.
#[verifier::external_type_specification]
#[verifier::external_body]
#[verifier::reject_recursive_types(T)]
pub struct ExRwLockReadGuard<'a, T: ?Sized>(std::sync::RwLockReadGuard<'a, T>);

/// What holds a lock for writing: `std::sync::RwLockWriteGuard`.
#[verifier::external_type_specification]
#[verifier::external_body]
#[verifier::reject_recursive_types(T)]
pub struct ExRwLockWriteGuard<'a, T: ?Sized + 'a>(std::sync::RwLockWriteGuard<'a, T>);

/// Calls `RwLock::try_read`. Whether the lock is had depends on who holds it
/// at that moment, so nothing is claimed of the result.
#[verifier::external_body]
fn lock_try_read<T>(lock: &RwLock<T>) -> (guard: Option<std::sync::RwLockReadGuard<'_, T>>) {
    match lock.try_read() {
        Ok(guard) => Some(guard),
        Err(_) => None,
    }
}

/// Calls `RwLock::try_write`. Whether the lock is had depends on who holds
/// it at that moment, so nothing is claimed of the result.
#[verifier::external_body]
fn lock_try_write<T>(lock: &RwLock<T>) -> (guard: Option<std::sync::RwLockWriteGuard<'_, T>>) {
    match lock.try_write() {
        Ok(guard) => Some(guard),
        Err(_) => None,
    }
}

impl<T> Clone for Resource<T> {
    /// Another handle to the same value.
    fn clone(&self) -> (other: Self)
        ensures
            other == *self,
    {
        Self(self.0.clone())
    }
}

impl<T: Default> Default for Resource<T> {
    /// A handle to the default value of the type.
    fn default() -> (resource: Self) {
        Self::new(T::default())
    }
}

impl<T> Resource<T> {
    /// A handle to `value`, which from now on is reached through the handle
    /// and its clones alone.
    pub fn new(value: T) -> (resource: Self) {
        Self(Arc::new(lock_new(value)))
    }

    /// Runs `f` on the value, for reading. `f` must accept every value of
    /// the type, since the value is whatever the last writer left. The
    /// result of `f` is returned; nothing is returned, and `f` does not run,
    /// when the lock cannot be had.
    pub fn read_resource<R, F: FnOnce(&T) -> R>(&self, f: F) -> (result: Option<R>)
        requires
            forall|t: &T| f.requires((t,)),
        ensures
            result matches Some(r) ==> exists|t: &T| f.ensures((t,), r),
    {
        read_under(lock_try_read(&self.0), f)
    }

    /// Runs `f` on the value, for changing it. `f` must accept every value
    /// of the type. The result of `f` is returned; nothing is returned, and
    /// `f` does not run, when the lock cannot be had.
    pub fn with_resource<R, F: FnOnce(&mut T) -> R>(&self, f: F) -> (result: Option<R>)
        requires
            forall|t: &mut T| f.requires((t,)),
        ensures
            result matches Some(r) ==> exists|t: &mut T| f.ensures((t,), r),
    {
        write_under(lock_try_write(&self.0), f)
    }
}

/// Calls `Deref::deref` on a read guard. Which value the lock holds is not
/// known, so nothing is claimed of the result.
#[verifier::external_body]
fn guard_value<'a, T>(guard: &'a std::sync::RwLockReadGuard<'_, T>) -> (value: &'a T) {
    std::ops::Deref::deref(guard)
}

/// Calls `DerefMut::deref_mut` on a write guard. Which value the lock holds
/// is not known, so nothing is claimed of the result.
#[verifier::external_body]
fn guard_value_mut<'a, T>(guard: &'a mut std::sync::RwLockWriteGuard<'_, T>) -> (value: &'a mut T) {
    std::ops::DerefMut::deref_mut(guard)
}

/// What an attempt to read comes to, given what the attempt to take the lock
/// gave: with no guard nothing is returned and `f` does not run; with a guard
/// `f` runs once, on the value under the guard, and its result is returned.
/// The lock is given back when the guard is dropped, at the end of the call.
pub fn read_under<T, R, F: FnOnce(&T) -> R>(
    guard: Option<std::sync::RwLockReadGuard<'_, T>>,
    f: F,
) -> (result: Option<R>)
    requires
        forall|t: &T| f.requires((t,)),
    ensures
        guard is None ==> result is None,
        guard is Some ==> result is Some,
        result matches Some(r) ==> exists|t: &T| #[trigger] f.ensures((t,), r),
{
    match guard {
        Some(guard) => {
            let value = guard_value(&guard);
            let r = f(value);
            let result = Some(r);
            assert(f.ensures((value,), r) && result->0 == r);
            result
        },
        None => None,
    }
}

/// What an attempt to write comes to, given what the attempt to take the lock
/// gave: with no guard nothing is returned and `f` does not run; with a guard
/// `f` runs once, on the value under the guard, and its result is returned.
/// The lock is given back when the guard is dropped, at the end of the call.
pub fn write_under<T, R, F: FnOnce(&mut T) -> R>(
    guard: Option<std::sync::RwLockWriteGuard<'_, T>>,
    f: F,
) -> (result: Option<R>)
    requires
        forall|t: &mut T| f.requires((t,)),
    ensures
        guard is None ==> result is None,
        guard is Some ==> result is Some,
        result matches Some(r) ==> exists|t: &mut T| #[trigger] f.ensures((t,), r),
{
    match guard {
        Some(mut guard) => {
            let value = guard_value_mut(&mut guard);
            let r = f(value);
            let result = Some(r);
            assert(exists|t: &mut T| #[trigger] f.ensures((t,), r));
            assert(result->0 == r);
            result
        },
        None => None,
    }
}

} // verus!
