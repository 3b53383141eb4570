//! Trusted shims over the blocking primitives of `std::sync`.
//!
//! vstd gives no specification for `Mutex`, `MutexGuard`, `Condvar` or
//! `fence`, so this module declares the types and wraps the one call each
//! wrapper needs. The contents of a mutex are shared mutable state that
//! other threads race on, so no contract relates one access to the next;
//! the sleep coordinator's correctness argument lives in the protocol
//! around these calls, not in them.
use vstd::prelude::*;

use std::sync::Condvar;
use std::sync::Mutex;
use std::sync::MutexGuard;
use std::sync::atomic::Ordering;

verus! {

#[verifier::external_type_specification]
#[verifier::external_body]
#[verifier::reject_recursive_types(T)]
pub struct ExMutex<T: ?Sized>(Mutex<T>);

#[verifier::external_type_specification]
#[verifier::external_body]
#[verifier::reject_recursive_types(T)]
pub struct ExMutexGuard<'a, T: ?Sized + 'a>(MutexGuard<'a, T>);

#[verifier::external_type_specification]
#[verifier::external_body]
pub struct ExCondvar(Condvar);

/// Relies on std::sync::Mutex::new: makes a fresh, unlocked mutex holding
/// `value`.
#[verifier::external_body]
pub(crate) fn mutex_new(value: bool) -> Mutex<bool> {
    Mutex::new(value)
}

/// Relies on std::sync::Mutex::lock: blocks until the lock is held and
/// hands the guard back. It panics only when another thread panicked while
/// holding this lock; the verified holders of the library's locks do not
/// panic.
#[verifier::external_body]
pub(crate) fn mutex_lock<'a>(m: &'a Mutex<bool>) -> MutexGuard<'a, bool> {
    m.lock().unwrap()
}

/// Relies on std::sync::MutexGuard's Deref: reads the flag under the lock.
#[verifier::external_body]
pub(crate) fn guard_get(g: &MutexGuard<'_, bool>) -> bool {
    **g
}

/// Relies on std::sync::MutexGuard's DerefMut: writes the flag under the
/// lock.
#[verifier::external_body]
pub(crate) fn guard_set(g: &mut MutexGuard<'_, bool>, value: bool) {
    **g = value;
}

/// Relies on std::sync::Condvar::new.
#[verifier::external_body]
pub(crate) fn condvar_new() -> Condvar {
    Condvar::new()
}

/// Relies on std::sync::Condvar::wait: releases the guard's lock while
/// blocked and reacquires it before returning. Wakeups may be spurious, so
/// every caller rechecks its condition. Panics only under the poisoning of
/// `mutex_lock`.
#[verifier::external_body]
pub(crate) fn condvar_wait<'a>(cv: &Condvar, g: MutexGuard<'a, bool>) -> MutexGuard<'a, bool> {
    cv.wait(g).unwrap()
}

/// Relies on std::sync::Condvar::notify_one: wakes one waiter, if any.
#[verifier::external_body]
pub(crate) fn condvar_notify_one(cv: &Condvar) {
    cv.notify_one();
}

/// Relies on std::sync::Condvar::notify_all: wakes every waiter.
#[verifier::external_body]
pub(crate) fn condvar_notify_all(cv: &Condvar) {
    cv.notify_all();
}

/// Relies on std::sync::atomic::fence with sequentially consistent
/// ordering: orders the caller's preceding memory operations before its
/// following ones, globally.
#[verifier::external_body]
pub(crate) fn fence_seqcst() {
    std::sync::atomic::fence(Ordering::SeqCst);
}

} // verus!
