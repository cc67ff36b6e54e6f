use vstd::prelude::*;
use std::sync::{Mutex, MutexGuard, TryLockError};

verus! {

/// std's mutual-exclusion cell, carried opaquely.
#[verifier::external_type_specification]
#[verifier::external_body]
#[verifier::reject_recursive_types(T)]
pub struct ExMutex<T: ?Sized>(Mutex<T>);

/// The scope of a held `Mutex`, which releases it when dropped.
#[verifier::external_type_specification]
#[verifier::external_body]
#[verifier::reject_recursive_types(T)]
pub struct ExMutexGuard<'a, T: ?Sized + 'a>(MutexGuard<'a, T>);

/// Relies on `Mutex::new`: an unlocked mutex that owns `t`.
pub assume_specification<T>[ Mutex::<T>::new ](t: T) -> Mutex<T>;

/// Relies on `Mutex::try_lock`: one attempt to take the mutex, which does
/// not block; `None` when it is held elsewhere. A mutex poisoned by a
/// panic in an earlier holder is taken all the same: every update of the
/// protected value is a single container operation, never half done.
#[verifier::external_body]
pub(crate) fn try_acquire<T>(m: &Mutex<T>) -> (r: Option<MutexGuard<'_, T>>) {
    match m.try_lock() {
        Ok(g) => Some(g),
        Err(TryLockError::Poisoned(p)) => Some(p.into_inner()),
        Err(TryLockError::WouldBlock) => None,
    }
}

/// Relies on `Mutex::lock`: blocks the thread until the mutex is taken.
/// A poisoned mutex is taken all the same, as in `try_acquire`. Callers
/// never hold the mutex already, on which `lock` could panic or deadlock.
#[verifier::external_body]
pub(crate) fn acquire<T>(m: &Mutex<T>) -> (r: MutexGuard<'_, T>) {
    match m.lock() {
        Ok(g) => g,
        Err(p) => p.into_inner(),
    }
}

/// Relies on `MutexGuard`'s `Deref`: the value that the held mutex protects.
#[verifier::external_body]
pub(crate) fn guarded<'b, 'a, T>(g: &'b MutexGuard<'a, T>) -> (r: &'b T) {
    g
}

/// Relies on `MutexGuard`'s `DerefMut`: the value that the held mutex
/// protects, for writing.
#[verifier::external_body]
pub(crate) fn guarded_mut<'b, 'a, T>(g: &'b mut MutexGuard<'a, T>) -> (r: &'b mut T) {
    g
}

} // verus!
