use vstd::prelude::*;
use std::sync::{Mutex, MutexGuard};
use crate::guarded::{guarded, guarded_mut, try_acquire};
use crate::backoff::{Acquisition, Backoff};
use crate::metrics::LockMetrics;

verus! {

/// A busy-wait lock around a payload, with contention telemetry.
///
/// The payload sits in a `Mutex` that is only ever taken with `try_lock`,
/// one attempt that never blocks: the mutex's state is the lock's flag, and
/// all waiting is the caller's spinning. Dropping the guard releases the
/// flag, on every exit path, unwinding included.
#[verifier::reject_recursive_types(T)]
pub struct SpinLock<T> {
    data: Mutex<T>,
    pub metrics: LockMetrics,
}

/// Exclusive access to a lock's payload, for as long as it lives.
#[verifier::reject_recursive_types(T)]
pub struct SpinGuard<'a, T> {
    guard: MutexGuard<'a, T>,
}

impl<T> SpinLock<T> {
    /// An unlocked lock around `data`, with all counters at zero.
    pub fn new(data: T) -> (r: SpinLock<T>) {
        SpinLock { data: Mutex::new(data), metrics: LockMetrics::new() }
    }

    /// One exchange attempt on the flag: a guard if the lock was free,
    /// `None` if another guard holds it. Records nothing.
    pub fn try_lock(&self) -> (r: Option<SpinGuard<'_, T>>) {
        match try_acquire(&self.data) {
            Some(g) => Some(SpinGuard { guard: g }),
            None => None,
        }
    }

    /// Closes an acquisition that has just succeeded after the failed
    /// exchanges counted in `backoff` and `wait_ns` nanoseconds of waiting:
    /// classifies it and records it into the metrics.
    pub fn acquired(&self, backoff: &Backoff, wait_ns: u64) -> (r: Acquisition)
        ensures
            r == backoff.acquisition(wait_ns),
    {
        let a = backoff.finish(wait_ns);
        self.metrics.record_acquisition(a);
        a
    }
}

impl<'a, T> SpinGuard<'a, T> {
    /// The payload, for reading.
    pub fn get(&self) -> (r: &T) {
        guarded(&self.guard)
    }

    /// The payload, for writing.
    pub fn get_mut(&mut self) -> (r: &mut T) {
        guarded_mut(&mut self.guard)
    }
}

impl<'a, T> std::ops::Deref for SpinGuard<'a, T> {
    type Target = T;

    fn deref(&self) -> (r: &T) {
        self.get()
    }
}

impl<'a, T> std::ops::DerefMut for SpinGuard<'a, T> {
    fn deref_mut(&mut self) -> (r: &mut T) {
        self.get_mut()
    }
}

} // verus!
