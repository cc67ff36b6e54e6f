use vstd::prelude::*;
use std::sync::atomic::{AtomicU64, Ordering};
use crate::backoff::{Acquisition, Backoff};

verus! {

/// The contention statistics of one lock: four counters that any thread may
/// read at any time. They are advisory: each is updated on its own, with
/// relaxed ordering, so a reader may see them mid-update.
pub struct LockMetrics {
    pub lock_count: AtomicU64,
    pub spin_count: AtomicU64,
    pub wait_ns_total: AtomicU64,
    pub contentions: AtomicU64,
}

/// One reading of the four counters, as plain values.
#[derive(PartialEq, Eq, Structural, Clone, Copy, Debug)]
pub struct MetricsSnapshot {
    pub lock_count: u64,
    pub spin_count: u64,
    pub wait_ns_total: u64,
    pub contentions: u64,
}

impl MetricsSnapshot {
    /// The counters after one acquisition is recorded: each addition wraps
    /// at 2^64, and only a contended acquisition counts as a contention.
    pub open spec fn recorded(self, spins: u64, wait_ns: u64, contended: bool) -> MetricsSnapshot {
        MetricsSnapshot {
            lock_count: self.lock_count.wrapping_add(1),
            spin_count: self.spin_count.wrapping_add(spins),
            wait_ns_total: self.wait_ns_total.wrapping_add(wait_ns),
            contentions: if contended {
                self.contentions.wrapping_add(1)
            } else {
                self.contentions
            },
        }
    }

    /// No acquisition recorded yet.
    pub fn zero() -> (r: MetricsSnapshot)
        ensures
            r == (MetricsSnapshot { lock_count: 0, spin_count: 0, wait_ns_total: 0, contentions: 0 }),
    {
        MetricsSnapshot { lock_count: 0, spin_count: 0, wait_ns_total: 0, contentions: 0 }
    }

    /// Adds one acquisition to the counters.
    pub fn record(&mut self, spins: u64, wait_ns: u64, contended: bool)
        ensures
            *final(self) == old(self).recorded(spins, wait_ns, contended),
    {
        self.lock_count = self.lock_count.wrapping_add(1);
        self.spin_count = self.spin_count.wrapping_add(spins);
        self.wait_ns_total = self.wait_ns_total.wrapping_add(wait_ns);
        if contended {
            self.contentions = self.contentions.wrapping_add(1);
        }
    }

    /// Adds a classified acquisition to the counters.
    pub fn record_acquisition(&mut self, a: Acquisition)
        ensures
            *final(self) == old(self).recorded(a.spins, a.wait_ns, a.contended),
    {
        self.record(a.spins, a.wait_ns, a.contended);
    }
}

impl LockMetrics {
    /// All four counters at zero.
    pub fn new() -> (r: LockMetrics) {
        LockMetrics {
            lock_count: AtomicU64::new(0),
            spin_count: AtomicU64::new(0),
            wait_ns_total: AtomicU64::new(0),
            contentions: AtomicU64::new(0),
        }
    }

    /// Adds one acquisition: each counter takes a relaxed fetch-and-add of
    /// what `MetricsSnapshot::record` adds to it.
    pub fn record(&self, spins: u64, wait_ns: u64, contended: bool) {
        self.lock_count.fetch_add(1, Ordering::Relaxed);
        self.spin_count.fetch_add(spins, Ordering::Relaxed);
        self.wait_ns_total.fetch_add(wait_ns, Ordering::Relaxed);
        if contended {
            self.contentions.fetch_add(1, Ordering::Relaxed);
        }
    }

    /// Adds a classified acquisition.
    pub fn record_acquisition(&self, a: Acquisition) {
        self.record(a.spins, a.wait_ns, a.contended);
    }

    /// Loads each counter, one after the other.
    pub fn snapshot(&self) -> (r: MetricsSnapshot) {
        MetricsSnapshot {
            lock_count: self.lock_count.load(Ordering::Relaxed),
            spin_count: self.spin_count.load(Ordering::Relaxed),
            wait_ns_total: self.wait_ns_total.load(Ordering::Relaxed),
            contentions: self.contentions.load(Ordering::Relaxed),
        }
    }
}

/// Recording an acquisition never lowers a counter, as long as no counter
/// wraps, and it keeps the contentions at or below the acquisitions.
pub proof fn lemma_record_monotone(m: MetricsSnapshot, spins: u64, wait_ns: u64, contended: bool)
    requires
        m.contentions <= m.lock_count,
        m.lock_count < u64::MAX,
        m.spin_count + spins <= u64::MAX,
        m.wait_ns_total + wait_ns <= u64::MAX,
    ensures
        m.recorded(spins, wait_ns, contended).lock_count == m.lock_count + 1,
        m.recorded(spins, wait_ns, contended).spin_count >= m.spin_count,
        m.recorded(spins, wait_ns, contended).wait_ns_total >= m.wait_ns_total,
        m.recorded(spins, wait_ns, contended).contentions >= m.contentions,
        m.recorded(spins, wait_ns, contended).contentions <= m.recorded(spins, wait_ns, contended).lock_count,
{
}

/// An acquisition after `n` failed exchanges: with none it adds no spins
/// and no contention; with some it adds `n` spins and one contention.
pub proof fn lemma_record_classified(m: MetricsSnapshot, n: nat, wait_ns: u64)
    requires
        n <= u64::MAX,
        m.spin_count + n <= u64::MAX,
        m.contentions < u64::MAX,
    ensures
        ({
            let a = Backoff::after_failures(n).acquisition(wait_ns);
            let r = m.recorded(a.spins, a.wait_ns, a.contended);
            &&& n == 0 ==> r.spin_count == m.spin_count && r.contentions == m.contentions
            &&& n > 0 ==> r.spin_count == m.spin_count + n && r.contentions == m.contentions + 1
        }),
{
    crate::backoff::lemma_contention_boundary(n, wait_ns);
}

} // verus!
