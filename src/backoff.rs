use vstd::prelude::*;

verus! {

/// Consecutive failed attempts tolerated before the waiting thread gives
/// its scheduling quantum back to the operating system.
pub const SPIN_LIMIT_BEFORE_YIELD: u64 = 10;

/// What a waiting thread does after an attempt found the lock held.
#[derive(PartialEq, Eq, Structural, Clone, Copy, Debug)]
pub enum SpinAction {
    /// Issue a processor spin-wait hint and try again.
    Spin,
    /// Yield the rest of the time slice, then issue the hint and try again.
    Yield,
}

/// The outcome of one acquisition, as it is recorded into the metrics.
#[derive(PartialEq, Eq, Structural, Clone, Copy, Debug)]
pub struct Acquisition {
    pub spins: u64,
    pub wait_ns: u64,
    pub contended: bool,
}

/// The local counters of one acquisition attempt: every failed exchange so
/// far, and the failed exchanges since the thread last yielded.
#[derive(PartialEq, Eq, Structural, Clone, Copy, Debug)]
pub struct Backoff {
    pub spins: u64,
    pub retries: u64,
}

impl Backoff {
    /// The retry counter is reset before it passes the limit, and it never
    /// counts more attempts than the cumulative counter.
    pub open spec fn wf(self) -> bool {
        &&& self.retries <= SPIN_LIMIT_BEFORE_YIELD
        &&& self.retries <= self.spins
    }

    /// The state and the action that follow one failed exchange.
    pub open spec fn after_busy(self) -> (Backoff, SpinAction) {
        if self.retries + 1 > SPIN_LIMIT_BEFORE_YIELD {
            (Backoff { spins: (self.spins + 1) as u64, retries: 0 }, SpinAction::Yield)
        } else {
            (Backoff { spins: (self.spins + 1) as u64, retries: (self.retries + 1) as u64 }, SpinAction::Spin)
        }
    }

    /// The state after `n` failed exchanges from a fresh start.
    pub open spec fn after_failures(n: nat) -> Backoff
        decreases n,
    {
        if n == 0 {
            Backoff { spins: 0, retries: 0 }
        } else {
            Backoff::after_failures((n - 1) as nat).after_busy().0
        }
    }

    /// How an acquisition that succeeds in this state is classified.
    pub open spec fn acquisition(self, wait_ns: u64) -> Acquisition {
        Acquisition { spins: self.spins, wait_ns, contended: self.spins > 0 }
    }

    /// The state before the first exchange.
    pub fn new() -> (r: Backoff)
        ensures
            r == Backoff::after_failures(0),
            r.wf(),
    {
        Backoff { spins: 0, retries: 0 }
    }

    /// Counts a failed exchange and says whether to spin or to yield: once
    /// more than `SPIN_LIMIT_BEFORE_YIELD` attempts have failed since the
    /// last yield, the thread yields and the retry counter starts again,
    /// while the cumulative spin counter keeps growing.
    pub fn on_busy(&mut self) -> (a: SpinAction)
        requires
            old(self).wf(),
            old(self).spins < u64::MAX,
        ensures
            (*final(self), a) == old(self).after_busy(),
            final(self).wf(),
    {
        self.spins = self.spins + 1;
        if self.retries + 1 > SPIN_LIMIT_BEFORE_YIELD {
            self.retries = 0;
            SpinAction::Yield
        } else {
            self.retries = self.retries + 1;
            SpinAction::Spin
        }
    }

    /// Classifies the acquisition that has just succeeded: it is contended
    /// exactly when at least one exchange failed before it.
    pub fn finish(&self, wait_ns: u64) -> (r: Acquisition)
        ensures
            r == self.acquisition(wait_ns),
    {
        Acquisition { spins: self.spins, wait_ns, contended: self.spins > 0 }
    }
}

/// After `n` failed exchanges from a fresh start, the cumulative counter is
/// `n` and the retry counter is what remains of `n` after each run of
/// `SPIN_LIMIT_BEFORE_YIELD + 1` failures that ended in a yield.
pub proof fn lemma_failures_counted(n: nat)
    requires
        n <= u64::MAX,
    ensures
        Backoff::after_failures(n).spins == n,
        Backoff::after_failures(n).retries == n % (SPIN_LIMIT_BEFORE_YIELD as nat + 1),
        Backoff::after_failures(n).wf(),
    decreases n,
{
    if n > 0 {
        lemma_failures_counted((n - 1) as nat);
        lemma_mod_step(n);
    }
}

/// One more failure advances the count modulo the yield period, which is
/// `SPIN_LIMIT_BEFORE_YIELD + 1`, written out.
proof fn lemma_mod_step(n: nat)
    requires
        n > 0,
    ensures
        (n - 1) % 11 + 1 > 10 ==> n % 11 == 0,
        (n - 1) % 11 + 1 <= 10 ==> n % 11 == (n - 1) % 11 + 1,
{
    let m = (n - 1) as int;
    assert(m == 11 * (m / 11) + m % 11) by (nonlinear_arith);
    assert(n == 11 * (m / 11) + (m % 11 + 1));
    if m % 11 + 1 > 10 {
        assert(n == 11 * (m / 11 + 1));
        vstd::arithmetic::div_mod::lemma_mod_multiples_basic(m / 11 + 1, 11);
    } else {
        vstd::arithmetic::div_mod::lemma_mod_multiples_vanish(m / 11, m % 11 + 1, 11);
        vstd::arithmetic::div_mod::lemma_small_mod((m % 11 + 1) as nat, 11);
    }
}

/// The failure that brings the count to `n` makes the thread yield exactly
/// when `n` is a multiple of `SPIN_LIMIT_BEFORE_YIELD + 1`.
pub proof fn lemma_yield_points(n: nat)
    requires
        0 < n <= u64::MAX,
    ensures
        (Backoff::after_failures((n - 1) as nat).after_busy().1 == SpinAction::Yield)
            <==> n % (SPIN_LIMIT_BEFORE_YIELD as nat + 1) == 0,
{
    lemma_failures_counted((n - 1) as nat);
    lemma_mod_step(n);
}

/// An acquisition that succeeds on the first exchange is uncontended with
/// no spins; one that needed retries is contended and carries their count.
pub proof fn lemma_contention_boundary(n: nat, wait_ns: u64)
    requires
        n <= u64::MAX,
    ensures
        n == 0 ==> Backoff::after_failures(n).acquisition(wait_ns) == (Acquisition {
            spins: 0,
            wait_ns,
            contended: false,
        }),
        n > 0 ==> Backoff::after_failures(n).acquisition(wait_ns) == (Acquisition {
            spins: n as u64,
            wait_ns,
            contended: true,
        }),
{
    lemma_failures_counted(n);
}

} // verus!
