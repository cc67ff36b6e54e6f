use vstd::prelude::*;
use crate::fifo::JobFifo;
use crate::spinlock::SpinLock;

verus! {

/// The job queue guarded by the spin lock. Its container is reached only
/// through a guard of that lock, and each push or pop is one `JobFifo`
/// operation made while the guard lives.
pub struct JobQueue {
    inner: SpinLock<JobFifo>,
}

impl JobQueue {
    /// An empty queue.
    pub fn new() -> (r: JobQueue) {
        JobQueue { inner: SpinLock::new(JobFifo::new()) }
    }

    /// The lock and the container it guards, with its metrics.
    pub fn spin_lock(&self) -> (r: &SpinLock<JobFifo>) {
        &self.inner
    }
}

} // verus!
