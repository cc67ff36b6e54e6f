use vstd::prelude::*;
use std::sync::Mutex;
use crate::fifo::JobFifo;
use crate::guarded::{acquire, guarded_mut};

pub use crate::job::Job;

verus! {

/// The job queue guarded by a blocking mutex: each operation takes the
/// mutex, applies one `JobFifo` operation, and releases it.
pub struct MutexJobQueue {
    queue: Mutex<JobFifo>,
}

impl MutexJobQueue {
    /// An empty queue.
    pub fn new() -> (r: MutexJobQueue) {
        MutexJobQueue { queue: Mutex::new(JobFifo::new()) }
    }

    /// Appends `job` at the tail, as `JobFifo::push` does, under the mutex.
    pub fn push(&self, job: Job) {
        let mut g = acquire(&self.queue);
        let fifo = guarded_mut(&mut g);
        fifo.push(job);
    }

    /// Removes and returns the head, as `JobFifo::pop` does, under the
    /// mutex; `None` when the queue was empty at that moment.
    pub fn pop(&self) -> (r: Option<Job>) {
        let mut g = acquire(&self.queue);
        let fifo = guarded_mut(&mut g);
        fifo.pop()
    }
}

} // verus!
