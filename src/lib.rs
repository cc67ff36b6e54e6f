//! A spin lock with adaptive yielding and contention telemetry, and a FIFO
//! job queue guarded either by that lock or by a blocking mutex.
pub mod backoff;
pub mod fifo;
pub mod job;
pub mod metrics;
pub mod mutex_queue;
pub mod queue;
pub mod spinlock;

mod guarded;

pub use backoff::{Acquisition, Backoff, SpinAction, SPIN_LIMIT_BEFORE_YIELD};
pub use fifo::JobFifo;
pub use job::Job;
pub use metrics::{LockMetrics, MetricsSnapshot};
pub use queue::JobQueue;
pub use spinlock::{SpinGuard, SpinLock};
