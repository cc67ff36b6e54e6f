use spinmetrics::mutex_queue::{Job, MutexJobQueue};
use spinmetrics::{Backoff, JobQueue, SpinLock};

#[test]
fn try_lock_is_exclusive_until_guard_drops() {
    let lock = SpinLock::new(5_i32);
    {
        let mut g = lock.try_lock().expect("free lock");
        assert!(lock.try_lock().is_none());
        *g += 1;
        assert_eq!(*g.get(), 6);
    }
    let g = lock.try_lock().expect("released lock");
    assert_eq!(*g, 6);
}

#[test]
fn try_lock_records_nothing_and_acquired_records() {
    let lock = SpinLock::new(());
    let g = lock.try_lock();
    assert!(g.is_some());
    assert_eq!(lock.metrics.snapshot().lock_count, 0);
    let mut b = Backoff::new();
    b.on_busy();
    let a = lock.acquired(&b, 12);
    assert!(a.contended);
    let s = lock.metrics.snapshot();
    assert_eq!((s.lock_count, s.spin_count, s.wait_ns_total, s.contentions), (1, 1, 12, 1));
}

fn bump_unless_large(lock: &SpinLock<u32>) -> Option<u32> {
    let mut g = lock.try_lock()?;
    if *g > 10 {
        return None;
    }
    *g.get_mut() += 1;
    Some(*g)
}

#[test]
fn guard_released_on_early_return() {
    let lock = SpinLock::new(10_u32);
    assert_eq!(bump_unless_large(&lock), Some(11));
    assert_eq!(bump_unless_large(&lock), None);
    let g = lock.try_lock().expect("released after early return");
    assert_eq!(*g, 11);
}

#[test]
fn mutex_queue_is_fifo_and_empty_pop_is_none() {
    let q = MutexJobQueue::new();
    assert!(q.pop().is_none());
    assert!(q.pop().is_none());
    q.push(Job::new(1));
    q.push(Job::new(2));
    q.push(Job::new(3));
    assert_eq!(q.pop().map(|j| j.id), Some(1));
    assert_eq!(q.pop().map(|j| j.id), Some(2));
    assert_eq!(q.pop().map(|j| j.id), Some(3));
    assert!(q.pop().is_none());
}

#[test]
fn spin_queue_guards_a_fifo() {
    let q = JobQueue::new();
    {
        let mut g = q.spin_lock().try_lock().unwrap();
        assert!(g.pop().is_none());
        g.push(Job::new(4));
        g.push(Job::new(5));
        assert!(q.spin_lock().try_lock().is_none());
    }
    let mut g = q.spin_lock().try_lock().unwrap();
    assert_eq!(g.pop().map(|j| j.id), Some(4));
    assert_eq!(g.pop().map(|j| j.id), Some(5));
    assert!(g.is_empty());
}
