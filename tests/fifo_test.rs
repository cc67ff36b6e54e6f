use spinmetrics::{Job, JobFifo};

#[test]
fn fifo_hands_out_in_push_order() {
    let mut q = JobFifo::new();
    for id in 0..5u64 {
        q.push(Job::new(id));
    }
    assert_eq!(q.len(), 5);
    for id in 0..5u64 {
        assert_eq!(q.pop().map(|j| j.id), Some(id));
    }
    assert!(q.is_empty());
    assert!(q.pop().is_none());
}

#[test]
fn fifo_pop_on_empty_is_idempotent() {
    let mut q = JobFifo::new();
    for _ in 0..3 {
        assert!(q.pop().is_none());
        assert_eq!(q.len(), 0);
        assert!(q.is_empty());
    }
    q.push(Job::new(7));
    assert_eq!(q.pop().map(|j| j.id), Some(7));
    assert!(q.pop().is_none());
    assert!(q.pop().is_none());
}

#[test]
fn fifo_interleaved_push_pop() {
    let mut q = JobFifo::new();
    q.push(Job::new(1));
    q.push(Job::new(2));
    assert_eq!(q.pop().map(|j| j.id), Some(1));
    q.push(Job::new(3));
    assert_eq!(q.pop().map(|j| j.id), Some(2));
    assert_eq!(q.pop().map(|j| j.id), Some(3));
    assert!(q.pop().is_none());
}

#[test]
fn job_keeps_its_id() {
    let j = Job::new(u64::MAX);
    assert_eq!(j.id, u64::MAX);
    let k = j;
    assert_eq!(k.id, u64::MAX);
    assert!(k.created_at <= std::time::Instant::now());
}
