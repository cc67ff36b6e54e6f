use spinmetrics::{Acquisition, Backoff, SpinAction, SPIN_LIMIT_BEFORE_YIELD};

#[test]
fn backoff_starts_at_zero() {
    let b = Backoff::new();
    assert_eq!(b.spins, 0);
    assert_eq!(b.retries, 0);
}

#[test]
fn backoff_yields_after_limit_and_keeps_spin_total() {
    let mut b = Backoff::new();
    for n in 1..=SPIN_LIMIT_BEFORE_YIELD {
        assert_eq!(b.on_busy(), SpinAction::Spin);
        assert_eq!(b.spins, n);
        assert_eq!(b.retries, n);
    }
    assert_eq!(b.on_busy(), SpinAction::Yield);
    assert_eq!(b.spins, 11);
    assert_eq!(b.retries, 0);
    assert_eq!(b.on_busy(), SpinAction::Spin);
    assert_eq!(b.spins, 12);
    assert_eq!(b.retries, 1);
}

#[test]
fn backoff_yields_every_eleventh_failure() {
    let mut b = Backoff::new();
    let mut yields = Vec::new();
    for n in 1..=33u64 {
        if b.on_busy() == SpinAction::Yield {
            yields.push(n);
        }
    }
    assert_eq!(yields, vec![11, 22, 33]);
    assert_eq!(b.spins, 33);
}

#[test]
fn first_try_acquisition_is_uncontended() {
    let b = Backoff::new();
    assert_eq!(
        b.finish(125),
        Acquisition { spins: 0, wait_ns: 125, contended: false }
    );
}

#[test]
fn retried_acquisition_is_contended() {
    let mut b = Backoff::new();
    b.on_busy();
    assert_eq!(b.finish(9), Acquisition { spins: 1, wait_ns: 9, contended: true });
    for _ in 0..14 {
        b.on_busy();
    }
    assert_eq!(b.finish(40), Acquisition { spins: 15, wait_ns: 40, contended: true });
}
