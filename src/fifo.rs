use vstd::prelude::*;
use std::collections::VecDeque;
use crate::job::Job;

verus! {

/// The first-in-first-out container that both queue strategies guard.
pub struct JobFifo {
    items: VecDeque<Job>,
}

impl View for JobFifo {
    type V = Seq<Job>;

    closed spec fn view(&self) -> Seq<Job> {
        self.items@
    }
}

/// What `pop` does to a queue holding `s`: the remaining jobs and the one
/// handed out.
pub open spec fn popped(s: Seq<Job>) -> (Seq<Job>, Option<Job>) {
    if s.len() == 0 {
        (s, None)
    } else {
        (s.subrange(1, s.len() as int), Some(s[0]))
    }
}

/// The jobs handed out by `n` consecutive pops from a queue holding `s`.
pub open spec fn drained(s: Seq<Job>, n: nat) -> Seq<Job>
    decreases n,
{
    if n == 0 {
        Seq::empty()
    } else {
        match popped(s).1 {
            Some(j) => seq![j] + drained(popped(s).0, (n - 1) as nat),
            None => drained(popped(s).0, (n - 1) as nat),
        }
    }
}

impl JobFifo {
    /// An empty queue.
    pub fn new() -> (r: JobFifo)
        ensures
            r@ == Seq::<Job>::empty(),
    {
        JobFifo { items: VecDeque::new() }
    }

    /// Appends `job` at the tail.
    pub fn push(&mut self, job: Job)
        ensures
            final(self)@ == old(self)@.push(job),
    {
        self.items.push_back(job);
    }

    /// Removes and returns the head, or returns `None`, changing nothing,
    /// when the queue is empty.
    pub fn pop(&mut self) -> (r: Option<Job>)
        ensures
            (final(self)@, r) == popped(old(self)@),
    {
        self.items.pop_front()
    }

    /// The number of queued jobs.
    pub fn len(&self) -> (r: usize)
        ensures
            r == self@.len(),
    {
        self.items.len()
    }

    /// Whether no job is queued.
    pub fn is_empty(&self) -> (r: bool)
        ensures
            r == (self@.len() == 0),
    {
        self.items.len() == 0
    }
}

/// Popping an empty queue, any number of times, hands out nothing and
/// leaves it empty.
pub proof fn lemma_pop_empty_idempotent(s: Seq<Job>, n: nat)
    requires
        s.len() == 0,
    ensures
        popped(s) == (s, Option::<Job>::None),
        drained(s, n) == Seq::<Job>::empty(),
    decreases n,
{
    if n > 0 {
        lemma_pop_empty_idempotent(popped(s).0, (n - 1) as nat);
    }
}

/// Popping a queue holding `s` exactly `s.len()` times hands out `s`:
/// every job once, in the order in which it was pushed, none lost.
pub proof fn lemma_drain_all(s: Seq<Job>)
    ensures
        drained(s, s.len()) == s,
    decreases s.len(),
{
    if s.len() > 0 {
        let rest = s.subrange(1, s.len() as int);
        lemma_drain_all(rest);
        assert(seq![s[0]] + rest =~= s);
    }
}

} // verus!
