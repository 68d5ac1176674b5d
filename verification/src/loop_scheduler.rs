use vstd::prelude::*;

verus! {

use std::collections::VecDeque;
use crate::executor::Executor;

/// A degenerate reactor: a pure FIFO queue of jobs, with no timers and no
/// sockets. It demonstrates the [`Executor`] capability in isolation and is
/// usable standalone.
///
/// Unlike the full reactor, which hands out a whole drain pass at once, this
/// scheduler hands out one job at a time through [`LoopScheduler::next_job`],
/// re-checking the live queue after each pop. A caller that invokes each job
/// as it pops may therefore service work posted by a running job within the
/// same run — the `Executor` capability alone promises no ordering across
/// implementations beyond "eventually, exactly once".
pub struct LoopScheduler {
    pending_jobs: VecDeque<u64>,
}

impl View for LoopScheduler {
    type V = Seq<u64>;

    closed spec fn view(&self) -> Seq<u64> {
        self.pending_jobs@
    }
}

impl LoopScheduler {
    /// A scheduler with nothing queued.
    pub fn new() -> (s: LoopScheduler)
        ensures
            s@ == Seq::<u64>::empty(),
    {
        LoopScheduler { pending_jobs: VecDeque::new() }
    }

    /// Append a job behind everything already queued; the job is only
    /// stored, never dispatched before `post` returns.
    pub fn post(&mut self, job: u64)
        ensures
            final(self)@ == old(self)@.push(job),
    {
        self.pending_jobs.push_back(job);
    }

    /// Pop the oldest queued job, if any.
    pub fn next_job(&mut self) -> (r: Option<u64>)
        ensures
            match r {
                Some(job) => {
                    &&& old(self)@.len() > 0
                    &&& job == old(self)@[0]
                    &&& final(self)@ == old(self)@.subrange(1, old(self)@.len() as int)
                },
                None => {
                    &&& old(self)@.len() == 0
                    &&& final(self)@ == old(self)@
                },
            },
    {
        self.pending_jobs.pop_front()
    }

    /// Drain the queue: every queued job leaves exactly once, in FIFO
    /// submission order, and the queue is empty afterwards. The returned
    /// sequence is the order in which the caller runs them.
    pub fn run(&mut self) -> (order: Vec<u64>)
        ensures
            order@ == old(self)@,
            final(self)@ == Seq::<u64>::empty(),
    {
        let mut order: Vec<u64> = Vec::new();
        while self.pending_jobs.len() > 0
            invariant
                order@ + self.pending_jobs@ == old(self)@,
            decreases self.pending_jobs@.len(),
        {
            match self.pending_jobs.pop_front() {
                Some(job) => {
                    order.push(job);
                }
                None => {}
            }
        }
        proof {
            assert(self.pending_jobs@ =~= Seq::<u64>::empty());
            assert(order@ =~= old(self)@);
        }
        order
    }
}

impl Executor for LoopScheduler {
    open spec fn queued(&self) -> Seq<u64> {
        self@
    }

    open spec fn accepts(&self) -> bool {
        true
    }

    fn post(&mut self, job: u64) {
        self.post(job);
    }
}

} // verus!
