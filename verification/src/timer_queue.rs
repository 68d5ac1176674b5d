use vstd::prelude::*;

verus! {

/// A queue of timed jobs: each runs no earlier than its duration has elapsed.
pub trait TimerQueue {
    /// The timers accepted and not yet armed: (duration in milliseconds, job).
    spec fn scheduled(&self) -> Seq<(u64, u64)>;

    /// Whether one more timer can be accepted right now.
    spec fn timer_accepts(&self) -> bool;

    /// Record a timer entry and return immediately; the job is only stored,
    /// never run before `schedule_timeout` returns.
    fn schedule_timeout(&mut self, timeout_ms: u64, job: u64)
        requires
            old(self).timer_accepts(),
        ensures
            final(self).scheduled() == old(self).scheduled().push((timeout_ms, job)),
    ;
}

} // verus!
