use vstd::prelude::*;

verus! {

/// An executor is to function execution as an allocator is to allocation.
///
/// Jobs are named by caller-chosen identifiers; the executor decides when a
/// job is due, the caller keeps the work each identifier stands for.
pub trait Executor {
    /// The jobs accepted and not yet dispatched, in submission order.
    spec fn queued(&self) -> Seq<u64>;

    /// Whether one more job can be accepted right now.
    spec fn accepts(&self) -> bool;

    /// Submit a job for later execution; never block the calling thread and
    /// never dispatch the job before returning. The job is only stored,
    /// appended behind every job already queued.
    fn post(&mut self, job: u64)
        requires
            old(self).accepts(),
        ensures
            final(self).queued() == old(self).queued().push(job),
    ;
}

} // verus!
