use vstd::prelude::*;

verus! {

use std::collections::BTreeMap;
use std::collections::VecDeque;
use crate::executor::Executor;
use crate::timer_queue::TimerQueue;
use crate::utils::get_unused_idx;

/// The readiness interest an io wait registers with the poller.
#[derive(Clone, Copy, PartialEq, Eq, Structural, Debug)]
pub enum InterestKind {
    Readable,
    Writable,
}

/// One submitted io wait that the poller has not been told about yet: the
/// OS handle to watch, the interest to wait for, and the job that completes
/// the operation when the handle becomes ready.
#[derive(Clone, Copy, PartialEq, Eq, Structural, Debug)]
pub struct IoRequest {
    pub handle: u64,
    pub interest: InterestKind,
    pub job: u64,
}

/// The abstract state of an [`IoService`]: the outstanding-operation counter
/// and every pending-operation collection.
#[verifier::ext_equal]
pub struct ReactorState {
    /// Operations registered but not yet completed; the run loop may stop
    /// exactly when this is zero.
    pub jobs: nat,
    /// Immediate jobs, in FIFO submission order.
    pub msgs: Seq<u64>,
    /// Submitted timers, (duration in milliseconds, job), not yet armed with
    /// the poller.
    pub staged_timers: Seq<(u64, u64)>,
    /// Timer jobs armed with the poller and not yet expired.
    pub armed_timers: Seq<u64>,
    /// Submitted io waits not yet registered with the poller.
    pub staged_io: Seq<IoRequest>,
    /// Io waits registered with the poller, the job of each keyed by its
    /// registration token.
    pub registered_io: Map<usize, u64>,
}

impl ReactorState {
    /// No work of any kind is stored.
    pub open spec fn empty() -> ReactorState {
        ReactorState {
            jobs: 0,
            msgs: Seq::empty(),
            staged_timers: Seq::empty(),
            armed_timers: Seq::empty(),
            staged_io: Seq::empty(),
            registered_io: Map::empty(),
        }
    }

    /// How many uninvoked immediate jobs, unexpired timers and unsignaled io
    /// waits are stored.
    pub open spec fn stored_ops(self) -> nat {
        self.msgs.len() + self.staged_timers.len() + self.armed_timers.len()
            + self.staged_io.len() + self.registered_io.dom().len()
    }

    /// The accounting invariant: the outstanding-operation counter equals the
    /// number of stored, not-yet-completed operations, and fits the machine.
    pub open spec fn wf(self) -> bool {
        &&& self.registered_io.dom().finite()
        &&& self.jobs == self.stored_ops()
        &&& self.jobs <= usize::MAX
    }
}

/// Submitting an immediate job: count it and append it to the FIFO queue.
pub open spec fn spec_post(s: ReactorState, job: u64) -> ReactorState {
    ReactorState { jobs: s.jobs + 1, msgs: s.msgs.push(job), ..s }
}

/// Submitting a timer: count it and record (duration, job).
pub open spec fn spec_schedule_timeout(s: ReactorState, timeout_ms: u64, job: u64) -> ReactorState {
    ReactorState { jobs: s.jobs + 1, staged_timers: s.staged_timers.push((timeout_ms, job)), ..s }
}

/// Submitting an io wait: count it and record the request.
pub open spec fn spec_submit_io(s: ReactorState, req: IoRequest) -> ReactorState {
    ReactorState { jobs: s.jobs + 1, staged_io: s.staged_io.push(req), ..s }
}

/// Arming the most recently staged timer with the poller.
pub open spec fn spec_arm_timer(s: ReactorState) -> ReactorState {
    ReactorState {
        staged_timers: s.staged_timers.drop_last(),
        armed_timers: s.armed_timers.push(s.staged_timers.last().1),
        ..s
    }
}

/// An armed timer at position `i` expires: its job leaves the reactor and is
/// counted as completed.
pub open spec fn spec_expire_timer_at(s: ReactorState, i: int) -> ReactorState {
    ReactorState {
        jobs: (s.jobs - 1) as nat,
        armed_timers: s.armed_timers.remove(i),
        ..s
    }
}

/// Registering the most recently staged io wait with the poller under `token`.
pub open spec fn spec_register_io(s: ReactorState, token: usize) -> ReactorState {
    ReactorState {
        staged_io: s.staged_io.drop_last(),
        registered_io: s.registered_io.insert(token, s.staged_io.last().job),
        ..s
    }
}

/// A readiness event for `token`: the matching io wait leaves the reactor and
/// is counted as completed.
pub open spec fn spec_complete_io(s: ReactorState, token: usize) -> ReactorState {
    ReactorState {
        jobs: (s.jobs - 1) as nat,
        registered_io: s.registered_io.remove(token),
        ..s
    }
}

/// One drain pass over the immediate queue: the whole queue leaves at once,
/// each departure counted as a completion. What the pass delivers is
/// [`drain_batch`].
pub open spec fn spec_drain(s: ReactorState) -> ReactorState {
    ReactorState { jobs: (s.jobs - s.msgs.len()) as nat, msgs: Seq::empty(), ..s }
}

/// What one drain pass delivers: exactly the jobs queued when the pass
/// started, in FIFO submission order.
pub open spec fn drain_batch(s: ReactorState) -> Seq<u64> {
    s.msgs
}

/// The reactor: owner of the outstanding-operation counter and of the three
/// pending-operation collections (immediate, timer, io-wait). The poller is an
/// external collaborator: the caller's run loop polls it and feeds its events
/// back in through [`IoService::timer_fired`] and [`IoService::ready`], and
/// mirrors staged work into it through [`IoService::take_staged_timer`] and
/// [`IoService::take_staged_io`]. The run loop may stop exactly when
/// [`IoService::quiescent`] says so.
pub struct IoService {
    pending_jobs: usize,
    pending_msgs: VecDeque<u64>,
    pending_timeout_msgs: Vec<(u64, u64)>,
    armed_timers: Vec<u64>,
    pending_io_msgs: Vec<IoRequest>,
    registered_io: BTreeMap<usize, u64>,
}

impl View for IoService {
    type V = ReactorState;

    closed spec fn view(&self) -> ReactorState {
        ReactorState {
            jobs: self.pending_jobs as nat,
            msgs: self.pending_msgs@,
            staged_timers: self.pending_timeout_msgs@,
            armed_timers: self.armed_timers@,
            staged_io: self.pending_io_msgs@,
            registered_io: self.registered_io@,
        }
    }
}

impl IoService {
    /// A reactor with no outstanding operations. Provisioning the poller
    /// itself is the caller's step; this type only accounts for the work
    /// handed to it.
    pub fn new() -> (s: IoService)
        ensures
            s@ == ReactorState::empty(),
            s@.wf(),
    {
        let s = IoService {
            pending_jobs: 0,
            pending_msgs: VecDeque::new(),
            pending_timeout_msgs: Vec::new(),
            armed_timers: Vec::new(),
            pending_io_msgs: Vec::new(),
            registered_io: BTreeMap::new(),
        };
        proof {
            assert(s@ =~= ReactorState::empty());
        }
        s
    }

    /// Append an immediate job, incrementing the counter; the job is only
    /// stored — behind every job already queued — never run before `post`
    /// returns, even from inside a running callback.
    pub fn post(&mut self, job: u64)
        requires
            old(self)@.wf(),
            old(self)@.jobs < usize::MAX,
        ensures
            final(self)@ == spec_post(old(self)@, job),
            final(self)@.wf(),
    {
        self.pending_jobs = self.pending_jobs + 1;
        self.pending_msgs.push_back(job);
        proof {
            assert(final(self)@ =~= spec_post(old(self)@, job));
        }
    }

    /// Record a timer entry, incrementing the counter, and return
    /// immediately; the job runs no earlier than `timeout_ms` has elapsed.
    pub fn schedule_timeout(&mut self, timeout_ms: u64, job: u64)
        requires
            old(self)@.wf(),
            old(self)@.jobs < usize::MAX,
        ensures
            final(self)@ == spec_schedule_timeout(old(self)@, timeout_ms, job),
            final(self)@.wf(),
    {
        self.pending_jobs = self.pending_jobs + 1;
        self.pending_timeout_msgs.push((timeout_ms, job));
        proof {
            assert(final(self)@ =~= spec_schedule_timeout(old(self)@, timeout_ms, job));
        }
    }

    /// Record an io wait, incrementing the counter.
    pub fn submit_io(&mut self, handle: u64, interest: InterestKind, job: u64)
        requires
            old(self)@.wf(),
            old(self)@.jobs < usize::MAX,
        ensures
            final(self)@ == spec_submit_io(old(self)@, IoRequest { handle, interest, job }),
            final(self)@.wf(),
    {
        self.pending_jobs = self.pending_jobs + 1;
        self.pending_io_msgs.push(IoRequest { handle, interest, job });
        proof {
            assert(final(self)@ =~= spec_submit_io(old(self)@, IoRequest { handle, interest, job }));
        }
    }

    /// The connect decision. A non-blocking connect attempt that already
    /// failed synchronously (`connect_ok == false`) is still delivered
    /// asynchronously: its job is posted, so the completion callback always
    /// fires from the run loop, never inline at the submission site. A
    /// pending attempt waits for writable readiness on `handle`. Either way
    /// exactly one operation is registered.
    pub fn submit_connect(&mut self, connect_ok: bool, handle: u64, job: u64)
        requires
            old(self)@.wf(),
            old(self)@.jobs < usize::MAX,
        ensures
            connect_ok ==> final(self)@ == spec_submit_io(
                old(self)@,
                IoRequest { handle, interest: InterestKind::Writable, job },
            ),
            !connect_ok ==> final(self)@ == spec_post(old(self)@, job),
            final(self)@.jobs == old(self)@.jobs + 1,
            final(self)@.wf(),
    {
        if connect_ok {
            self.submit_io(handle, InterestKind::Writable, job);
        } else {
            self.post(job);
        }
    }

    /// The read decision: a read waits for readable readiness on `handle`;
    /// the single read syscall happens only when the poller reports the
    /// handle ready and the run loop invokes `job`.
    pub fn submit_read(&mut self, handle: u64, job: u64)
        requires
            old(self)@.wf(),
            old(self)@.jobs < usize::MAX,
        ensures
            final(self)@ == spec_submit_io(
                old(self)@,
                IoRequest { handle, interest: InterestKind::Readable, job },
            ),
            final(self)@.wf(),
    {
        self.submit_io(handle, InterestKind::Readable, job);
    }

    /// Move the most recently staged timer into the armed set and hand its
    /// (duration, job) to the run loop, which arms it with the poller. The
    /// counter does not move: the operation is still outstanding.
    pub fn take_staged_timer(&mut self) -> (r: Option<(u64, u64)>)
        requires
            old(self)@.wf(),
        ensures
            match r {
                Some(entry) => {
                    &&& old(self)@.staged_timers.len() > 0
                    &&& entry == old(self)@.staged_timers.last()
                    &&& final(self)@ == spec_arm_timer(old(self)@)
                },
                None => {
                    &&& old(self)@.staged_timers.len() == 0
                    &&& final(self)@ == old(self)@
                },
            },
            final(self)@.wf(),
    {
        match self.pending_timeout_msgs.pop() {
            Some(entry) => {
                self.armed_timers.push(entry.1);
                proof {
                    assert(final(self)@ =~= spec_arm_timer(old(self)@));
                }
                Some(entry)
            }
            None => {
                proof {
                    assert(final(self)@ =~= old(self)@);
                }
                None
            }
        }
    }

    /// The poller reports that a timer armed for `job` has expired. If such a
    /// timer is armed, its first occurrence leaves the armed set, the counter
    /// drops by one, and the run loop must now invoke `job` exactly once;
    /// an unknown expiry changes nothing.
    pub fn timer_fired(&mut self, job: u64) -> (fired: bool)
        requires
            old(self)@.wf(),
        ensures
            fired == old(self)@.armed_timers.contains(job),
            fired ==> exists|i: int|
                {
                    &&& 0 <= i < old(self)@.armed_timers.len()
                    &&& old(self)@.armed_timers[i] == job
                    &&& (forall|k: int| 0 <= k < i ==> old(self)@.armed_timers[k] != job)
                    &&& final(self)@ == spec_expire_timer_at(old(self)@, i)
                },
            !fired ==> final(self)@ == old(self)@,
            final(self)@.wf(),
    {
        let mut i: usize = 0;
        while i < self.armed_timers.len()
            invariant
                old(self)@.wf(),
                *self == *old(self),
                i <= self.armed_timers@.len(),
                forall|k: int| 0 <= k < i ==> self.armed_timers@[k] != job,
            decreases self.armed_timers@.len() - i,
        {
            if self.armed_timers[i] == job {
                proof {
                    assert(old(self)@.jobs == old(self)@.stored_ops());
                    assert(old(self)@.armed_timers.len() >= 1);
                    assert(old(self)@.jobs >= 1);
                }
                self.armed_timers.remove(i);
                self.pending_jobs = self.pending_jobs - 1;
                proof {
                    assert(final(self)@ =~= spec_expire_timer_at(old(self)@, i as int));
                }
                return true;
            }
            i = i + 1;
        }
        false
    }

    /// Move the most recently staged io wait into the registered set under a
    /// fresh token and hand (token, handle, interest) to the run loop, which
    /// registers the interest with the poller. The counter does not move:
    /// the operation is still outstanding.
    pub fn take_staged_io(&mut self) -> (r: Option<(usize, u64, InterestKind)>)
        requires
            old(self)@.wf(),
        ensures
            match r {
                Some(reg) => {
                    &&& old(self)@.staged_io.len() > 0
                    &&& reg.1 == old(self)@.staged_io.last().handle
                    &&& reg.2 == old(self)@.staged_io.last().interest
                    &&& !old(self)@.registered_io.contains_key(reg.0)
                    &&& final(self)@ == spec_register_io(old(self)@, reg.0)
                },
                None => {
                    &&& old(self)@.staged_io.len() == 0
                    &&& final(self)@ == old(self)@
                },
            },
            final(self)@.wf(),
    {
        match self.pending_io_msgs.pop() {
            Some(req) => {
                let token = get_unused_idx(&self.registered_io, None);
                self.registered_io.insert(token, req.job);
                proof {
                    assert(final(self)@ =~= spec_register_io(old(self)@, token));
                }
                Some((token, req.handle, req.interest))
            }
            None => {
                proof {
                    assert(final(self)@ =~= old(self)@);
                }
                None
            }
        }
    }

    /// The poller reports readiness for `token`. If an io wait is registered
    /// under it, the wait leaves the registered set, the counter drops by one,
    /// and the run loop must now invoke the returned job exactly once; an
    /// unknown or already-completed token changes nothing.
    pub fn ready(&mut self, token: usize) -> (r: Option<u64>)
        requires
            old(self)@.wf(),
        ensures
            match r {
                Some(job) => {
                    &&& old(self)@.registered_io.contains_key(token)
                    &&& job == old(self)@.registered_io[token]
                    &&& final(self)@ == spec_complete_io(old(self)@, token)
                },
                None => {
                    &&& !old(self)@.registered_io.contains_key(token)
                    &&& final(self)@ == old(self)@
                },
            },
            final(self)@.wf(),
    {
        match self.registered_io.remove(&token) {
            Some(job) => {
                proof {
                    let dom = old(self)@.registered_io.dom();
                    assert(dom.contains(token));
                    assert(dom.remove(token).len() == dom.len() - 1);
                }
                self.pending_jobs = self.pending_jobs - 1;
                proof {
                    assert(final(self)@ =~= spec_complete_io(old(self)@, token));
                }
                Some(job)
            }
            None => {
                proof {
                    assert(final(self)@ =~= old(self)@);
                }
                None
            }
        }
    }

    /// One drain pass over the immediate queue: every job queued when the
    /// pass starts leaves exactly once, in FIFO submission order, and each
    /// departure is counted as a completion. The batch is fixed before the
    /// run loop invokes anything, so a job posted by a running callback lands
    /// in the now-empty queue and is serviced by a later pass, never this one.
    pub fn drain_immediates(&mut self) -> (batch: Vec<u64>)
        requires
            old(self)@.wf(),
        ensures
            batch@ == drain_batch(old(self)@),
            final(self)@ == spec_drain(old(self)@),
            final(self)@.wf(),
    {
        let mut batch: Vec<u64> = Vec::new();
        while self.pending_msgs.len() > 0
            invariant
                old(self)@.wf(),
                batch@ + self.pending_msgs@ == old(self)@.msgs,
                self.pending_jobs as nat == old(self)@.jobs - batch@.len(),
                self.pending_timeout_msgs@ == old(self)@.staged_timers,
                self.armed_timers@ == old(self)@.armed_timers,
                self.pending_io_msgs@ == old(self)@.staged_io,
                self.registered_io@ == old(self)@.registered_io,
            decreases self.pending_msgs@.len(),
        {
            match self.pending_msgs.pop_front() {
                Some(job) => {
                    self.pending_jobs = self.pending_jobs - 1;
                    batch.push(job);
                }
                None => {}
            }
        }
        proof {
            assert(batch@ =~= old(self)@.msgs);
            assert(final(self)@ =~= spec_drain(old(self)@));
        }
        batch
    }

    /// The outstanding-operation count.
    pub fn job_count(&self) -> (n: usize)
        ensures
            n as nat == self@.jobs,
    {
        self.pending_jobs
    }

    /// Whether the run loop may stop: true exactly when no operation is
    /// outstanding.
    pub fn quiescent(&self) -> (r: bool)
        ensures
            r == (self@.jobs == 0),
    {
        self.pending_jobs == 0
    }
}

/// Law: at any instant the outstanding-operation counter equals the number of
/// uninvoked immediate jobs, unexpired timers and unsignaled io waits, so the
/// run loop's exit test — the counter is zero — holds exactly when none of
/// the pending-operation collections holds anything.
pub proof fn lemma_quiescence_means_no_work(s: ReactorState)
    requires
        s.wf(),
    ensures
        (s.jobs == 0) <==> {
            &&& s.msgs.len() == 0
            &&& s.staged_timers.len() == 0
            &&& s.armed_timers.len() == 0
            &&& s.staged_io.len() == 0
            &&& s.registered_io.dom().len() == 0
        },
{
}

/// Posting every job of `jobs`, oldest first.
pub open spec fn spec_post_all(s: ReactorState, jobs: Seq<u64>) -> ReactorState
    decreases jobs.len(),
{
    if jobs.len() == 0 {
        s
    } else {
        spec_post(spec_post_all(s, jobs.drop_last()), jobs.last())
    }
}

/// Law: for any sequence of `post` calls issued before the run loop drains,
/// the next drain pass delivers the posted jobs — each exactly once, in FIFO
/// submission order, behind whatever was already queued — and leaves the
/// queue empty, so no later pass can deliver any of them again.
pub proof fn lemma_posts_drain_fifo_exactly_once(s: ReactorState, jobs: Seq<u64>)
    requires
        s.wf(),
        s.jobs + jobs.len() <= usize::MAX,
    ensures
        spec_post_all(s, jobs).wf(),
        spec_post_all(s, jobs).jobs == s.jobs + jobs.len(),
        spec_post_all(s, jobs).msgs == s.msgs + jobs,
        drain_batch(spec_post_all(s, jobs)) == s.msgs + jobs,
        spec_drain(spec_post_all(s, jobs)).msgs == Seq::<u64>::empty(),
        spec_drain(spec_post_all(s, jobs)).wf(),
    decreases jobs.len(),
{
    if jobs.len() == 0 {
        assert(s.msgs + jobs =~= s.msgs);
    } else {
        lemma_posts_drain_fifo_exactly_once(s, jobs.drop_last());
        assert(s.msgs + jobs =~= (s.msgs + jobs.drop_last()).push(jobs.last()));
    }
}

/// Law: a `post` issued from inside a running callback is deferred to a later
/// drain pass, never invoked within the same pass, and never skipped. The
/// pass's batch is fixed when the pass starts and the queue is empty while
/// its callbacks run, so the nested job can only land in the fresh queue; the
/// following pass then delivers it, exactly once.
pub proof fn lemma_nested_post_deferred(s: ReactorState, job: u64)
    requires
        s.wf(),
    ensures
        drain_batch(s) == s.msgs,
        spec_drain(s).msgs == Seq::<u64>::empty(),
        spec_post(spec_drain(s), job).msgs == seq![job],
        drain_batch(spec_post(spec_drain(s), job)) == seq![job],
        spec_drain(spec_post(spec_drain(s), job)).msgs == Seq::<u64>::empty(),
{
    assert(Seq::<u64>::empty().push(job) =~= seq![job]);
}

/// Law: a timer callback that posts a new job on the same reactor leaves the
/// counter where it stood — the increment for the posted job balances the
/// decrement for the timer's own completion — and above zero, so the run
/// loop goes on and the posted job is queued for a later drain pass.
pub proof fn lemma_timer_post_keeps_loop_alive(s: ReactorState, i: int, job: u64)
    requires
        s.wf(),
        0 <= i < s.armed_timers.len(),
    ensures
        spec_expire_timer_at(s, i).jobs == s.jobs - 1,
        spec_post(spec_expire_timer_at(s, i), job).jobs == s.jobs,
        spec_post(spec_expire_timer_at(s, i), job).jobs > 0,
        spec_post(spec_expire_timer_at(s, i), job).msgs == s.msgs.push(job),
        spec_post(spec_expire_timer_at(s, i), job).wf(),
{
}

impl Executor for IoService {
    open spec fn queued(&self) -> Seq<u64> {
        self@.msgs
    }

    open spec fn accepts(&self) -> bool {
        self@.wf() && self@.jobs < usize::MAX
    }

    fn post(&mut self, job: u64) {
        self.post(job);
    }
}

impl TimerQueue for IoService {
    open spec fn scheduled(&self) -> Seq<(u64, u64)> {
        self@.staged_timers
    }

    open spec fn timer_accepts(&self) -> bool {
        self@.wf() && self@.jobs < usize::MAX
    }

    fn schedule_timeout(&mut self, timeout_ms: u64, job: u64) {
        self.schedule_timeout(timeout_ms, job);
    }
}

} // verus!

