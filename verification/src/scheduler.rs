//! The channel scheduler of the component's worker pool.
//!
//! Ring channels are queued for the workers in first-in first-out order. A
//! channel carries a "scheduled" flag: it is queued only when the flag was
//! clear, so it stands in the queue at most once, and the flag is cleared by
//! the worker that took it before that worker examines the ring.
use vstd::prelude::*;
use std::collections::VecDeque;

verus! {

/// Default number of workers when the machine's parallelism is unknown.
pub const DEFAULT_WORKERS: usize = 4;

/// Least number of workers in the pool.
pub const MIN_WORKERS: usize = 2;

/// Number of workers for a machine whose available parallelism is
/// `available` (`None` when it cannot be determined): the parallelism, or
/// `DEFAULT_WORKERS` when unknown, and never fewer than `MIN_WORKERS`.
pub fn worker_count(available: Option<usize>) -> (n: usize)
    ensures
        n == (match available {
            Some(k) => if k < MIN_WORKERS { MIN_WORKERS } else { k },
            None => DEFAULT_WORKERS,
        }),
{
    let k: usize = match available {
        Some(k) => k,
        None => DEFAULT_WORKERS,
    };
    if k < MIN_WORKERS {
        MIN_WORKERS
    } else {
        k
    }
}

/// Where a channel stands with respect to the pool. `Queued` and
/// `Dispatched` are the two states in which its "scheduled" flag is set.
#[derive(PartialEq, Eq, Structural, Clone, Copy, Debug)]
pub enum SlotState {
    /// Flag clear: not queued and not taken.
    Idle,
    /// Flag set, waiting in the queue.
    Queued,
    /// Flag set, taken by a worker that has not cleared it yet.
    Dispatched,
}

/// What a worker does next.
#[derive(PartialEq, Eq, Structural, Clone, Copy, Debug)]
pub enum WorkerStep {
    /// The pool is shutting down: the worker returns.
    Exit,
    /// Service the channel with this id.
    Run(usize),
    /// Nothing queued: wait to be notified.
    Wait,
}

/// The abstract state of the scheduler: the queue (front first), the state
/// of each registered channel indexed by channel id, and the shutdown flag.
#[verifier::ext_equal]
pub struct SchedulerModel {
    pub queue: Seq<usize>,
    pub slots: Seq<SlotState>,
    pub shutdown: bool,
}

impl SchedulerModel {
    /// The queue holds each channel at most once, and holds exactly the
    /// registered channels whose state is `Queued`.
    pub open spec fn wf(self) -> bool {
        &&& self.queue.no_duplicates()
        &&& forall|i: int|
            0 <= i < self.queue.len() ==> (#[trigger] self.queue[i]) < self.slots.len()
                && self.slots[self.queue[i] as int] == SlotState::Queued
        &&& forall|c: usize|
            c < self.slots.len() && #[trigger] self.slots[c as int] == SlotState::Queued
                ==> self.queue.contains(c)
    }

    /// Registering a channel: a new idle slot at the end.
    pub open spec fn add_channel(self) -> (usize, SchedulerModel) {
        (
            self.slots.len() as usize,
            SchedulerModel { queue: self.queue, slots: self.slots.push(SlotState::Idle), shutdown: self.shutdown },
        )
    }

    /// Scheduling channel `id`: an idle channel is queued at the back and the
    /// result says so; a queued or dispatched one is left alone.
    pub open spec fn schedule(self, id: usize) -> (bool, SchedulerModel) {
        if self.slots[id as int] == SlotState::Idle {
            (
                true,
                SchedulerModel {
                    queue: self.queue.push(id),
                    slots: self.slots.update(id as int, SlotState::Queued),
                    shutdown: self.shutdown,
                },
            )
        } else {
            (false, self)
        }
    }

    /// A worker's next step: exit on shutdown, else take the front of the
    /// queue, else wait.
    pub open spec fn next_job(self) -> (WorkerStep, SchedulerModel) {
        if self.shutdown {
            (WorkerStep::Exit, self)
        } else if self.queue.len() > 0 {
            let id = self.queue[0];
            (
                WorkerStep::Run(id),
                SchedulerModel {
                    queue: self.queue.drop_first(),
                    slots: self.slots.update(id as int, SlotState::Dispatched),
                    shutdown: self.shutdown,
                },
            )
        } else {
            (WorkerStep::Wait, self)
        }
    }

    /// Clearing the flag of a dispatched channel makes it idle; any other
    /// channel is left alone.
    pub open spec fn clear_scheduled(self, id: usize) -> SchedulerModel {
        if self.slots[id as int] == SlotState::Dispatched {
            SchedulerModel {
                queue: self.queue,
                slots: self.slots.update(id as int, SlotState::Idle),
                shutdown: self.shutdown,
            }
        } else {
            self
        }
    }

    /// Requesting shutdown.
    pub open spec fn shut_down(self) -> SchedulerModel {
        SchedulerModel { queue: self.queue, slots: self.slots, shutdown: true }
    }
}

/// The pool's queue of channels, the flags of the channels, and the
/// shutdown flag.
pub struct ChannelScheduler {
    queue: VecDeque<usize>,
    slots: Vec<SlotState>,
    shutdown: bool,
}

impl View for ChannelScheduler {
    type V = SchedulerModel;

    closed spec fn view(&self) -> SchedulerModel {
        SchedulerModel { queue: self.queue@, slots: self.slots@, shutdown: self.shutdown }
    }
}

impl ChannelScheduler {
    /// An empty scheduler with no channels and no shutdown request.
    pub fn new() -> (s: Self)
        ensures
            s@.wf(),
            s@.queue == Seq::<usize>::empty(),
            s@.slots == Seq::<SlotState>::empty(),
            !s@.shutdown,
    {
        ChannelScheduler { queue: VecDeque::new(), slots: Vec::new(), shutdown: false }
    }

    /// Number of registered channels.
    pub fn num_channels(&self) -> (n: usize)
        ensures
            n == self@.slots.len(),
    {
        self.slots.len()
    }

    /// Registers a new channel with its flag clear and returns its id.
    pub fn add_channel(&mut self) -> (id: usize)
        requires
            old(self)@.wf(),
            old(self)@.slots.len() < usize::MAX,
        ensures
            final(self)@.wf(),
            id == old(self)@.add_channel().0,
            final(self)@ == old(self)@.add_channel().1,
    {
        let id = self.slots.len();
        self.slots.push(SlotState::Idle);
        assert forall|c: usize|
            c < self@.slots.len() && #[trigger] self@.slots[c as int] == SlotState::Queued
            implies self@.queue.contains(c) by {
            assert(old(self)@.slots[c as int] == SlotState::Queued);
        }
        assert(self@ =~= old(self)@.add_channel().1);
        id
    }

    /// Whether the channel's "scheduled" flag is set.
    pub fn is_scheduled(&self, id: usize) -> (b: bool)
        requires
            id < self@.slots.len(),
        ensures
            b == (self@.slots[id as int] != SlotState::Idle),
    {
        match self.slots[id] {
            SlotState::Idle => false,
            _ => true,
        }
    }

    /// Schedules a channel: when its flag was clear, the flag is set and the
    /// channel is appended to the queue, and the result is `true` (one waiting
    /// worker is to be woken); otherwise nothing changes and the result is
    /// `false`.
    pub fn schedule(&mut self, id: usize) -> (queued: bool)
        requires
            old(self)@.wf(),
            id < old(self)@.slots.len(),
        ensures
            final(self)@.wf(),
            queued == old(self)@.schedule(id).0,
            final(self)@ == old(self)@.schedule(id).1,
    {
        match self.slots[id] {
            SlotState::Idle => {
                let ghost om = old(self)@;
                proof {
                    schedule_keeps_wf(om, id);
                }
                self.slots.set(id, SlotState::Queued);
                self.queue.push_back(id);
                assert(self@ =~= om.schedule(id).1);
                true
            },
            _ => false,
        }
    }

    /// A worker's next step: `Exit` once shutdown was requested (whatever is
    /// queued), otherwise the channel at the front of the queue, which leaves
    /// the queue and becomes `Dispatched`, otherwise `Wait`.
    pub fn next_job(&mut self) -> (step: WorkerStep)
        requires
            old(self)@.wf(),
        ensures
            final(self)@.wf(),
            step == old(self)@.next_job().0,
            final(self)@ == old(self)@.next_job().1,
    {
        if self.shutdown {
            return WorkerStep::Exit;
        }
        let ghost om = old(self)@;
        proof {
            next_job_keeps_wf(om);
        }
        match self.queue.pop_front() {
            Some(id) => {
                proof {
                    assert(om.queue[0] == id);
                    assert(id < self.slots@.len());
                }
                self.slots.set(id, SlotState::Dispatched);
                assert(self@ =~= om.next_job().1);
                WorkerStep::Run(id)
            },
            None => WorkerStep::Wait,
        }
    }

    /// Clears the flag of a channel a worker has taken (it is cleared whether
    /// or not the worker then gets to service the ring). A channel that is
    /// not `Dispatched` is left as it is.
    pub fn clear_scheduled(&mut self, id: usize)
        requires
            old(self)@.wf(),
            id < old(self)@.slots.len(),
        ensures
            final(self)@.wf(),
            final(self)@ == old(self)@.clear_scheduled(id),
    {
        let ghost om = old(self)@;
        proof {
            clear_scheduled_keeps_wf(om, id);
        }
        match self.slots[id] {
            SlotState::Dispatched => {
                self.slots.set(id, SlotState::Idle);
                assert(self@ =~= om.clear_scheduled(id));
            },
            _ => {},
        }
    }

    /// Requests shutdown: from now on every worker's next step is `Exit`.
    pub fn shut_down(&mut self)
        requires
            old(self)@.wf(),
        ensures
            final(self)@.wf(),
            final(self)@ == old(self)@.shut_down(),
    {
        self.shutdown = true;
        assert(self@ =~= old(self)@.shut_down());
    }
}

/// Scheduling keeps every channel in the queue at most once, and the queue
/// equal to the set of queued channels.
pub proof fn schedule_keeps_wf(m: SchedulerModel, id: usize)
    requires
        m.wf(),
        id < m.slots.len(),
    ensures
        m.schedule(id).1.wf(),
{
    if m.slots[id as int] == SlotState::Idle {
        let n = m.schedule(id).1;
        let oq = m.queue;
        if oq.contains(id) {
            let k = choose|k: int| 0 <= k < oq.len() && oq[k] == id;
            assert(m.slots[oq[k] as int] == SlotState::Queued);
        }
        assert forall|i: int, j: int|
            0 <= i < n.queue.len() && 0 <= j < n.queue.len() && i != j
            implies n.queue[i] != n.queue[j] by {
            if i < oq.len() && j < oq.len() {
                assert(oq[i] != oq[j]);
            } else if i < oq.len() {
                assert(oq[i] != id);
            } else if j < oq.len() {
                assert(oq[j] != id);
            }
        }
        assert forall|i: int| 0 <= i < n.queue.len() implies (#[trigger] n.queue[i]) < n.slots.len()
            && n.slots[n.queue[i] as int] == SlotState::Queued by {
            if i < oq.len() {
                assert(oq[i] < m.slots.len());
            }
        }
        assert forall|c: usize|
            c < n.slots.len() && #[trigger] n.slots[c as int] == SlotState::Queued
            implies n.queue.contains(c) by {
            if c == id {
                assert(n.queue[oq.len() as int] == id);
            } else {
                assert(m.slots[c as int] == SlotState::Queued);
                let k = choose|k: int| 0 <= k < oq.len() && oq[k] == c;
                assert(n.queue[k] == c);
            }
        }
    }
}

/// Taking a job keeps the scheduler consistent.
pub proof fn next_job_keeps_wf(m: SchedulerModel)
    requires
        m.wf(),
    ensures
        m.next_job().1.wf(),
{
    if !m.shutdown && m.queue.len() > 0 {
        let n = m.next_job().1;
        let oq = m.queue;
        let id = oq[0];
        assert(id < m.slots.len());
        assert forall|i: int| 0 <= i < n.queue.len() implies (#[trigger] n.queue[i]) < n.slots.len()
            && n.slots[n.queue[i] as int] == SlotState::Queued by {
            assert(n.queue[i] == oq[i + 1]);
            assert(oq[i + 1] != oq[0]);
            assert(m.slots[oq[i + 1] as int] == SlotState::Queued);
        }
        assert forall|c: usize|
            c < n.slots.len() && #[trigger] n.slots[c as int] == SlotState::Queued
            implies n.queue.contains(c) by {
            assert(c != id);
            assert(m.slots[c as int] == SlotState::Queued);
            let k = choose|k: int| 0 <= k < oq.len() && oq[k] == c;
            assert(k != 0);
            assert(n.queue[k - 1] == c);
        }
    }
}

/// Clearing a flag keeps the scheduler consistent.
pub proof fn clear_scheduled_keeps_wf(m: SchedulerModel, id: usize)
    requires
        m.wf(),
        id < m.slots.len(),
    ensures
        m.clear_scheduled(id).wf(),
{
    if m.slots[id as int] == SlotState::Dispatched {
        let n = m.clear_scheduled(id);
        assert forall|i: int| 0 <= i < n.queue.len() implies (#[trigger] n.queue[i]) < n.slots.len()
            && n.slots[n.queue[i] as int] == SlotState::Queued by {
            assert(m.slots[n.queue[i] as int] == SlotState::Queued);
        }
        assert forall|c: usize|
            c < n.slots.len() && #[trigger] n.slots[c as int] == SlotState::Queued
            implies n.queue.contains(c) by {
            assert(m.slots[c as int] == SlotState::Queued);
        }
    }
}

/// Scheduling a channel that is already queued or taken changes nothing:
/// scheduling twice is the same as scheduling once.
pub proof fn schedule_is_idempotent(m: SchedulerModel, id: usize)
    requires
        m.wf(),
        id < m.slots.len(),
    ensures
        m.schedule(id).1.schedule(id).0 == false,
        m.schedule(id).1.schedule(id).1 == m.schedule(id).1,
{
}

/// A channel scheduled into an empty queue of a running pool is the next
/// job a worker gets.
pub proof fn scheduled_channel_is_served(m: SchedulerModel, id: usize)
    requires
        m.wf(),
        id < m.slots.len(),
        m.slots[id as int] == SlotState::Idle,
        m.queue.len() == 0,
        !m.shutdown,
    ensures
        m.schedule(id).1.next_job().0 == WorkerStep::Run(id),
{
}

/// Channels are served in the order they were scheduled: of two channels
/// scheduled one after the other into an empty queue, the first is served
/// first and the second next.
pub proof fn served_in_schedule_order(m: SchedulerModel, a: usize, b: usize)
    requires
        m.wf(),
        a < m.slots.len(),
        b < m.slots.len(),
        a != b,
        m.slots[a as int] == SlotState::Idle,
        m.slots[b as int] == SlotState::Idle,
        m.queue.len() == 0,
        !m.shutdown,
    ensures
        ({
            let m2 = m.schedule(a).1.schedule(b).1;
            &&& m2.next_job().0 == WorkerStep::Run(a)
            &&& m2.next_job().1.next_job().0 == WorkerStep::Run(b)
        }),
{
    let m1 = m.schedule(a).1;
    let m2 = m1.schedule(b).1;
    assert(m1.slots[b as int] == SlotState::Idle);
    assert(m2.queue =~= seq![a, b]);
    assert(m2.next_job().1.queue =~= seq![b]);
}

/// Once shutdown is requested, every worker exits, whatever is queued, and
/// the scheduler is left as it is.
pub proof fn shutdown_stops_workers(m: SchedulerModel)
    ensures
        m.shut_down().next_job().0 == WorkerStep::Exit,
        m.shut_down().next_job().1 == m.shut_down(),
{
}

/// A channel whose flag its worker has cleared can be scheduled again while
/// that worker is still servicing it.
pub proof fn cleared_channel_can_be_rescheduled(m: SchedulerModel, id: usize)
    requires
        m.wf(),
        id < m.slots.len(),
        m.slots[id as int] == SlotState::Dispatched,
    ensures
        m.clear_scheduled(id).schedule(id).0,
{
}

/// Scheduling an idle channel appends it to the back of the queue, whatever
/// the queue holds, marks it queued and reports it; scheduling a channel
/// that is queued or taken reports nothing and changes nothing. The
/// shutdown flag and the other channels are never touched.
pub proof fn schedule_appends_idle_channel(m: SchedulerModel, id: usize)
    requires
        m.wf(),
        id < m.slots.len(),
    ensures
        m.slots[id as int] == SlotState::Idle ==> {
            let (queued, n) = m.schedule(id);
            &&& queued
            &&& n.queue == m.queue.push(id)
            &&& n.slots[id as int] == SlotState::Queued
            &&& n.slots.len() == m.slots.len()
            &&& forall|c: int| 0 <= c < m.slots.len() && c != id ==> n.slots[c] == m.slots[c]
            &&& n.shutdown == m.shutdown
        },
        m.slots[id as int] != SlotState::Idle ==> m.schedule(id) == (false, m),
{
}

/// In a running pool a non-empty queue is always served from its front:
/// the worker gets the first channel, which leaves the queue and is marked
/// taken; an empty queue makes the worker wait and changes nothing.
pub proof fn next_job_serves_front(m: SchedulerModel)
    requires
        m.wf(),
        !m.shutdown,
    ensures
        m.queue.len() > 0 ==> {
            let (step, n) = m.next_job();
            &&& step == WorkerStep::Run(m.queue[0])
            &&& n.queue == m.queue.drop_first()
            &&& n.slots[m.queue[0] as int] == SlotState::Dispatched
            &&& n.slots.len() == m.slots.len()
            &&& forall|c: int| 0 <= c < m.slots.len() && c != m.queue[0] ==> n.slots[c] == m.slots[c]
            &&& !n.shutdown
        },
        m.queue.len() == 0 ==> m.next_job() == (WorkerStep::Wait, m),
{
}

/// Every channel scheduled while idle is eventually handed to a worker:
/// after scheduling an idle channel behind `k` queued ones, the next `k + 1`
/// jobs of a running pool serve the queued ones in order and then it.
pub proof fn scheduled_channel_served_after_those_before_it(m: SchedulerModel, id: usize)
    requires
        m.wf(),
        !m.shutdown,
        id < m.slots.len(),
        m.slots[id as int] == SlotState::Idle,
    ensures
        serve(m.schedule(id).1, m.queue.len()).queue == seq![id],
        serve(m.schedule(id).1, m.queue.len()).next_job().0 == WorkerStep::Run(id),
    decreases m.queue.len(),
{
    schedule_keeps_wf(m, id);
    serve_drops_front(m.schedule(id).1, m.queue.len());
    assert(m.schedule(id).1.queue.subrange(m.queue.len() as int, m.queue.len() + 1int) =~= seq![id]);
}

/// The scheduler after `k` jobs were taken by workers.
pub open spec fn serve(m: SchedulerModel, k: nat) -> SchedulerModel
    decreases k,
{
    if k == 0 {
        m
    } else {
        serve(m.next_job().1, (k - 1) as nat)
    }
}

/// Taking `k` jobs from a running pool whose queue holds at least `k`
/// channels removes exactly the first `k`, keeping the pool running.
pub proof fn serve_drops_front(m: SchedulerModel, k: nat)
    requires
        m.wf(),
        !m.shutdown,
        k <= m.queue.len(),
    ensures
        serve(m, k).queue == m.queue.subrange(k as int, m.queue.len() as int),
        !serve(m, k).shutdown,
        serve(m, k).wf(),
    decreases k,
{
    if k == 0 {
        assert(m.queue.subrange(0, m.queue.len() as int) =~= m.queue);
    } else {
        next_job_keeps_wf(m);
        let n = m.next_job().1;
        serve_drops_front(n, (k - 1) as nat);
        assert(n.queue.subrange((k - 1) as int, n.queue.len() as int) =~= m.queue.subrange(
            k as int,
            m.queue.len() as int,
        ));
    }
}

/// Clearing the flag of a taken channel makes it idle and touches nothing
/// else; clearing any other channel changes nothing.
pub proof fn clear_makes_taken_channel_idle(m: SchedulerModel, id: usize)
    requires
        m.wf(),
        id < m.slots.len(),
    ensures
        m.slots[id as int] == SlotState::Dispatched ==> {
            let n = m.clear_scheduled(id);
            &&& n.slots[id as int] == SlotState::Idle
            &&& n.queue == m.queue
            &&& n.shutdown == m.shutdown
            &&& n.slots.len() == m.slots.len()
            &&& forall|c: int| 0 <= c < m.slots.len() && c != id ==> n.slots[c] == m.slots[c]
        },
        m.slots[id as int] != SlotState::Dispatched ==> m.clear_scheduled(id) == m,
{
}

/// Requesting shutdown keeps the queue and the channels as they are, and
/// registering a channel gives it the next id, idle, without touching the
/// queue.
pub proof fn shutdown_and_registration_keep_the_queue(m: SchedulerModel)
    requires
        m.slots.len() < usize::MAX,
    ensures
        m.shut_down().shutdown,
        m.shut_down().queue == m.queue,
        m.shut_down().slots == m.slots,
        m.add_channel().0 == m.slots.len(),
        m.add_channel().1.slots == m.slots.push(SlotState::Idle),
        m.add_channel().1.queue == m.queue,
        m.add_channel().1.shutdown == m.shutdown,
{
}

} // verus!
