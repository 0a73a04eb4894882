//! The fence waiter of the component's sync thread.
//!
//! Fences submitted by the guest come with an OS handle that becomes ready
//! when the GPU work behind the fence completes. Submitters append them to a
//! pending list and wake the sync thread with the resample event; the sync
//! thread moves them into its wait context, keyed by fence id, and signals
//! each fence when its handle becomes ready. The decisions of that thread are
//! taken here; the caller owns the wait context and the fence handler.
use vstd::prelude::*;
use std::collections::HashMap;

verus! {

broadcast use vstd::std_specs::hash::group_hash_axioms;

/// Wait-context token of the event that stops the sync thread.
pub const KILL_TOKEN: u64 = 1;

/// Wait-context token of the event that announces newly pending fences.
pub const RESAMPLE_TOKEN: u64 = 2;

/// Fences submitted but not yet taken by the sync thread, in submission
/// order, each with its fence id.
pub struct PendingFences<F> {
    items: Vec<(u64, F)>,
}

impl<F> PendingFences<F> {
    /// The pending fences, oldest first.
    pub closed spec fn items(&self) -> Seq<(u64, F)> {
        self.items@
    }

    /// An empty list.
    pub fn new() -> (p: Self)
        ensures
            p.items() == Seq::<(u64, F)>::empty(),
    {
        PendingFences { items: Vec::new() }
    }

    /// Number of pending fences.
    pub fn len(&self) -> (n: usize)
        ensures
            n == self.items().len(),
    {
        self.items.len()
    }

    /// Appends a fence with its id.
    pub fn push(&mut self, fence_id: u64, fence: F)
        ensures
            final(self).items() == old(self).items().push((fence_id, fence)),
    {
        self.items.push((fence_id, fence));
    }

    /// Takes every pending fence, oldest first, and leaves the list empty.
    pub fn take_all(&mut self) -> (taken: Vec<(u64, F)>)
        ensures
            taken@ == old(self).items(),
            final(self).items() == Seq::<(u64, F)>::empty(),
    {
        let mut taken: Vec<(u64, F)> = Vec::new();
        std::mem::swap(&mut taken, &mut self.items);
        taken
    }
}

/// What the sync thread does with one ready event of its wait context.
pub enum FenceAction<F> {
    /// The kill event: the thread returns at once.
    Exit,
    /// The resample event: take the pending fences and watch them.
    Resample,
    /// A watched fence is ready: stop watching its handle and signal it.
    Signal(F),
    /// A token that no watched fence has (any more): nothing to do.
    Ignore,
}

/// What a ready event with token `connection_id` does to the watched fences
/// `active`: the action to take and the fences watched afterwards.
pub open spec fn event_outcome<F>(active: Map<u64, F>, connection_id: u64) -> (FenceAction<F>, Map<u64, F>) {
    if connection_id == KILL_TOKEN {
        (FenceAction::Exit, active)
    } else if connection_id == RESAMPLE_TOKEN {
        (FenceAction::Resample, active)
    } else if active.contains_key(connection_id) {
        (FenceAction::Signal(active[connection_id]), active.remove(connection_id))
    } else {
        (FenceAction::Ignore, active)
    }
}

/// What taking a pending fence does to the watched fences `active`: the
/// fence to signal at once, if any, and the fences watched afterwards.
pub open spec fn watch_outcome<F>(active: Map<u64, F>, fence_id: u64, fence: F, watched: bool) -> (Option<F>, Map<u64, F>) {
    if watched {
        (None, active.insert(fence_id, fence))
    } else {
        (Some(fence), active)
    }
}

/// The fences the sync thread is watching, keyed by fence id.
pub struct FenceWaiter<F> {
    active: HashMap<u64, F>,
}

impl<F> FenceWaiter<F> {
    /// The watched fences.
    pub closed spec fn active(&self) -> Map<u64, F> {
        self.active@
    }

    /// A waiter that watches nothing.
    pub fn new() -> (w: Self)
        ensures
            w.active() == Map::<u64, F>::empty(),
    {
        FenceWaiter { active: HashMap::new() }
    }

    /// Whether a fence with this id is watched.
    pub fn is_watching(&self, fence_id: u64) -> (b: bool)
        ensures
            b == self.active().contains_key(fence_id),
    {
        self.active.contains_key(&fence_id)
    }

    /// Number of watched fences.
    pub fn num_watched(&self) -> (n: usize)
        ensures
            n == self.active().len(),
    {
        self.active.len()
    }

    /// Takes a pending fence after the caller tried to add its handle to the
    /// wait context under the fence id. When that succeeded (`watched`), the
    /// fence is watched from now on (a fence watched earlier under the same
    /// id is dropped without being signalled) and the result is `None`; when
    /// it failed, nothing is watched and the fence is handed back, to be
    /// signalled at once.
    pub fn watch(&mut self, fence_id: u64, fence: F, watched: bool) -> (signal_now: Option<F>)
        ensures
            signal_now == watch_outcome(old(self).active(), fence_id, fence, watched).0,
            final(self).active() == watch_outcome(old(self).active(), fence_id, fence, watched).1,
    {
        if watched {
            let _ = self.active.insert(fence_id, fence);
            None
        } else {
            Some(fence)
        }
    }

    /// Decides what to do with a ready event of the wait context. The kill
    /// token comes first, then the resample token; any other token is a fence
    /// id: a watched fence leaves the waiter and is to be signalled, an
    /// unknown id is ignored.
    pub fn on_event(&mut self, connection_id: u64) -> (action: FenceAction<F>)
        ensures
            action == event_outcome(old(self).active(), connection_id).0,
            final(self).active() == event_outcome(old(self).active(), connection_id).1,
    {
        if connection_id == KILL_TOKEN {
            FenceAction::Exit
        } else if connection_id == RESAMPLE_TOKEN {
            FenceAction::Resample
        } else {
            match self.active.remove(&connection_id) {
                Some(fence) => FenceAction::Signal(fence),
                None => FenceAction::Ignore,
            }
        }
    }
}

/// A fence watched under an id other than the two tokens is signalled when
/// its event arrives, and the event removes it from the watched fences.
pub proof fn watched_fence_is_signalled<F>(active: Map<u64, F>, fence_id: u64, fence: F)
    requires
        fence_id != KILL_TOKEN,
        fence_id != RESAMPLE_TOKEN,
    ensures
        ({
            let watching = watch_outcome(active, fence_id, fence, true).1;
            &&& event_outcome(watching, fence_id).0 == FenceAction::Signal(fence)
            &&& event_outcome(watching, fence_id).1 == active.remove(fence_id)
        }),
{
    assert(active.insert(fence_id, fence).remove(fence_id) =~= active.remove(fence_id));
}

/// A fence is signalled at most once: after its event, a second event with
/// the same id is ignored.
pub proof fn fence_signalled_at_most_once<F>(active: Map<u64, F>, fence_id: u64)
    requires
        fence_id != KILL_TOKEN,
        fence_id != RESAMPLE_TOKEN,
    ensures
        event_outcome(event_outcome(active, fence_id).1, fence_id).0 is Ignore,
{
}

/// The kill event stops the thread whatever is watched, and leaves the
/// watched fences unsignalled.
pub proof fn kill_exits_first<F>(active: Map<u64, F>)
    ensures
        event_outcome(active, KILL_TOKEN) == (FenceAction::<F>::Exit, active),
{
}

/// A fence whose handle could not be watched is signalled at once and the
/// watched fences stay as they were.
pub proof fn unwatchable_fence_is_signalled_now<F>(active: Map<u64, F>, fence_id: u64, fence: F)
    ensures
        watch_outcome(active, fence_id, fence, false) == (Some(fence), active),
{
}

/// The resample event always asks to take the pending fences and leaves the
/// watched fences as they are, whatever is watched (nothing included).
pub proof fn resample_always_takes_pending<F>(active: Map<u64, F>)
    ensures
        event_outcome(active, RESAMPLE_TOKEN) == (FenceAction::<F>::Resample, active),
{
}

/// Any other token is a fence id: a watched fence is handed back to be
/// signalled and leaves the watched fences, every other fence staying
/// watched; an unknown id changes nothing.
pub proof fn fence_event_hands_back_that_fence<F>(active: Map<u64, F>, fence_id: u64)
    requires
        fence_id != KILL_TOKEN,
        fence_id != RESAMPLE_TOKEN,
    ensures
        active.contains_key(fence_id) ==> {
            let (a, rest) = event_outcome(active, fence_id);
            &&& a == FenceAction::Signal(active[fence_id])
            &&& !rest.contains_key(fence_id)
            &&& forall|k: u64| k != fence_id ==> (rest.contains_key(k) == active.contains_key(k))
            &&& forall|k: u64| k != fence_id && active.contains_key(k) ==> rest[k] == active[k]
        },
        !active.contains_key(fence_id) ==> event_outcome(active, fence_id) == (
            FenceAction::<F>::Ignore,
            active,
        ),
{
}

/// Watching a fence whose handle was added makes it watched under its id,
/// with every other watched fence kept; nothing is signalled now.
pub proof fn watched_fence_is_kept<F>(active: Map<u64, F>, fence_id: u64, fence: F)
    ensures
        ({
            let (now, w) = watch_outcome(active, fence_id, fence, true);
            &&& now is None
            &&& w.contains_key(fence_id)
            &&& w[fence_id] == fence
            &&& forall|k: u64| k != fence_id ==> (w.contains_key(k) == active.contains_key(k))
            &&& forall|k: u64| k != fence_id && active.contains_key(k) ==> w[k] == active[k]
        }),
{
}

} // verus!
