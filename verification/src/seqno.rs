//! The completed-sequence-number protocol of the CPU channel.
//!
//! Several workers publish completed sequence numbers into one shared cell
//! with a compare-and-exchange loop, and waiters block until the cell reaches
//! their target. The decisions of that loop are taken here; the caller
//! performs the atomic operations and reports what they returned.
use vstd::prelude::*;

verus! {

/// What the caller reports to the update after performing the last action.
#[derive(PartialEq, Eq, Structural, Clone, Copy, Debug)]
pub enum SeqnoEvent {
    /// The current value of the shared cell was loaded.
    Loaded(u64),
    /// The compare-and-exchange stored the new value.
    Exchanged,
    /// The compare-and-exchange failed; the cell held this value.
    ExchangeFailed(u64),
}

/// What the update asks the caller to do next.
#[derive(PartialEq, Eq, Structural, Clone, Copy, Debug)]
pub enum SeqnoAction {
    /// Compare-and-exchange the shared cell from `expected` to `new`.
    Exchange { expected: u64, new: u64 },
    /// Wake every waiter, then stop.
    NotifyWaiters,
    /// Stop without waking anyone.
    Done,
}

/// One publication of the completed sequence number `seqno`: the last value
/// of the cell it observed, whether an exchange is outstanding, whether it
/// is over, and whether it stored `seqno` into the cell.
#[derive(PartialEq, Eq, Structural, Clone, Copy, Debug)]
pub struct SeqnoUpdate {
    pub seqno: u64,
    pub observed: Option<u64>,
    pub exchanging: bool,
    pub finished: bool,
    pub stored: bool,
}

impl SeqnoUpdate {
    /// A publication of `seqno` that has not looked at the cell yet.
    pub open spec fn initial(seqno: u64) -> SeqnoUpdate {
        SeqnoUpdate { seqno, observed: None, exchanging: false, finished: false, stored: false }
    }

    /// An outstanding exchange always goes from an observed value below the
    /// target; a finished update either stored the target or saw the cell at
    /// or above it.
    pub open spec fn wf(self) -> bool {
        &&& self.exchanging ==> (self.observed matches Some(v) && v < self.seqno)
        &&& self.exchanging ==> !self.finished
        &&& self.stored ==> self.finished
        &&& (self.finished && !self.stored) ==> (self.observed matches Some(v) && v >= self.seqno)
    }

    /// Which events the update takes in its present state: first the loaded
    /// value, then the outcome of each exchange, nothing once finished.
    pub open spec fn accepts_spec(self, ev: SeqnoEvent) -> bool {
        if self.finished {
            false
        } else if self.observed is None {
            ev is Loaded
        } else if self.exchanging {
            ev is Exchanged || ev is ExchangeFailed
        } else {
            false
        }
    }

    /// Having seen the cell hold `v`: exchange it for the target while it is
    /// below the target, else stop.
    pub open spec fn after_seeing(self, v: u64) -> (SeqnoAction, SeqnoUpdate) {
        if v < self.seqno {
            (
                SeqnoAction::Exchange { expected: v, new: self.seqno },
                SeqnoUpdate { observed: Some(v), exchanging: true, ..self },
            )
        } else {
            (
                SeqnoAction::Done,
                SeqnoUpdate { observed: Some(v), exchanging: false, finished: true, ..self },
            )
        }
    }

    /// The transition table of the update.
    pub open spec fn next(self, ev: SeqnoEvent) -> (SeqnoAction, SeqnoUpdate) {
        match ev {
            SeqnoEvent::Loaded(v) => self.after_seeing(v),
            SeqnoEvent::ExchangeFailed(v) => self.after_seeing(v),
            SeqnoEvent::Exchanged => (
                SeqnoAction::NotifyWaiters,
                SeqnoUpdate { exchanging: false, finished: true, stored: true, ..self },
            ),
        }
    }

    /// Starts publishing `seqno`; the first event must be the loaded value.
    pub fn new(seqno: u64) -> (u: Self)
        ensures
            u == SeqnoUpdate::initial(seqno),
            u.wf(),
    {
        SeqnoUpdate { seqno, observed: None, exchanging: false, finished: false, stored: false }
    }

    /// Whether `ev` is an event the update takes now.
    pub fn accepts(&self, ev: &SeqnoEvent) -> (b: bool)
        ensures
            b == self.accepts_spec(*ev),
    {
        if self.finished {
            false
        } else if self.observed.is_none() {
            matches!(ev, SeqnoEvent::Loaded(_))
        } else if self.exchanging {
            matches!(ev, SeqnoEvent::Exchanged) || matches!(ev, SeqnoEvent::ExchangeFailed(_))
        } else {
            false
        }
    }

    /// Takes the result of the last action and decides the next one, as the
    /// transition table `next` says.
    pub fn step(&mut self, ev: SeqnoEvent) -> (action: SeqnoAction)
        requires
            old(self).accepts_spec(ev),
        ensures
            (action, *final(self)) == old(self).next(ev),
    {
        match ev {
            SeqnoEvent::Exchanged => {
                self.exchanging = false;
                self.finished = true;
                self.stored = true;
                SeqnoAction::NotifyWaiters
            },
            SeqnoEvent::Loaded(v) | SeqnoEvent::ExchangeFailed(v) => {
                self.observed = Some(v);
                if v < self.seqno {
                    self.exchanging = true;
                    SeqnoAction::Exchange { expected: v, new: self.seqno }
                } else {
                    self.exchanging = false;
                    self.finished = true;
                    SeqnoAction::Done
                }
            },
        }
    }
}

/// Every step keeps the update consistent.
pub proof fn update_keeps_invariant(u: SeqnoUpdate, ev: SeqnoEvent)
    requires
        u.wf(),
        u.accepts_spec(ev),
    ensures
        u.next(ev).1.wf(),
{
}

/// The completed sequence number never goes down: every exchange the update
/// asks for replaces a value below its target by the target itself.
pub proof fn exchange_only_raises(u: SeqnoUpdate, ev: SeqnoEvent)
    requires
        u.wf(),
        u.accepts_spec(ev),
    ensures
        u.next(ev).0 matches SeqnoAction::Exchange { expected, new } ==> expected < new && new
            == u.seqno,
{
}

/// Waiters are woken exactly when this update stored its sequence number,
/// and only then.
pub proof fn waiters_woken_only_on_store(u: SeqnoUpdate, ev: SeqnoEvent)
    requires
        u.wf(),
        u.accepts_spec(ev),
    ensures
        (u.next(ev).0 is NotifyWaiters) == (ev is Exchanged),
        (u.next(ev).0 is NotifyWaiters) == (u.next(ev).1.stored && !u.stored),
{
}

/// A finished update leaves the shared cell at or above its target: either
/// it stored the target itself, or it last saw a value that was already at
/// least the target.
pub proof fn finished_update_reaches_target(u: SeqnoUpdate)
    requires
        u.wf(),
        u.finished,
    ensures
        u.stored || (u.observed matches Some(v) && v >= u.seqno),
{
}

/// Having seen the cell hold a value below the target (after the first
/// load or after a failed exchange), the update always asks to exchange
/// exactly that value for the target and remembers it; having seen the
/// target or more, it stops without storing and remembers that value.
pub proof fn seen_value_decides_exchange(u: SeqnoUpdate, v: u64)
    requires
        u.wf(),
        !u.finished,
    ensures
        v < u.seqno ==> {
            &&& u.next(SeqnoEvent::Loaded(v)).0 == (SeqnoAction::Exchange { expected: v, new: u.seqno })
            &&& u.next(SeqnoEvent::Loaded(v)).1.observed == Some(v)
            &&& u.next(SeqnoEvent::Loaded(v)).1.exchanging
            &&& !u.next(SeqnoEvent::Loaded(v)).1.finished
            &&& u.next(SeqnoEvent::ExchangeFailed(v)).0 == (SeqnoAction::Exchange { expected: v, new: u.seqno })
            &&& u.next(SeqnoEvent::ExchangeFailed(v)).1.observed == Some(v)
        },
        v >= u.seqno ==> {
            &&& u.next(SeqnoEvent::Loaded(v)).0 == SeqnoAction::Done
            &&& u.next(SeqnoEvent::Loaded(v)).1.observed == Some(v)
            &&& u.next(SeqnoEvent::Loaded(v)).1.finished
            &&& !u.next(SeqnoEvent::Loaded(v)).1.stored
            &&& u.next(SeqnoEvent::ExchangeFailed(v)).0 == SeqnoAction::Done
            &&& u.next(SeqnoEvent::ExchangeFailed(v)).1.observed == Some(v)
        },
        u.next(SeqnoEvent::Loaded(v)).1.seqno == u.seqno,
{
}

/// A successful exchange wakes the waiters and ends the update, which has
/// stored its target.
pub proof fn successful_exchange_notifies(u: SeqnoUpdate)
    requires
        u.wf(),
        u.accepts_spec(SeqnoEvent::Exchanged),
    ensures
        u.next(SeqnoEvent::Exchanged).0 == SeqnoAction::NotifyWaiters,
        u.next(SeqnoEvent::Exchanged).1.stored,
        u.next(SeqnoEvent::Exchanged).1.finished,
        u.next(SeqnoEvent::Exchanged).1.seqno == u.seqno,
{
}

/// Whether a waiter for `target` may return: the completed sequence number
/// has reached it.
pub fn seqno_reached(completed: u64, target: u64) -> (b: bool)
    ensures
        b == (completed >= target),
{
    completed >= target
}

} // verus!
