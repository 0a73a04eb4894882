//! One service run of a ring channel by a pool worker.
//!
//! A worker that took a channel from the pool queue tries to become the only
//! thread servicing it, clears the channel's "scheduled" flag, drains the
//! ring while it has data, spins briefly for more work, and then either puts
//! the channel back in the queue or marks the ring asleep, re-checking for
//! data after announcing sleep so that no wake-up is lost. The decisions of
//! that run are taken by `RingService`; the caller performs each requested
//! action on the ring and the channel and reports its result.
use vstd::prelude::*;

verus! {

/// Ring status: the host is consuming commands.
pub const RING_STATUS_ACTIVE: u32 = 0;

/// Ring status: the host is polling briefly for new commands.
pub const RING_STATUS_SPINNING: u32 = 1;

/// Ring status: the host is asleep; the guest must ping it.
pub const RING_STATUS_ASLEEP: u32 = 2;

/// Number of polls for back-to-back commands after the ring ran dry.
pub const DEFAULT_SPIN_COUNT: u32 = 2000;

/// An action the run asks the caller to perform.
#[derive(PartialEq, Eq, Structural, Clone, Copy, Debug)]
pub enum RingAction {
    /// Try to lock the channel's processing lock; report `Acquired`.
    TryAcquire,
    /// Clear the channel's "scheduled" flag; report `Done`.
    ClearScheduled,
    /// Ask the ring whether it holds unread data; report `HasData`.
    CheckData,
    /// Store this status in the ring's control header; report `Done`.
    SetStatus(u32),
    /// Read the available commands and dispatch them; report `Consumed`.
    ReadAvailable,
    /// Set the ring's completed sequence number to its submitted one; report `Done`.
    CompleteSubmitted,
    /// Spin-loop hint, then ask the ring whether it holds data; report `HasData`.
    SpinCheck,
    /// Full memory fence; report `Done`.
    Fence,
    /// Unlock the processing lock; report `Done`.
    Release,
    /// Schedule the channel again unless its flag is already set; report `Done`.
    Reschedule,
    /// The run is over.
    Finish,
}

/// The result of the last action, reported to the run.
#[derive(PartialEq, Eq, Structural, Clone, Copy, Debug)]
pub enum RingEvent {
    /// The run begins.
    Start,
    /// Whether the processing lock was obtained.
    Acquired(bool),
    /// The action was performed.
    Done,
    /// Whether the ring holds unread data.
    HasData(bool),
    /// Number of bytes the read consumed.
    Consumed(usize),
}

/// Which result the run awaits.
#[derive(PartialEq, Eq, Structural, Clone, Copy, Debug)]
pub enum RingPhase {
    NotStarted,
    Acquiring,
    ClearingBusy,
    ClearingOwned,
    DrainCheck,
    ActivatingForRead,
    Reading,
    Completing,
    SettingSpinning,
    Spinning,
    RecheckAfterSpin,
    ActivatingForRequeue,
    ReleasingForRequeue,
    Requeuing,
    SettingAsleep,
    Fencing,
    FinalCheck,
    ReleasingAsleep,
    Finished,
}

/// The state of one service run. Besides the phase, whether anything was
/// consumed and how many polls were made, it records what the run has done
/// so far: whether it got the lock
/// and still holds it, whether it cleared the flag, the last status it
/// wrote, whether it fenced after announcing sleep, what the last data check
/// said, and whether it rescheduled the channel.
#[derive(PartialEq, Eq, Structural, Clone, Copy, Debug)]
pub struct RingService {
    pub channel_id: u32,
    pub phase: RingPhase,
    pub processed: bool,
    pub spins: u32,
    pub acquired: bool,
    pub held: bool,
    pub cleared: bool,
    pub status: Option<u32>,
    pub fenced: bool,
    pub last_data: Option<bool>,
    pub empty_after_sleep: bool,
    pub rescheduled: bool,
}

/// The event each phase awaits.
pub open spec fn expects(phase: RingPhase, ev: RingEvent) -> bool {
    match phase {
        RingPhase::NotStarted => ev is Start,
        RingPhase::Acquiring => ev is Acquired,
        RingPhase::DrainCheck | RingPhase::Spinning | RingPhase::RecheckAfterSpin
        | RingPhase::FinalCheck => ev is HasData,
        RingPhase::Reading => ev is Consumed,
        RingPhase::Finished => false,
        _ => ev is Done,
    }
}

impl RingService {
    /// A run that has not started, for the channel `channel_id`.
    pub open spec fn initial(channel_id: u32) -> RingService {
        RingService {
            channel_id,
            phase: RingPhase::NotStarted,
            processed: false,
            spins: 0,
            acquired: false,
            held: false,
            cleared: false,
            status: None,
            fenced: false,
            last_data: None,
            empty_after_sleep: false,
            rescheduled: false,
        }
    }

    /// The state after asking for `action` and moving to `phase`, with the
    /// record of what was done brought up to date.
    pub open spec fn issue(self, phase: RingPhase, action: RingAction) -> (RingAction, RingService) {
        let s = RingService { phase, ..self };
        let s = match action {
            RingAction::ClearScheduled => RingService { cleared: true, ..s },
            RingAction::SetStatus(st) => RingService { status: Some(st), ..s },
            RingAction::Fence => RingService { fenced: true, ..s },
            RingAction::Release => RingService { held: false, ..s },
            RingAction::Reschedule => RingService { rescheduled: true, ..s },
            RingAction::SpinCheck => RingService { spins: (s.spins + 1) as u32, ..s },
            _ => s,
        };
        (action, s)
    }

    /// After the spin polls found nothing (or ran out): re-check the ring if
    /// anything was consumed, else announce sleep.
    pub open spec fn after_spin(self) -> (RingAction, RingService) {
        if self.processed {
            self.issue(RingPhase::RecheckAfterSpin, RingAction::CheckData)
        } else {
            self.issue(RingPhase::SettingAsleep, RingAction::SetStatus(RING_STATUS_ASLEEP))
        }
    }

    /// The transition table of the run: the next action and state, given the
    /// result `ev` of the last action.
    pub open spec fn next(self, ev: RingEvent) -> (RingAction, RingService) {
        match (self.phase, ev) {
            (RingPhase::NotStarted, RingEvent::Start) => self.issue(
                RingPhase::Acquiring,
                RingAction::TryAcquire,
            ),
            (RingPhase::Acquiring, RingEvent::Acquired(false)) => self.issue(
                RingPhase::ClearingBusy,
                RingAction::ClearScheduled,
            ),
            (RingPhase::Acquiring, RingEvent::Acquired(true)) => RingService {
                acquired: true,
                held: true,
                ..self
            }.issue(RingPhase::ClearingOwned, RingAction::ClearScheduled),
            (RingPhase::ClearingBusy, RingEvent::Done) => self.issue(
                RingPhase::Finished,
                RingAction::Finish,
            ),
            (RingPhase::ClearingOwned, RingEvent::Done) => self.issue(
                RingPhase::DrainCheck,
                RingAction::CheckData,
            ),
            (RingPhase::DrainCheck, RingEvent::HasData(d)) => {
                let s = RingService { last_data: Some(d), ..self };
                if d {
                    s.issue(RingPhase::ActivatingForRead, RingAction::SetStatus(RING_STATUS_ACTIVE))
                } else {
                    s.issue(RingPhase::SettingSpinning, RingAction::SetStatus(RING_STATUS_SPINNING))
                }
            },
            (RingPhase::ActivatingForRead, RingEvent::Done) => self.issue(
                RingPhase::Reading,
                RingAction::ReadAvailable,
            ),
            (RingPhase::Reading, RingEvent::Consumed(n)) => {
                if n > 0 {
                    let s = RingService { processed: true, ..self };
                    if self.channel_id != 0 {
                        s.issue(RingPhase::Completing, RingAction::CompleteSubmitted)
                    } else {
                        s.issue(RingPhase::DrainCheck, RingAction::CheckData)
                    }
                } else {
                    self.issue(RingPhase::SettingSpinning, RingAction::SetStatus(RING_STATUS_SPINNING))
                }
            },
            (RingPhase::Completing, RingEvent::Done) => self.issue(
                RingPhase::DrainCheck,
                RingAction::CheckData,
            ),
            (RingPhase::SettingSpinning, RingEvent::Done) => {
                if self.spins < DEFAULT_SPIN_COUNT {
                    self.issue(RingPhase::Spinning, RingAction::SpinCheck)
                } else {
                    self.after_spin()
                }
            },
            (RingPhase::Spinning, RingEvent::HasData(d)) => {
                let s = RingService { last_data: Some(d), ..self };
                if d {
                    s.issue(RingPhase::RecheckAfterSpin, RingAction::CheckData)
                } else if s.spins < DEFAULT_SPIN_COUNT {
                    s.issue(RingPhase::Spinning, RingAction::SpinCheck)
                } else {
                    s.after_spin()
                }
            },
            (RingPhase::RecheckAfterSpin, RingEvent::HasData(d)) => {
                let s = RingService { last_data: Some(d), ..self };
                if d {
                    s.issue(RingPhase::ActivatingForRequeue, RingAction::SetStatus(RING_STATUS_ACTIVE))
                } else {
                    s.issue(RingPhase::SettingAsleep, RingAction::SetStatus(RING_STATUS_ASLEEP))
                }
            },
            (RingPhase::ActivatingForRequeue, RingEvent::Done) => self.issue(
                RingPhase::ReleasingForRequeue,
                RingAction::Release,
            ),
            (RingPhase::ReleasingForRequeue, RingEvent::Done) => self.issue(
                RingPhase::Requeuing,
                RingAction::Reschedule,
            ),
            (RingPhase::Requeuing, RingEvent::Done) => self.issue(
                RingPhase::Finished,
                RingAction::Finish,
            ),
            (RingPhase::SettingAsleep, RingEvent::Done) => self.issue(
                RingPhase::Fencing,
                RingAction::Fence,
            ),
            (RingPhase::Fencing, RingEvent::Done) => self.issue(
                RingPhase::FinalCheck,
                RingAction::CheckData,
            ),
            (RingPhase::FinalCheck, RingEvent::HasData(d)) => {
                let s = RingService { last_data: Some(d), ..self };
                if d {
                    s.issue(RingPhase::ActivatingForRequeue, RingAction::SetStatus(RING_STATUS_ACTIVE))
                } else {
                    RingService { empty_after_sleep: true, ..s }.issue(
                        RingPhase::ReleasingAsleep,
                        RingAction::Release,
                    )
                }
            },
            (RingPhase::ReleasingAsleep, RingEvent::Done) => self.issue(
                RingPhase::Finished,
                RingAction::Finish,
            ),
            _ => (RingAction::Finish, self),
        }
    }

    /// How a finished run may have ended: the lock was busy and the run only
    /// cleared the flag; or the ring was left asleep after a data check, made
    /// after announcing sleep and fencing, found it empty; or the ring was
    /// left active with data in it and the channel rescheduled after the lock
    /// was released. In every case the lock is no longer held.
    pub open spec fn clean_finish(self) -> bool {
        &&& !self.held
        &&& self.cleared
        &&& {
            ||| (!self.acquired && self.status is None && !self.rescheduled)
            ||| (self.acquired && self.status == Some(RING_STATUS_ASLEEP) && self.fenced
                && self.empty_after_sleep && self.last_data == Some(false) && !self.rescheduled)
            ||| (self.acquired && self.status == Some(RING_STATUS_ACTIVE) && self.rescheduled
                && self.last_data == Some(true))
        }
    }

    /// The invariant of a run.
    pub open spec fn wf(self) -> bool {
        &&& self.held ==> self.acquired
        &&& self.spins <= DEFAULT_SPIN_COUNT
        &&& (self.spins > 0 ==> self.cleared)
        &&& match self.phase {
            RingPhase::NotStarted | RingPhase::Acquiring => {
                &&& !self.acquired
                &&& !self.cleared
                &&& self.status is None
                &&& !self.rescheduled
                &&& self.spins == 0
            },
            RingPhase::ClearingBusy => {
                &&& !self.acquired
                &&& self.cleared
                &&& self.status is None
                &&& !self.rescheduled
            },
            RingPhase::ClearingOwned | RingPhase::DrainCheck | RingPhase::ActivatingForRead
            | RingPhase::Reading | RingPhase::Completing | RingPhase::SettingSpinning
            | RingPhase::Spinning | RingPhase::RecheckAfterSpin => {
                &&& self.acquired
                &&& self.held
                &&& self.cleared
                &&& !self.rescheduled
                &&& (self.phase == RingPhase::ActivatingForRead || self.phase == RingPhase::Reading
                    ==> self.status == Some(RING_STATUS_ACTIVE))
                &&& (self.phase == RingPhase::Completing ==> self.channel_id != 0)
            },
            RingPhase::ActivatingForRequeue | RingPhase::ReleasingForRequeue => {
                &&& self.acquired
                &&& self.cleared
                &&& (self.phase == RingPhase::ActivatingForRequeue ==> self.held)
                &&& (self.phase == RingPhase::ReleasingForRequeue ==> !self.held)
                &&& self.status == Some(RING_STATUS_ACTIVE)
                &&& self.last_data == Some(true)
                &&& !self.rescheduled
            },
            RingPhase::Requeuing => {
                &&& self.acquired
                &&& self.cleared
                &&& !self.held
                &&& self.status == Some(RING_STATUS_ACTIVE)
                &&& self.last_data == Some(true)
                &&& self.rescheduled
            },
            RingPhase::SettingAsleep | RingPhase::Fencing | RingPhase::FinalCheck => {
                &&& self.acquired
                &&& self.held
                &&& self.cleared
                &&& self.status == Some(RING_STATUS_ASLEEP)
                &&& (self.phase != RingPhase::SettingAsleep ==> self.fenced)
                &&& !self.rescheduled
            },
            RingPhase::ReleasingAsleep => {
                &&& self.acquired
                &&& !self.held
                &&& self.cleared
                &&& self.status == Some(RING_STATUS_ASLEEP)
                &&& self.fenced
                &&& self.empty_after_sleep
                &&& self.last_data == Some(false)
                &&& !self.rescheduled
            },
            RingPhase::Finished => self.clean_finish(),
        }
    }
}

impl RingService {
    /// A run of the channel `channel_id` that has not started yet; its first
    /// event is `Start`.
    pub fn new(channel_id: u32) -> (s: Self)
        ensures
            s == RingService::initial(channel_id),
            s.wf(),
    {
        RingService {
            channel_id,
            phase: RingPhase::NotStarted,
            processed: false,
            spins: 0,
            acquired: false,
            held: false,
            cleared: false,
            status: None,
            fenced: false,
            last_data: None,
            empty_after_sleep: false,
            rescheduled: false,
        }
    }

    /// Whether the run awaits an event such as `ev`.
    pub fn accepts(&self, ev: RingEvent) -> (b: bool)
        ensures
            b == expects(self.phase, ev),
    {
        match self.phase {
            RingPhase::NotStarted => matches!(ev, RingEvent::Start),
            RingPhase::Acquiring => matches!(ev, RingEvent::Acquired(_)),
            RingPhase::DrainCheck | RingPhase::Spinning | RingPhase::RecheckAfterSpin
            | RingPhase::FinalCheck => matches!(ev, RingEvent::HasData(_)),
            RingPhase::Reading => matches!(ev, RingEvent::Consumed(_)),
            RingPhase::Finished => false,
            _ => matches!(ev, RingEvent::Done),
        }
    }

    /// Whether the run is over.
    pub fn is_finished(&self) -> (b: bool)
        ensures
            b == (self.phase == RingPhase::Finished),
    {
        matches!(self.phase, RingPhase::Finished)
    }

    fn issue_action(&mut self, phase: RingPhase, action: RingAction) -> (a: RingAction)
        requires
            action is SpinCheck ==> old(self).spins < DEFAULT_SPIN_COUNT,
        ensures
            (a, *final(self)) == old(self).issue(phase, action),
    {
        self.phase = phase;
        match action {
            RingAction::ClearScheduled => self.cleared = true,
            RingAction::SetStatus(st) => self.status = Some(st),
            RingAction::Fence => self.fenced = true,
            RingAction::Release => self.held = false,
            RingAction::Reschedule => self.rescheduled = true,
            RingAction::SpinCheck => self.spins = self.spins + 1,
            _ => {},
        }
        action
    }

    fn finish_spinning(&mut self) -> (a: RingAction)
        ensures
            (a, *final(self)) == old(self).after_spin(),
    {
        if self.processed {
            self.issue_action(RingPhase::RecheckAfterSpin, RingAction::CheckData)
        } else {
            self.issue_action(RingPhase::SettingAsleep, RingAction::SetStatus(RING_STATUS_ASLEEP))
        }
    }

    /// Takes the result of the last action and returns the next action, as
    /// the transition table `next` says.
    pub fn step(&mut self, ev: RingEvent) -> (action: RingAction)
        requires
            expects(old(self).phase, ev),
        ensures
            (action, *final(self)) == old(self).next(ev),
    {
        match (self.phase, ev) {
            (RingPhase::NotStarted, RingEvent::Start) => self.issue_action(
                RingPhase::Acquiring,
                RingAction::TryAcquire,
            ),
            (RingPhase::Acquiring, RingEvent::Acquired(got)) => {
                if got {
                    self.acquired = true;
                    self.held = true;
                    self.issue_action(RingPhase::ClearingOwned, RingAction::ClearScheduled)
                } else {
                    self.issue_action(RingPhase::ClearingBusy, RingAction::ClearScheduled)
                }
            },
            (RingPhase::ClearingBusy, RingEvent::Done) => self.issue_action(
                RingPhase::Finished,
                RingAction::Finish,
            ),
            (RingPhase::ClearingOwned, RingEvent::Done) => self.issue_action(
                RingPhase::DrainCheck,
                RingAction::CheckData,
            ),
            (RingPhase::DrainCheck, RingEvent::HasData(d)) => {
                self.last_data = Some(d);
                if d {
                    self.issue_action(RingPhase::ActivatingForRead, RingAction::SetStatus(RING_STATUS_ACTIVE))
                } else {
                    self.issue_action(RingPhase::SettingSpinning, RingAction::SetStatus(RING_STATUS_SPINNING))
                }
            },
            (RingPhase::ActivatingForRead, RingEvent::Done) => self.issue_action(
                RingPhase::Reading,
                RingAction::ReadAvailable,
            ),
            (RingPhase::Reading, RingEvent::Consumed(n)) => {
                if n > 0 {
                    self.processed = true;
                    if self.channel_id != 0 {
                        self.issue_action(RingPhase::Completing, RingAction::CompleteSubmitted)
                    } else {
                        self.issue_action(RingPhase::DrainCheck, RingAction::CheckData)
                    }
                } else {
                    self.issue_action(RingPhase::SettingSpinning, RingAction::SetStatus(RING_STATUS_SPINNING))
                }
            },
            (RingPhase::Completing, RingEvent::Done) => self.issue_action(
                RingPhase::DrainCheck,
                RingAction::CheckData,
            ),
            (RingPhase::SettingSpinning, RingEvent::Done) => {
                if self.spins < DEFAULT_SPIN_COUNT {
                    self.issue_action(RingPhase::Spinning, RingAction::SpinCheck)
                } else {
                    self.finish_spinning()
                }
            },
            (RingPhase::Spinning, RingEvent::HasData(d)) => {
                self.last_data = Some(d);
                if d {
                    self.issue_action(RingPhase::RecheckAfterSpin, RingAction::CheckData)
                } else if self.spins < DEFAULT_SPIN_COUNT {
                    self.issue_action(RingPhase::Spinning, RingAction::SpinCheck)
                } else {
                    self.finish_spinning()
                }
            },
            (RingPhase::RecheckAfterSpin, RingEvent::HasData(d)) => {
                self.last_data = Some(d);
                if d {
                    self.issue_action(RingPhase::ActivatingForRequeue, RingAction::SetStatus(RING_STATUS_ACTIVE))
                } else {
                    self.issue_action(RingPhase::SettingAsleep, RingAction::SetStatus(RING_STATUS_ASLEEP))
                }
            },
            (RingPhase::ActivatingForRequeue, RingEvent::Done) => self.issue_action(
                RingPhase::ReleasingForRequeue,
                RingAction::Release,
            ),
            (RingPhase::ReleasingForRequeue, RingEvent::Done) => self.issue_action(
                RingPhase::Requeuing,
                RingAction::Reschedule,
            ),
            (RingPhase::Requeuing, RingEvent::Done) => self.issue_action(
                RingPhase::Finished,
                RingAction::Finish,
            ),
            (RingPhase::SettingAsleep, RingEvent::Done) => self.issue_action(
                RingPhase::Fencing,
                RingAction::Fence,
            ),
            (RingPhase::Fencing, RingEvent::Done) => self.issue_action(
                RingPhase::FinalCheck,
                RingAction::CheckData,
            ),
            (RingPhase::FinalCheck, RingEvent::HasData(d)) => {
                self.last_data = Some(d);
                if d {
                    self.issue_action(RingPhase::ActivatingForRequeue, RingAction::SetStatus(RING_STATUS_ACTIVE))
                } else {
                    self.empty_after_sleep = true;
                    self.issue_action(RingPhase::ReleasingAsleep, RingAction::Release)
                }
            },
            (RingPhase::ReleasingAsleep, RingEvent::Done) => self.issue_action(
                RingPhase::Finished,
                RingAction::Finish,
            ),
            _ => RingAction::Finish,
        }
    }
}

/// Every step keeps the invariant of a run.
pub proof fn run_keeps_invariant(s: RingService, ev: RingEvent)
    requires
        s.wf(),
        expects(s.phase, ev),
    ensures
        s.next(ev).1.wf(),
{
}

/// The ring and the channel's processing state are touched only by the
/// thread that holds the processing lock, and only after the channel's
/// "scheduled" flag was cleared: every data check, status write, read,
/// completion update, spin poll and fence is asked for while the lock is
/// held; the lock is released at most once, by its holder; the channel is
/// rescheduled only after the lock was released.
pub proof fn ring_touched_only_under_lock(s: RingService, ev: RingEvent)
    requires
        s.wf(),
        expects(s.phase, ev),
    ensures
        ({
            let (a, t) = s.next(ev);
            &&& (a is CheckData || a is SetStatus || a is ReadAvailable || a is CompleteSubmitted
                || a is SpinCheck || a is Fence) ==> t.held && t.cleared
            &&& a is Release ==> s.held && !t.held
            &&& a is Reschedule ==> !t.held
        }),
{
}

/// Commands are read only while the ring's status says ACTIVE, and the
/// completed sequence number of a queue channel (any channel but 0) is
/// brought up to the submitted one only right after a read that consumed
/// something.
pub proof fn reads_happen_while_active(s: RingService, ev: RingEvent)
    requires
        s.wf(),
        expects(s.phase, ev),
    ensures
        ({
            let (a, t) = s.next(ev);
            &&& a is ReadAvailable ==> t.status == Some(RING_STATUS_ACTIVE)
            &&& a is CompleteSubmitted ==> s.channel_id != 0 && (ev matches RingEvent::Consumed(
                n,
            ) && n > 0)
        }),
{
}

/// No wake-up is lost: a run that ends either found the lock busy (and only
/// cleared the flag), or left the ring asleep only after a data check made
/// after announcing sleep and fencing found it empty, or left the ring active
/// and rescheduled the channel because data was pending. The lock is never
/// held at the end, and the number of spin polls never exceeds the limit.
pub proof fn run_ends_cleanly(s: RingService, ev: RingEvent)
    requires
        s.wf(),
        expects(s.phase, ev),
    ensures
        s.next(ev).0 is Finish ==> s.next(ev).1.phase == RingPhase::Finished && s.next(
            ev,
        ).1.clean_finish(),
        s.next(ev).1.spins <= DEFAULT_SPIN_COUNT,
{
}

/// Every read that consumed bytes on a queue channel (any channel but 0)
/// is followed by bringing the ring's completed sequence number up to its
/// submitted one, whatever was read earlier in the run; after that the
/// drain goes on with a fresh data check.
pub proof fn every_consuming_read_completes_submitted(s: RingService, n: usize)
    requires
        s.wf(),
        s.phase == RingPhase::Reading,
        s.channel_id != 0,
        n > 0,
    ensures
        s.next(RingEvent::Consumed(n)).0 == RingAction::CompleteSubmitted,
        s.next(RingEvent::Consumed(n)).1.processed,
        s.next(RingEvent::Consumed(n)).1.next(RingEvent::Done).0 == RingAction::CheckData,
{
}

/// On the CPU channel (channel 0) a read that consumed bytes is followed
/// directly by another data check: the completed sequence number of that
/// ring is advanced per command by the drain itself.
pub proof fn cpu_channel_read_goes_on_draining(s: RingService, n: usize)
    requires
        s.wf(),
        s.phase == RingPhase::Reading,
        s.channel_id == 0,
        n > 0,
    ensures
        s.next(RingEvent::Consumed(n)).0 == RingAction::CheckData,
        s.next(RingEvent::Consumed(n)).1.processed,
{
}

/// A read that consumed nothing ends the drain: the ring is marked
/// spinning, on any channel, and no completion is recorded.
pub proof fn empty_read_stops_draining(s: RingService)
    requires
        s.wf(),
        s.phase == RingPhase::Reading,
    ensures
        s.next(RingEvent::Consumed(0)).0 == RingAction::SetStatus(RING_STATUS_SPINNING),
        s.next(RingEvent::Consumed(0)).1.processed == s.processed,
{
}

/// While draining, pending data is always read, after marking the ring
/// active; a dry ring starts the spin phase.
pub proof fn pending_data_is_read(s: RingService)
    requires
        s.wf(),
        s.phase == RingPhase::DrainCheck,
    ensures
        s.next(RingEvent::HasData(true)).0 == RingAction::SetStatus(RING_STATUS_ACTIVE),
        s.next(RingEvent::HasData(true)).1.next(RingEvent::Done).0 == RingAction::ReadAvailable,
        s.next(RingEvent::HasData(false)).0 == RingAction::SetStatus(RING_STATUS_SPINNING),
{
}

/// Whether or not the processing lock was obtained, the channel's flag is
/// cleared first; a run that did not get the lock then ends, a run that got
/// it looks at the ring.
pub proof fn flag_cleared_then_lock_decides(s: RingService)
    requires
        s.wf(),
        s.phase == RingPhase::Acquiring,
    ensures
        s.next(RingEvent::Acquired(false)).0 == RingAction::ClearScheduled,
        s.next(RingEvent::Acquired(false)).1.next(RingEvent::Done).0 == RingAction::Finish,
        s.next(RingEvent::Acquired(true)).0 == RingAction::ClearScheduled,
        s.next(RingEvent::Acquired(true)).1.held,
        s.next(RingEvent::Acquired(true)).1.next(RingEvent::Done).0 == RingAction::CheckData,
{
}

/// The spin phase polls the ring until it sees data or has polled
/// `DEFAULT_SPIN_COUNT` times; seeing data leads to a re-check, and running
/// out leads to a re-check if the run consumed anything, else to sleep.
pub proof fn spin_polls_until_data_or_limit(s: RingService)
    requires
        s.wf(),
        s.phase == RingPhase::Spinning,
    ensures
        s.next(RingEvent::HasData(true)).0 == RingAction::CheckData,
        s.spins < DEFAULT_SPIN_COUNT ==> s.next(RingEvent::HasData(false)).0
            == RingAction::SpinCheck && s.next(RingEvent::HasData(false)).1.spins == s.spins + 1,
        s.spins == DEFAULT_SPIN_COUNT && s.processed ==> s.next(RingEvent::HasData(false)).0
            == RingAction::CheckData,
        s.spins == DEFAULT_SPIN_COUNT && !s.processed ==> s.next(RingEvent::HasData(false)).0
            == RingAction::SetStatus(RING_STATUS_ASLEEP),
{
}

/// Going to sleep: the ring is marked asleep, a fence follows, then a last
/// data check. If it finds nothing the lock is released and the run ends;
/// if it finds data the ring is marked active again, the lock is released,
/// the channel is rescheduled and the run ends.
pub proof fn sleep_is_checked_after_fence(s: RingService)
    requires
        s.wf(),
        s.phase == RingPhase::SettingAsleep,
    ensures
        ({
            let f = s.next(RingEvent::Done);
            let c = f.1.next(RingEvent::Done);
            let empty = c.1.next(RingEvent::HasData(false));
            let busy = c.1.next(RingEvent::HasData(true));
            let b1 = busy.1.next(RingEvent::Done);
            let b2 = b1.1.next(RingEvent::Done);
            &&& f.0 == RingAction::Fence
            &&& c.0 == RingAction::CheckData
            &&& empty.0 == RingAction::Release
            &&& empty.1.next(RingEvent::Done).0 == RingAction::Finish
            &&& busy.0 == RingAction::SetStatus(RING_STATUS_ACTIVE)
            &&& b1.0 == RingAction::Release
            &&& b2.0 == RingAction::Reschedule
            &&& b2.1.next(RingEvent::Done).0 == RingAction::Finish
        }),
{
}

/// After the spin phase, a re-check that finds data requeues the channel
/// (marked active, lock released, rescheduled); one that finds nothing puts
/// the ring to sleep.
pub proof fn recheck_requeues_or_sleeps(s: RingService)
    requires
        s.wf(),
        s.phase == RingPhase::RecheckAfterSpin,
    ensures
        ({
            let busy = s.next(RingEvent::HasData(true));
            let b1 = busy.1.next(RingEvent::Done);
            &&& busy.0 == RingAction::SetStatus(RING_STATUS_ACTIVE)
            &&& b1.0 == RingAction::Release
            &&& b1.1.next(RingEvent::Done).0 == RingAction::Reschedule
            &&& s.next(RingEvent::HasData(false)).0 == RingAction::SetStatus(RING_STATUS_ASLEEP)
        }),
{
}

/// A run begins by trying the processing lock, and the spin phase begins
/// with a poll when polls are left.
pub proof fn run_starts_with_lock_and_spin_starts_with_poll(s: RingService)
    requires
        s.wf(),
    ensures
        s.phase == RingPhase::NotStarted ==> s.next(RingEvent::Start).0 == RingAction::TryAcquire,
        s.phase == RingPhase::SettingSpinning && s.spins < DEFAULT_SPIN_COUNT ==> s.next(
            RingEvent::Done,
        ).0 == RingAction::SpinCheck && s.next(RingEvent::Done).1.spins == s.spins + 1,
        s.phase == RingPhase::Completing ==> s.next(RingEvent::Done).0 == RingAction::CheckData,
{
}

/// The sequence number that follows `completed` is `completed + 1` modulo
/// 2^32.
pub proof fn successor_wraps_modulo(completed: u32)
    ensures
        successor_seqno(completed) as int == (completed as int + 1) % 0x1_0000_0000,
{
}

/// What the drain of the ring does after dispatching one decoded command.
#[derive(PartialEq, Eq, Structural, Clone, Copy, Debug)]
pub enum DrainStep {
    /// The dispatch failed: stop decoding this slice.
    Stop,
    /// Decode the next command.
    Continue,
    /// CPU channel: store `seqno` as the ring's completed sequence number,
    /// publish it (widened) as the completed CPU sequence number, then
    /// decode the next command.
    Complete { seqno: u32 },
}

/// The sequence number that follows `completed` on the ring, wrapping to 0
/// after `u32::MAX`.
pub open spec fn successor_seqno(completed: u32) -> u32 {
    if completed == u32::MAX { 0 } else { (completed + 1) as u32 }
}

/// Decides what follows the dispatch of one decoded command on channel
/// `channel_id`, given whether the dispatch succeeded and the ring's current
/// completed sequence number: a failed dispatch stops the drain; on the CPU
/// channel (channel 0) each dispatched command completes the next sequence
/// number; on any other channel the drain just goes on.
pub fn after_dispatch(channel_id: u32, dispatched: bool, completed: u32) -> (step: DrainStep)
    ensures
        !dispatched ==> step == DrainStep::Stop,
        dispatched && channel_id == 0 ==> step == (DrainStep::Complete {
            seqno: successor_seqno(completed),
        }),
        dispatched && channel_id != 0 ==> step == DrainStep::Continue,
{
    if !dispatched {
        DrainStep::Stop
    } else if channel_id == 0 {
        let seqno: u32 = if completed == u32::MAX { 0 } else { completed + 1 };
        DrainStep::Complete { seqno }
    } else {
        DrainStep::Continue
    }
}

/// Whether a channel is idle for someone waiting on it: its ring holds no
/// unread data and it is neither queued nor taken by a worker. A waiter
/// spins until this holds, then confirms it again under the processing lock.
pub fn is_quiescent(has_data: bool, scheduled: bool) -> (b: bool)
    ensures
        b == (!has_data && !scheduled),
{
    !has_data && !scheduled
}

} // verus!
