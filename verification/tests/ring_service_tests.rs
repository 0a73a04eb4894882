use magma_virtio::ring_service::{
    after_dispatch, is_quiescent, DrainStep, RingAction, RingEvent, RingPhase, RingService,
    DEFAULT_SPIN_COUNT, RING_STATUS_ACTIVE, RING_STATUS_ASLEEP, RING_STATUS_SPINNING,
};

fn drive(s: &mut RingService, ev: RingEvent) -> RingAction {
    assert!(s.accepts(ev));
    s.step(ev)
}

/// Starts a run and acquires the lock; returns after the first data check is asked for.
fn start_owned(channel: u32) -> RingService {
    let mut s = RingService::new(channel);
    assert_eq!(drive(&mut s, RingEvent::Start), RingAction::TryAcquire);
    assert_eq!(drive(&mut s, RingEvent::Acquired(true)), RingAction::ClearScheduled);
    assert_eq!(drive(&mut s, RingEvent::Done), RingAction::CheckData);
    s
}

/// Answers every spin poll with "no data" and returns the action after the polls.
fn spin_dry(s: &mut RingService) -> RingAction {
    let mut polls = 0u32;
    let mut a = drive(s, RingEvent::Done);
    while a == RingAction::SpinCheck {
        polls += 1;
        a = drive(s, RingEvent::HasData(false));
    }
    assert_eq!(polls, DEFAULT_SPIN_COUNT);
    a
}

#[test]
fn busy_channel_only_clears_its_flag() {
    let mut s = RingService::new(1);
    assert!(!s.accepts(RingEvent::Done));
    assert_eq!(drive(&mut s, RingEvent::Start), RingAction::TryAcquire);
    assert_eq!(drive(&mut s, RingEvent::Acquired(false)), RingAction::ClearScheduled);
    assert_eq!(drive(&mut s, RingEvent::Done), RingAction::Finish);
    assert!(s.is_finished());
    assert!(!s.held);
    assert_eq!(s.status, None);
    assert!(!s.accepts(RingEvent::Done));
}

#[test]
fn empty_ring_goes_to_sleep() {
    let mut s = start_owned(0);
    assert_eq!(
        drive(&mut s, RingEvent::HasData(false)),
        RingAction::SetStatus(RING_STATUS_SPINNING)
    );
    assert_eq!(spin_dry(&mut s), RingAction::SetStatus(RING_STATUS_ASLEEP));
    assert_eq!(drive(&mut s, RingEvent::Done), RingAction::Fence);
    assert_eq!(drive(&mut s, RingEvent::Done), RingAction::CheckData);
    assert_eq!(drive(&mut s, RingEvent::HasData(false)), RingAction::Release);
    assert_eq!(drive(&mut s, RingEvent::Done), RingAction::Finish);
    assert_eq!(s.phase, RingPhase::Finished);
    assert_eq!(s.status, Some(RING_STATUS_ASLEEP));
    assert!(s.empty_after_sleep);
    assert!(!s.rescheduled);
}

#[test]
fn queue_channel_completes_submitted_after_read() {
    let mut s = start_owned(3);
    assert_eq!(
        drive(&mut s, RingEvent::HasData(true)),
        RingAction::SetStatus(RING_STATUS_ACTIVE)
    );
    assert_eq!(drive(&mut s, RingEvent::Done), RingAction::ReadAvailable);
    assert_eq!(drive(&mut s, RingEvent::Consumed(64)), RingAction::CompleteSubmitted);
    assert_eq!(drive(&mut s, RingEvent::Done), RingAction::CheckData);
    assert!(s.processed);
}

#[test]
fn cpu_channel_does_not_complete_submitted() {
    let mut s = start_owned(0);
    assert_eq!(
        drive(&mut s, RingEvent::HasData(true)),
        RingAction::SetStatus(RING_STATUS_ACTIVE)
    );
    assert_eq!(drive(&mut s, RingEvent::Done), RingAction::ReadAvailable);
    assert_eq!(drive(&mut s, RingEvent::Consumed(16)), RingAction::CheckData);
}

#[test]
fn zero_consumed_stops_draining() {
    let mut s = start_owned(2);
    drive(&mut s, RingEvent::HasData(true));
    drive(&mut s, RingEvent::Done);
    assert_eq!(
        drive(&mut s, RingEvent::Consumed(0)),
        RingAction::SetStatus(RING_STATUS_SPINNING)
    );
    assert!(!s.processed);
}

#[test]
fn processed_run_rechecks_after_spinning_and_requeues() {
    let mut s = start_owned(4);
    drive(&mut s, RingEvent::HasData(true));
    drive(&mut s, RingEvent::Done);
    assert_eq!(drive(&mut s, RingEvent::Consumed(8)), RingAction::CompleteSubmitted);
    assert_eq!(drive(&mut s, RingEvent::Done), RingAction::CheckData);
    assert_eq!(
        drive(&mut s, RingEvent::HasData(false)),
        RingAction::SetStatus(RING_STATUS_SPINNING)
    );
    // The spins find nothing, but work was done: check once more.
    assert_eq!(spin_dry(&mut s), RingAction::CheckData);
    assert_eq!(
        drive(&mut s, RingEvent::HasData(true)),
        RingAction::SetStatus(RING_STATUS_ACTIVE)
    );
    assert_eq!(drive(&mut s, RingEvent::Done), RingAction::Release);
    assert_eq!(drive(&mut s, RingEvent::Done), RingAction::Reschedule);
    assert_eq!(drive(&mut s, RingEvent::Done), RingAction::Finish);
    assert!(s.rescheduled);
    assert!(!s.held);
}

#[test]
fn processed_run_sleeps_when_recheck_is_empty() {
    let mut s = start_owned(4);
    drive(&mut s, RingEvent::HasData(true));
    drive(&mut s, RingEvent::Done);
    drive(&mut s, RingEvent::Consumed(8));
    drive(&mut s, RingEvent::Done);
    drive(&mut s, RingEvent::HasData(false));
    assert_eq!(spin_dry(&mut s), RingAction::CheckData);
    assert_eq!(
        drive(&mut s, RingEvent::HasData(false)),
        RingAction::SetStatus(RING_STATUS_ASLEEP)
    );
}

#[test]
fn spin_that_sees_data_rechecks_and_requeues() {
    let mut s = start_owned(0);
    drive(&mut s, RingEvent::HasData(false));
    assert_eq!(drive(&mut s, RingEvent::Done), RingAction::SpinCheck);
    assert_eq!(drive(&mut s, RingEvent::HasData(false)), RingAction::SpinCheck);
    assert_eq!(drive(&mut s, RingEvent::HasData(true)), RingAction::CheckData);
    assert_eq!(s.spins, 2);
    assert_eq!(
        drive(&mut s, RingEvent::HasData(true)),
        RingAction::SetStatus(RING_STATUS_ACTIVE)
    );
}

#[test]
fn data_after_sleep_announcement_is_not_lost() {
    let mut s = start_owned(0);
    drive(&mut s, RingEvent::HasData(false));
    assert_eq!(spin_dry(&mut s), RingAction::SetStatus(RING_STATUS_ASLEEP));
    assert_eq!(drive(&mut s, RingEvent::Done), RingAction::Fence);
    assert_eq!(drive(&mut s, RingEvent::Done), RingAction::CheckData);
    assert_eq!(
        drive(&mut s, RingEvent::HasData(true)),
        RingAction::SetStatus(RING_STATUS_ACTIVE)
    );
    assert_eq!(drive(&mut s, RingEvent::Done), RingAction::Release);
    assert_eq!(drive(&mut s, RingEvent::Done), RingAction::Reschedule);
    assert_eq!(drive(&mut s, RingEvent::Done), RingAction::Finish);
    assert_eq!(s.status, Some(RING_STATUS_ACTIVE));
}

#[test]
fn wrong_event_is_refused() {
    let mut s = start_owned(0);
    assert!(!s.accepts(RingEvent::Done));
    assert!(!s.accepts(RingEvent::Consumed(1)));
    assert!(s.accepts(RingEvent::HasData(true)));
}

#[test]
fn dispatch_decisions() {
    assert_eq!(after_dispatch(0, false, 5), DrainStep::Stop);
    assert_eq!(after_dispatch(3, false, 5), DrainStep::Stop);
    assert_eq!(after_dispatch(0, true, 5), DrainStep::Complete { seqno: 6 });
    assert_eq!(after_dispatch(0, true, u32::MAX), DrainStep::Complete { seqno: 0 });
    assert_eq!(after_dispatch(3, true, 5), DrainStep::Continue);
}

#[test]
fn quiescence() {
    assert!(is_quiescent(false, false));
    assert!(!is_quiescent(true, false));
    assert!(!is_quiescent(false, true));
    assert!(!is_quiescent(true, true));
}
