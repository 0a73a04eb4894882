use magma_virtio::scheduler::{worker_count, ChannelScheduler, SlotState, WorkerStep};

#[test]
fn worker_count_rules() {
    assert_eq!(worker_count(None), 4);
    assert_eq!(worker_count(Some(0)), 2);
    assert_eq!(worker_count(Some(1)), 2);
    assert_eq!(worker_count(Some(2)), 2);
    assert_eq!(worker_count(Some(16)), 16);
}

#[test]
fn empty_scheduler_makes_workers_wait() {
    let mut s = ChannelScheduler::new();
    assert_eq!(s.num_channels(), 0);
    assert_eq!(s.next_job(), WorkerStep::Wait);
}

#[test]
fn schedule_is_idempotent() {
    let mut s = ChannelScheduler::new();
    let a = s.add_channel();
    assert_eq!(a, 0);
    assert!(!s.is_scheduled(a));
    assert!(s.schedule(a));
    assert!(s.is_scheduled(a));
    assert!(!s.schedule(a));
    assert_eq!(s.next_job(), WorkerStep::Run(a));
    assert_eq!(s.next_job(), WorkerStep::Wait);
}

#[test]
fn channels_served_in_schedule_order() {
    let mut s = ChannelScheduler::new();
    let a = s.add_channel();
    let b = s.add_channel();
    let c = s.add_channel();
    assert!(s.schedule(b));
    assert!(s.schedule(c));
    assert!(s.schedule(a));
    assert_eq!(s.next_job(), WorkerStep::Run(b));
    assert_eq!(s.next_job(), WorkerStep::Run(c));
    assert_eq!(s.next_job(), WorkerStep::Run(a));
    assert_eq!(s.next_job(), WorkerStep::Wait);
}

#[test]
fn taken_channel_stays_flagged_until_cleared() {
    let mut s = ChannelScheduler::new();
    let a = s.add_channel();
    assert!(s.schedule(a));
    assert_eq!(s.next_job(), WorkerStep::Run(a));
    // Taken but not cleared: scheduling again does nothing.
    assert!(s.is_scheduled(a));
    assert!(!s.schedule(a));
    assert_eq!(s.next_job(), WorkerStep::Wait);
    s.clear_scheduled(a);
    assert!(!s.is_scheduled(a));
    assert!(s.schedule(a));
    assert_eq!(s.next_job(), WorkerStep::Run(a));
}

#[test]
fn clearing_a_queued_channel_changes_nothing() {
    let mut s = ChannelScheduler::new();
    let a = s.add_channel();
    assert!(s.schedule(a));
    s.clear_scheduled(a);
    assert!(s.is_scheduled(a));
    assert_eq!(s.next_job(), WorkerStep::Run(a));
}

#[test]
fn shutdown_makes_every_worker_exit() {
    let mut s = ChannelScheduler::new();
    let a = s.add_channel();
    assert!(s.schedule(a));
    s.shut_down();
    assert_eq!(s.next_job(), WorkerStep::Exit);
    assert_eq!(s.next_job(), WorkerStep::Exit);
    // The queued channel is still flagged.
    assert!(s.is_scheduled(a));
}

#[test]
fn slot_states_are_distinct() {
    assert_ne!(SlotState::Idle, SlotState::Queued);
    assert_ne!(SlotState::Queued, SlotState::Dispatched);
}
