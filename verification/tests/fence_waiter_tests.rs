use magma_virtio::fence_waiter::{FenceAction, FenceWaiter, PendingFences, KILL_TOKEN, RESAMPLE_TOKEN};

#[test]
fn watched_fence_signalled_once() {
    let mut w: FenceWaiter<&str> = FenceWaiter::new();
    assert!(w.watch(42, "fence-42", true).is_none());
    assert!(w.is_watching(42));
    assert_eq!(w.num_watched(), 1);
    match w.on_event(42) {
        FenceAction::Signal(f) => assert_eq!(f, "fence-42"),
        _ => panic!("expected signal"),
    }
    assert!(!w.is_watching(42));
    assert!(matches!(w.on_event(42), FenceAction::Ignore));
}

#[test]
fn unwatchable_fence_comes_back() {
    let mut w: FenceWaiter<u32> = FenceWaiter::new();
    assert_eq!(w.watch(7, 70, false), Some(70));
    assert!(!w.is_watching(7));
    assert_eq!(w.num_watched(), 0);
}

#[test]
fn tokens_take_precedence() {
    let mut w: FenceWaiter<u32> = FenceWaiter::new();
    assert!(w.watch(5, 50, true).is_none());
    assert!(matches!(w.on_event(KILL_TOKEN), FenceAction::Exit));
    assert!(matches!(w.on_event(RESAMPLE_TOKEN), FenceAction::Resample));
    assert_eq!(KILL_TOKEN, 1);
    assert_eq!(RESAMPLE_TOKEN, 2);
    // A fence registered under a token id is never signalled.
    assert!(w.watch(KILL_TOKEN, 10, true).is_none());
    assert!(matches!(w.on_event(KILL_TOKEN), FenceAction::Exit));
    assert!(w.is_watching(KILL_TOKEN));
    assert!(w.is_watching(5));
}

#[test]
fn unknown_event_is_ignored() {
    let mut w: FenceWaiter<u32> = FenceWaiter::new();
    assert!(matches!(w.on_event(99), FenceAction::Ignore));
}

#[test]
fn same_id_replaces_watched_fence() {
    let mut w: FenceWaiter<u32> = FenceWaiter::new();
    assert!(w.watch(9, 1, true).is_none());
    assert!(w.watch(9, 2, true).is_none());
    assert_eq!(w.num_watched(), 1);
    match w.on_event(9) {
        FenceAction::Signal(f) => assert_eq!(f, 2),
        _ => panic!("expected signal"),
    }
}

#[test]
fn pending_fences_taken_in_order() {
    let mut p: PendingFences<&str> = PendingFences::new();
    p.push(10, "a");
    p.push(11, "b");
    p.push(12, "c");
    assert_eq!(p.len(), 3);
    let taken = p.take_all();
    assert_eq!(taken, vec![(10, "a"), (11, "b"), (12, "c")]);
    assert_eq!(p.len(), 0);
    assert!(p.take_all().is_empty());
}
