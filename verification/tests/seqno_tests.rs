use magma_virtio::seqno::{seqno_reached, SeqnoAction, SeqnoEvent, SeqnoUpdate};

#[test]
fn raising_the_cell_wakes_waiters() {
    let mut u = SeqnoUpdate::new(10);
    assert!(u.accepts(&SeqnoEvent::Loaded(4)));
    assert!(!u.accepts(&SeqnoEvent::Exchanged));
    assert_eq!(u.step(SeqnoEvent::Loaded(4)), SeqnoAction::Exchange { expected: 4, new: 10 });
    assert!(u.accepts(&SeqnoEvent::Exchanged));
    assert_eq!(u.step(SeqnoEvent::Exchanged), SeqnoAction::NotifyWaiters);
    assert!(u.finished);
    assert!(u.stored);
    assert!(!u.accepts(&SeqnoEvent::Loaded(0)));
}

#[test]
fn cell_already_ahead_stops_silently() {
    let mut u = SeqnoUpdate::new(10);
    assert_eq!(u.step(SeqnoEvent::Loaded(10)), SeqnoAction::Done);
    assert!(u.finished);
    assert!(!u.stored);
    let mut v = SeqnoUpdate::new(10);
    assert_eq!(v.step(SeqnoEvent::Loaded(25)), SeqnoAction::Done);
}

#[test]
fn failed_exchange_retries_from_the_new_value() {
    let mut u = SeqnoUpdate::new(10);
    assert_eq!(u.step(SeqnoEvent::Loaded(3)), SeqnoAction::Exchange { expected: 3, new: 10 });
    assert_eq!(
        u.step(SeqnoEvent::ExchangeFailed(7)),
        SeqnoAction::Exchange { expected: 7, new: 10 }
    );
    assert_eq!(u.observed, Some(7));
    assert_eq!(u.step(SeqnoEvent::ExchangeFailed(12)), SeqnoAction::Done);
    assert!(!u.stored);
}

#[test]
fn reached_means_at_least_target() {
    assert!(seqno_reached(5, 5));
    assert!(seqno_reached(6, 5));
    assert!(!seqno_reached(4, 5));
    assert!(seqno_reached(0, 0));
}
