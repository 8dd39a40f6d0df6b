use audio_spectrum::link::Link;
use audio_spectrum::link::Poll;
use audio_spectrum::link::ReadySignal;
use audio_spectrum::link::ResultSlot;

fn ready<T>(poll: Poll<T>) -> Option<T> {
    match poll {
        Poll::Ready(value) => Some(value),
        _ => None,
    }
}

#[test]
fn new_signal_holds_no_token() {
    let mut signal = ReadySignal::new();
    assert!(!signal.is_raised());
    assert!(!signal.take());
}

#[test]
fn raising_twice_leaves_one_token() {
    let mut signal = ReadySignal::new();
    assert!(signal.raise());
    assert!(!signal.raise());
    assert!(signal.is_raised());
    assert!(signal.take());
    assert!(!signal.take());
    assert!(!signal.is_raised());
}

#[test]
fn empty_slot_is_pending() {
    let mut slot: ResultSlot<u32> = ResultSlot::new();
    assert!(!slot.is_occupied());
    assert!(!slot.is_closed());
    assert!(matches!(slot.take(), Poll::Pending));
}

#[test]
fn offer_stores_one_and_drops_the_next() {
    let mut slot: ResultSlot<u32> = ResultSlot::new();
    assert!(slot.offer(1));
    assert!(slot.is_occupied());
    assert!(!slot.offer(2));
    assert_eq!(ready(slot.take()), Some(1));
    assert!(!slot.is_occupied());
    assert!(matches!(slot.take(), Poll::Pending));
    assert!(slot.offer(3));
    assert_eq!(ready(slot.take()), Some(3));
}

#[test]
fn closed_empty_slot_is_disconnected() {
    let mut slot: ResultSlot<u32> = ResultSlot::new();
    slot.close();
    assert!(slot.is_closed());
    assert!(matches!(slot.take(), Poll::Disconnected));
    assert!(matches!(slot.take(), Poll::Disconnected));
}

#[test]
fn result_stored_before_close_is_still_handed_over() {
    let mut slot: ResultSlot<u32> = ResultSlot::new();
    assert!(slot.offer(9));
    slot.close();
    assert_eq!(ready(slot.take()), Some(9));
    assert!(matches!(slot.take(), Poll::Disconnected));
}

#[test]
fn new_link_is_armed_with_one_token() {
    let mut link: Link<u32> = Link::new();
    assert!(link.ready.is_raised());
    assert!(!link.result.is_occupied());
    assert!(!link.result.is_closed());
    assert!(link.ready.take());
    assert!(!link.ready.take());
}

#[test]
fn pull_without_result_leaves_the_signal_alone() {
    let mut link: Link<u32> = Link::new();
    assert!(link.ready.take());
    assert!(matches!(link.pull(), Poll::Pending));
    assert!(!link.ready.is_raised());
}

#[test]
fn pull_with_result_asks_for_the_next() {
    let mut link: Link<u32> = Link::new();
    assert!(link.ready.take());
    assert!(link.result.offer(11));
    assert_eq!(ready(link.pull()), Some(11));
    assert!(link.ready.is_raised());
    assert!(!link.result.is_occupied());
}

#[test]
fn pull_after_close_reports_disconnected_without_a_token() {
    let mut link: Link<u32> = Link::new();
    assert!(link.ready.take());
    link.result.close();
    assert!(matches!(link.pull(), Poll::Disconnected));
    assert!(!link.ready.is_raised());
}
