use bclicker::events::{AppEvent, EventQueue};
use bclicker::keys::{KeyCode, KeyInput};

fn key_event(c: char) -> AppEvent {
    AppEvent::Input(KeyInput { code: KeyCode::Char(c), ctrl: false, shift: false, alt: false })
}

#[test]
fn consumer_drains_in_producer_order() {
    let mut q = EventQueue::new();
    q.enqueue(AppEvent::Tick);
    q.enqueue(key_event('a'));
    q.enqueue(AppEvent::Tick);
    let evs = q.drain();
    assert_eq!(evs, vec![AppEvent::Tick, key_event('a'), AppEvent::Tick]);
    assert_eq!(q.len(), 0);
}

#[test]
fn drain_leaves_the_queue_empty() {
    let mut q = EventQueue::new();
    q.enqueue(AppEvent::Quit);
    assert_eq!(q.len(), 1);
    let first = q.drain();
    assert_eq!(first, vec![AppEvent::Quit]);
    let second = q.drain();
    assert!(second.is_empty());
}

#[test]
fn events_arriving_after_a_drain_queue_up_again() {
    let mut q = EventQueue::new();
    q.enqueue(AppEvent::Tick);
    let _ = q.drain();
    q.enqueue(key_event('x'));
    q.enqueue(AppEvent::Quit);
    let evs = q.drain();
    assert_eq!(evs, vec![key_event('x'), AppEvent::Quit]);
}
