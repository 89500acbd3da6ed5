//! The event multiplexer's ordering model: independent producers enqueue
//! into one ordered queue; the consumer drains everything that is queued.
//!
//! The process runs the producers on their own threads over an OS channel;
//! this type states the contract that channel is relied on for — events
//! come out in exactly the order they were enqueued, none reordered,
//! coalesced, or dropped.

use vstd::prelude::*;

use crate::keys::KeyInput;

verus! {

/// An event the interface consumes: a raw key event, a timer tick, or a
/// request to quit.
#[derive(Clone, Copy, Debug, PartialEq, Eq)]
pub enum AppEvent {
    Input(KeyInput),
    Tick,
    Quit,
}

/// A multi-producer single-consumer queue of events, in arrival order.
pub struct EventQueue {
    items: Vec<AppEvent>,
}

impl View for EventQueue {
    type V = Seq<AppEvent>;

    closed spec fn view(&self) -> Seq<AppEvent> {
        self.items@
    }
}

impl EventQueue {
    pub fn new() -> (q: EventQueue)
        ensures
            q@ == Seq::<AppEvent>::empty(),
    {
        EventQueue { items: Vec::new() }
    }

    /// A producer appends one event behind everything already queued.
    pub fn enqueue(&mut self, e: AppEvent)
        ensures
            final(self)@ == old(self)@.push(e),
    {
        self.items.push(e);
    }

    /// The consumer takes every queued event at once, in the exact order
    /// the producers enqueued them, leaving the queue empty.
    pub fn drain(&mut self) -> (evs: Vec<AppEvent>)
        ensures
            evs@ == old(self)@,
            final(self)@ == Seq::<AppEvent>::empty(),
    {
        let mut taken: Vec<AppEvent> = Vec::new();
        core::mem::swap(&mut taken, &mut self.items);
        taken
    }

    pub fn len(&self) -> (n: usize)
        ensures
            n == self@.len(),
    {
        self.items.len()
    }
}

/// Delivery keeps producer order: whatever was queued before, enqueuing
/// `a` and then `b` places `a` at the earlier index, and one drain hands
/// both out in those positions.
pub proof fn lemma_producer_order_kept(q0: Seq<AppEvent>, a: AppEvent, b: AppEvent)
    ensures
        q0.push(a).push(b)[q0.len() as int] == a,
        q0.push(a).push(b)[q0.len() as int + 1] == b,
        q0.push(a).push(b).len() == q0.len() + 2,
{
}

} // verus!
