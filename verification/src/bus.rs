//! The message bus: an ordered channel carrying panel-to-runtime
//! notifications. Panels emit at the back; the runtime loop drains from the
//! front, so emission order is exactly observation order.

use vstd::prelude::*;

use crate::events::AppEvent;

verus! {

/// A FIFO queue of panel events. The runtime loop owns the single consumer
/// end; panels are handed the bus by the dispatcher when they may emit.
pub struct MessageBus {
    queue: Vec<AppEvent>,
}

impl View for MessageBus {
    type V = Seq<AppEvent>;

    /// The pending events, oldest first.
    closed spec fn view(&self) -> Seq<AppEvent> {
        self.queue@
    }
}

impl MessageBus {
    /// An empty bus.
    pub fn new() -> (r: MessageBus)
        ensures
            r@ == Seq::<AppEvent>::empty(),
    {
        MessageBus { queue: Vec::new() }
    }

    /// How many events are pending.
    pub fn len(&self) -> (r: usize)
        ensures
            r == self@.len(),
    {
        self.queue.len()
    }

    /// Emits an event: it is appended after everything already pending.
    /// Never blocks and never fails.
    pub fn send(&mut self, event: AppEvent)
        ensures
            final(self)@ == old(self)@.push(event),
    {
        self.queue.push(event);
    }

    /// Pops the oldest pending event, if any.
    pub fn try_recv(&mut self) -> (r: Option<AppEvent>)
        ensures
            old(self)@.len() == 0 ==> r is None && final(self)@ == old(self)@,
            old(self)@.len() > 0 ==> r == Some(old(self)@[0]) && final(self)@ == old(self)@.drop_first(),
    {
        if self.queue.len() == 0 {
            None
        } else {
            Some(self.queue.remove(0))
        }
    }

    /// Takes every pending event at once, oldest first, leaving the bus
    /// empty: one tick's drain.
    pub fn drain(&mut self) -> (r: Vec<AppEvent>)
        ensures
            r@ == old(self)@,
            final(self)@ == Seq::<AppEvent>::empty(),
    {
        let drained = self.queue.split_off(0);
        proof {
            assert(drained@ =~= old(self)@);
            assert(self.queue@ =~= Seq::<AppEvent>::empty());
        }
        drained
    }
}

/// Law: the bus preserves emission order. Whatever is already pending, after
/// sending `a` and then `b` both stand in the queue with `a` at a strictly
/// smaller index than `b`, so a drain observes `a` before `b`.
pub proof fn lemma_bus_fifo(pending: Seq<AppEvent>, a: AppEvent, b: AppEvent)
    ensures
        pending.push(a).push(b)[pending.len() as int] == a,
        pending.push(a).push(b)[pending.len() as int + 1] == b,
        (pending.len() as int) < pending.len() as int + 1,
{
}

} // verus!
