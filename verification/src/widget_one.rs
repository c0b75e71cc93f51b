//! The counter panel: an interactive panel that counts arrow-up presses up
//! and arrow-down presses down, emitting a notification for every change.

use vstd::prelude::*;

use crate::bus::MessageBus;
use crate::events::{AppEvent, KeyCode, KeyEvent, Message};

verus! {

/// How one key code moves the count: up by one, down by one, or not at all.
pub open spec fn key_delta(code: KeyCode) -> int {
    match code {
        KeyCode::Up => 1,
        KeyCode::Down => -1,
        _ => 0,
    }
}

/// The count after one input.
pub open spec fn counter_step(count: int, code: KeyCode) -> int {
    count + key_delta(code)
}

/// What the counter emits on one input: exactly one notification carrying
/// the new count when the count moved, nothing otherwise.
pub open spec fn counter_emission(count_after: int, code: KeyCode) -> Seq<AppEvent> {
    match code {
        KeyCode::Up => seq![
            AppEvent::ModuleMessage(Message::CounterIncremented { value: count_after as i32 }),
        ],
        KeyCode::Down => seq![
            AppEvent::ModuleMessage(Message::CounterDecremented { value: count_after as i32 }),
        ],
        _ => Seq::<AppEvent>::empty(),
    }
}

/// The count after a whole sequence of inputs, applied oldest first.
pub open spec fn counter_after(start: int, codes: Seq<KeyCode>) -> int
    decreases codes.len(),
{
    if codes.len() == 0 {
        start
    } else {
        counter_step(counter_after(start, codes.drop_last()), codes.last())
    }
}

/// The net signed count of a sequence of inputs: increments minus decrements.
pub open spec fn net_delta(codes: Seq<KeyCode>) -> int
    decreases codes.len(),
{
    if codes.len() == 0 {
        0
    } else {
        net_delta(codes.drop_last()) + key_delta(codes.last())
    }
}

/// Law: for every sequence of inputs, the resulting count equals the
/// starting count plus the net of increments minus decrements — no clamping.
pub proof fn lemma_counter_is_net_count(start: int, codes: Seq<KeyCode>)
    ensures
        counter_after(start, codes) == start + net_delta(codes),
    decreases codes.len(),
{
    if codes.len() > 0 {
        lemma_counter_is_net_count(start, codes.drop_last());
    }
}

/// The counter panel.
pub struct WidgetOne {
    count: i32,
}

impl WidgetOne {
    /// The displayed count.
    pub closed spec fn count_spec(&self) -> int {
        self.count as int
    }

    /// A fresh counter panel, starting at zero.
    pub fn new() -> (r: WidgetOne)
        ensures
            r.count_spec() == 0,
    {
        WidgetOne { count: 0 }
    }

    /// The displayed count, for the render step.
    pub fn count(&self) -> (r: i32)
        ensures
            r as int == self.count_spec(),
    {
        self.count
    }

    /// Reacts to one key: arrow up increments, arrow down decrements, any
    /// other key is ignored; every change is announced on the bus with the
    /// new count. The bounds keep the count from overflowing its machine
    /// type.
    pub fn handle_input(&mut self, key: KeyEvent, bus: &mut MessageBus)
        requires
            (i32::MIN as int) < old(self).count_spec() < (i32::MAX as int),
        ensures
            final(self).count_spec() == counter_step(old(self).count_spec(), key.code),
            final(bus)@ == old(bus)@ + counter_emission(final(self).count_spec(), key.code),
    {
        match key.code {
            KeyCode::Up => {
                self.count = self.count + 1;
                bus.send(AppEvent::ModuleMessage(Message::CounterIncremented { value: self.count }));
                proof {
                    assert(bus@ =~= old(bus)@ + counter_emission(self.count as int, key.code));
                }
            }
            KeyCode::Down => {
                self.count = self.count - 1;
                bus.send(AppEvent::ModuleMessage(Message::CounterDecremented { value: self.count }));
                proof {
                    assert(bus@ =~= old(bus)@ + counter_emission(self.count as int, key.code));
                }
            }
            _ => {
                proof {
                    assert(bus@ =~= old(bus)@ + counter_emission(self.count as int, key.code));
                }
            }
        }
    }
}

} // verus!
