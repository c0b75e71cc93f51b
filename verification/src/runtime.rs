//! The runtime loop's state: the four registered panels and the message
//! bus, with one tick of the loop as a verified transition. Each tick runs
//! input dispatch, then a full bus drain, then every panel's render step, in
//! that order; a quit key stops the loop before anything else happens in
//! that tick. The host around the loop only measures time, polls and reads
//! raw input, and draws — every decision is made here.

use vstd::prelude::*;

use crate::bus::MessageBus;
use crate::events::{is_quit_event, is_quit_spec, AppEvent, KeyEvent};
use crate::widget_four::{WidgetFour, SAMPLE_BOUND};
use crate::widget_one::{counter_emission, counter_step, WidgetOne};
use crate::widget_three::{gauge_step, WidgetThree};
use crate::widget_two::{selection_emission, selection_step, WidgetTwo};

verus! {

/// What the dispatch step tells the loop: go on to the next tick, or stop.
#[derive(Clone, Copy, PartialEq, Eq, Structural, Debug)]
pub enum LoopSignal {
    Continue,
    Stop,
}

/// The counter's count after dispatching an optional input.
pub open spec fn dispatched_count(count: int, input: Option<KeyEvent>) -> int {
    match input {
        Some(k) => counter_step(count, k.code),
        None => count,
    }
}

/// The list's cursor after dispatching an optional input to a list of `n`
/// items.
pub open spec fn dispatched_selection(index: int, n: int, input: Option<KeyEvent>) -> int {
    match input {
        Some(k) => selection_step(index, n, k.code),
        None => index,
    }
}

/// What dispatching an optional input appends to the bus: first whatever
/// the counter emits, then whatever the list emits — registration order.
pub open spec fn dispatched_emissions(
    count: int,
    index: int,
    n: int,
    input: Option<KeyEvent>,
) -> Seq<AppEvent> {
    match input {
        Some(k) => counter_emission(counter_step(count, k.code), k.code) + selection_emission(
            index,
            n,
            k.code,
        ),
        None => Seq::<AppEvent>::empty(),
    }
}

/// Whether an optional input asks the runtime to quit.
pub open spec fn quit_requested(input: Option<KeyEvent>) -> bool {
    match input {
        Some(k) => is_quit_spec(k),
        None => false,
    }
}

/// The runtime's whole state: the panels in registration order and the bus.
/// Each panel's state has exactly one owner — its slot here — and is
/// mutated only inside its own input or render step.
pub struct Dashboard {
    widget_one: WidgetOne,
    widget_two: WidgetTwo,
    widget_three: WidgetThree,
    widget_four: WidgetFour,
    bus: MessageBus,
}

impl Dashboard {
    /// The counter panel's count.
    pub closed spec fn count_spec(&self) -> int {
        self.widget_one.count_spec()
    }

    /// The selection panel's cursor.
    pub closed spec fn selection_spec(&self) -> int {
        self.widget_two.index_spec()
    }

    /// The selection panel's items.
    pub closed spec fn items_spec(&self) -> Seq<Seq<char>> {
        self.widget_two.items_spec()
    }

    /// The gauge panel's progress, in hundredths.
    pub closed spec fn progress_spec(&self) -> int {
        self.widget_three.progress_spec()
    }

    /// The chart panel's samples, oldest first.
    pub closed spec fn samples_spec(&self) -> Seq<u64> {
        self.widget_four.data_spec()
    }

    /// The events pending on the bus, oldest first.
    pub closed spec fn pending_spec(&self) -> Seq<AppEvent> {
        self.bus@
    }

    /// Well-formed: every panel's own invariant holds.
    pub closed spec fn wf(&self) -> bool {
        &&& self.widget_two.wf()
        &&& self.widget_three.wf()
        &&& self.widget_four.wf()
    }

    /// A fresh dashboard: all panels in their starting state, nothing
    /// pending on the bus.
    pub fn new() -> (r: Dashboard)
        ensures
            r.wf(),
            r.count_spec() == 0,
            r.selection_spec() == 0,
            r.items_spec().len() == 4,
            r.progress_spec() == 0,
            r.samples_spec().len() == crate::widget_four::SAMPLE_WINDOW,
            forall|i: int| 0 <= i < r.samples_spec().len() ==> r.samples_spec()[i] == 0,
            r.pending_spec() == Seq::<AppEvent>::empty(),
    {
        Dashboard {
            widget_one: WidgetOne::new(),
            widget_two: WidgetTwo::new(),
            widget_three: WidgetThree::new(),
            widget_four: WidgetFour::new(),
            bus: MessageBus::new(),
        }
    }

    /// The displayed count, for the render step.
    pub fn count(&self) -> (r: i32)
        ensures
            r as int == self.count_spec(),
    {
        self.widget_one.count()
    }

    /// The selection cursor, for the render step.
    pub fn selection_index(&self) -> (r: usize)
        ensures
            r == self.selection_spec(),
    {
        self.widget_two.index()
    }

    /// How many items the selection list holds.
    pub fn item_count(&self) -> (r: usize)
        ensures
            r == self.items_spec().len(),
    {
        self.widget_two.item_count()
    }

    /// The text of one selection-list item, for the render step.
    pub fn item(&self, i: usize) -> (r: &String)
        requires
            i < self.items_spec().len(),
        ensures
            r@ == self.items_spec()[i as int],
    {
        self.widget_two.item(i)
    }

    /// The gauge progress in hundredths, for the render step.
    pub fn progress(&self) -> (r: u8)
        ensures
            r as int == self.progress_spec(),
    {
        self.widget_three.progress()
    }

    /// The chart samples, for the render step.
    pub fn samples(&self) -> (r: &Vec<u64>)
        ensures
            r@ == self.samples_spec(),
    {
        self.widget_four.data()
    }

    /// The input dispatcher. A quit key stops the loop and touches nothing.
    /// Every other key goes to each interactive panel in registration order
    /// — the counter first, then the selection list — whether or not the key
    /// means anything to it; their notifications land on the bus in that
    /// same order. A key no panel reacts to is silently discarded.
    pub fn dispatch(&mut self, key: KeyEvent) -> (r: LoopSignal)
        requires
            old(self).wf(),
            (i32::MIN as int) < old(self).count_spec() < (i32::MAX as int),
        ensures
            final(self).wf(),
            r == (if is_quit_spec(key) {
                LoopSignal::Stop
            } else {
                LoopSignal::Continue
            }),
            is_quit_spec(key) ==> *final(self) == *old(self),
            !is_quit_spec(key) ==> {
                &&& final(self).count_spec() == counter_step(old(self).count_spec(), key.code)
                &&& final(self).selection_spec() == selection_step(
                    old(self).selection_spec(),
                    old(self).items_spec().len() as int,
                    key.code,
                )
                &&& final(self).items_spec() == old(self).items_spec()
                &&& final(self).pending_spec() == old(self).pending_spec() + counter_emission(
                    counter_step(old(self).count_spec(), key.code),
                    key.code,
                ) + selection_emission(
                    old(self).selection_spec(),
                    old(self).items_spec().len() as int,
                    key.code,
                )
                &&& final(self).progress_spec() == old(self).progress_spec()
                &&& final(self).samples_spec() == old(self).samples_spec()
            },
    {
        if is_quit_event(&key) {
            LoopSignal::Stop
        } else {
            self.widget_one.handle_input(key, &mut self.bus);
            self.widget_two.handle_input(key, &mut self.bus);
            LoopSignal::Continue
        }
    }

    /// The bus drain: takes every pending notification at once, in emission
    /// order, leaving the bus empty. No panel state changes.
    pub fn drain_messages(&mut self) -> (r: Vec<AppEvent>)
        ensures
            r@ == old(self).pending_spec(),
            final(self).pending_spec() == Seq::<AppEvent>::empty(),
            final(self).count_spec() == old(self).count_spec(),
            final(self).selection_spec() == old(self).selection_spec(),
            final(self).items_spec() == old(self).items_spec(),
            final(self).progress_spec() == old(self).progress_spec(),
            final(self).samples_spec() == old(self).samples_spec(),
            final(self).wf() == old(self).wf(),
    {
        self.bus.drain()
    }

    /// The render orchestration's state half: every self-driving panel
    /// advances exactly once per tick. The gauge steps and wraps; the chart
    /// slides a fresh bounded sample in. The interactive panels and the bus
    /// are untouched — their rendering is a pure read.
    pub fn render_steps(&mut self)
        requires
            old(self).wf(),
        ensures
            final(self).wf(),
            final(self).count_spec() == old(self).count_spec(),
            final(self).selection_spec() == old(self).selection_spec(),
            final(self).items_spec() == old(self).items_spec(),
            final(self).pending_spec() == old(self).pending_spec(),
            final(self).progress_spec() == gauge_step(old(self).progress_spec()),
            final(self).samples_spec() == old(self).samples_spec().drop_first().push(
                final(self).samples_spec().last(),
            ),
            final(self).samples_spec().last() < SAMPLE_BOUND,
    {
        self.widget_three.render_step();
        self.widget_four.render_step();
    }

    /// One tick of the runtime loop: dispatch the polled input if any, then
    /// drain the bus, then run every panel's render step. A quit input stops
    /// the loop at once: nothing is dispatched, drained or rendered in that
    /// tick and the state is left exactly as it was. Otherwise the returned
    /// messages are everything that was pending before the tick followed by
    /// what this tick's dispatch emitted, in emission order.
    pub fn tick(&mut self, input: Option<KeyEvent>) -> (r: (LoopSignal, Vec<AppEvent>))
        requires
            old(self).wf(),
            (i32::MIN as int) < old(self).count_spec() < (i32::MAX as int),
        ensures
            final(self).wf(),
            r.0 == (if quit_requested(input) {
                LoopSignal::Stop
            } else {
                LoopSignal::Continue
            }),
            quit_requested(input) ==> *final(self) == *old(self) && r.1@ == Seq::<AppEvent>::empty(),
            !quit_requested(input) ==> {
                &&& final(self).count_spec() == dispatched_count(old(self).count_spec(), input)
                &&& final(self).selection_spec() == dispatched_selection(
                    old(self).selection_spec(),
                    old(self).items_spec().len() as int,
                    input,
                )
                &&& final(self).items_spec() == old(self).items_spec()
                &&& r.1@ == old(self).pending_spec() + dispatched_emissions(
                    old(self).count_spec(),
                    old(self).selection_spec(),
                    old(self).items_spec().len() as int,
                    input,
                )
                &&& final(self).pending_spec() == Seq::<AppEvent>::empty()
                &&& final(self).progress_spec() == gauge_step(old(self).progress_spec())
                &&& final(self).samples_spec() == old(self).samples_spec().drop_first().push(
                    final(self).samples_spec().last(),
                )
                &&& final(self).samples_spec().last() < SAMPLE_BOUND
            },
    {
        match input {
            Some(key) => {
                let signal = self.dispatch(key);
                match signal {
                    LoopSignal::Stop => {
                        return (LoopSignal::Stop, Vec::new());
                    }
                    LoopSignal::Continue => {}
                }
            }
            None => {}
        }
        let messages = self.drain_messages();
        self.render_steps();
        proof {
            assert(messages@ =~= old(self).pending_spec() + dispatched_emissions(
                old(self).count_spec(),
                old(self).selection_spec(),
                old(self).items_spec().len() as int,
                input,
            ));
        }
        (LoopSignal::Continue, messages)
    }
}

} // verus!
