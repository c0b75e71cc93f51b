//! The selection-list panel: an interactive panel holding a fixed list of
//! items and a cursor moved left and right, clamped at both ends. Every
//! actual move is announced on the bus; a move past either end is a silent
//! no-op.

use vstd::prelude::*;

use crate::bus::MessageBus;
use crate::events::{AppEvent, KeyCode, KeyEvent, Message};

verus! {

/// The cursor after one input on a list of `n` items: left and right moves
/// are absorbed at the ends, every other key is ignored.
pub open spec fn selection_step(index: int, n: int, code: KeyCode) -> int {
    match code {
        KeyCode::Left => if index > 0 { index - 1 } else { index },
        KeyCode::Right => if index + 1 < n { index + 1 } else { index },
        _ => index,
    }
}

/// What the list emits on one input: one notification carrying the new
/// cursor position when the cursor moved, nothing otherwise.
pub open spec fn selection_emission(index_before: int, n: int, code: KeyCode) -> Seq<AppEvent> {
    if selection_step(index_before, n, code) == index_before {
        Seq::<AppEvent>::empty()
    } else {
        seq![
            AppEvent::ModuleMessage(Message::SelectionChanged {
                index: selection_step(index_before, n, code) as usize,
            }),
        ]
    }
}

/// The cursor after a whole sequence of inputs, applied oldest first.
pub open spec fn selection_after(start: int, n: int, codes: Seq<KeyCode>) -> int
    decreases codes.len(),
{
    if codes.len() == 0 {
        start
    } else {
        selection_step(selection_after(start, n, codes.drop_last()), n, codes.last())
    }
}

/// Law: starting anywhere inside a list of `n` items, the cursor stays in
/// `[0, n - 1]` under every sequence of inputs.
pub proof fn lemma_selection_in_range(start: int, n: int, codes: Seq<KeyCode>)
    requires
        0 <= start < n,
    ensures
        0 <= selection_after(start, n, codes) < n,
    decreases codes.len(),
{
    if codes.len() > 0 {
        lemma_selection_in_range(start, n, codes.drop_last());
    }
}

/// The selection-list panel.
pub struct WidgetTwo {
    items: Vec<String>,
    index: usize,
}

impl WidgetTwo {
    /// The item texts, in display order.
    pub closed spec fn items_spec(&self) -> Seq<Seq<char>> {
        self.items@.map_values(|s: String| s@)
    }

    /// The cursor position.
    pub closed spec fn index_spec(&self) -> int {
        self.index as int
    }

    /// Well-formed: the cursor points at an item.
    pub open spec fn wf(&self) -> bool {
        0 <= self.index_spec() < self.items_spec().len()
    }

    /// A fresh list of four fruits with the cursor on the first.
    pub fn new() -> (r: WidgetTwo)
        ensures
            r.wf(),
            r.index_spec() == 0,
            r.items_spec().len() == 4,
            r.items_spec()[0] == "apple"@,
            r.items_spec()[1] == "banana"@,
            r.items_spec()[2] == "grapes"@,
            r.items_spec()[3] == "orange"@,
    {
        let mut items: Vec<String> = Vec::new();
        items.push("apple".to_owned());
        items.push("banana".to_owned());
        items.push("grapes".to_owned());
        items.push("orange".to_owned());
        let r = WidgetTwo { items, index: 0 };
        proof {
            assert(r.items_spec().len() == 4);
        }
        r
    }

    /// How many items the list holds.
    pub fn item_count(&self) -> (r: usize)
        ensures
            r == self.items_spec().len(),
    {
        self.items.len()
    }

    /// The text of one item, for the render step.
    pub fn item(&self, i: usize) -> (r: &String)
        requires
            i < self.items_spec().len(),
        ensures
            r@ == self.items_spec()[i as int],
    {
        &self.items[i]
    }

    /// The cursor position, for the render step.
    pub fn index(&self) -> (r: usize)
        ensures
            r == self.index_spec(),
    {
        self.index
    }

    /// Reacts to one key: left and right move the cursor, absorbed at the
    /// ends; a real move is announced on the bus with the new position, a
    /// no-op emits nothing. The items never change.
    pub fn handle_input(&mut self, key: KeyEvent, bus: &mut MessageBus)
        requires
            old(self).wf(),
        ensures
            final(self).wf(),
            final(self).items_spec() == old(self).items_spec(),
            final(self).index_spec() == selection_step(
                old(self).index_spec(),
                old(self).items_spec().len() as int,
                key.code,
            ),
            final(bus)@ == old(bus)@ + selection_emission(
                old(self).index_spec(),
                old(self).items_spec().len() as int,
                key.code,
            ),
    {
        match key.code {
            KeyCode::Left => {
                if self.index > 0 {
                    self.index = self.index - 1;
                    bus.send(AppEvent::ModuleMessage(Message::SelectionChanged { index: self.index }));
                    proof {
                        assert(bus@ =~= old(bus)@ + selection_emission(
                            old(self).index_spec(),
                            old(self).items_spec().len() as int,
                            key.code,
                        ));
                    }
                } else {
                    proof {
                        assert(bus@ =~= old(bus)@ + selection_emission(
                            old(self).index_spec(),
                            old(self).items_spec().len() as int,
                            key.code,
                        ));
                    }
                }
            }
            KeyCode::Right => {
                if self.index < self.items.len() - 1 {
                    self.index = self.index + 1;
                    bus.send(AppEvent::ModuleMessage(Message::SelectionChanged { index: self.index }));
                    proof {
                        assert(bus@ =~= old(bus)@ + selection_emission(
                            old(self).index_spec(),
                            old(self).items_spec().len() as int,
                            key.code,
                        ));
                    }
                } else {
                    proof {
                        assert(bus@ =~= old(bus)@ + selection_emission(
                            old(self).index_spec(),
                            old(self).items_spec().len() as int,
                            key.code,
                        ));
                    }
                }
            }
            _ => {
                proof {
                    assert(bus@ =~= old(bus)@ + selection_emission(
                        old(self).index_spec(),
                        old(self).items_spec().len() as int,
                        key.code,
                    ));
                }
            }
        }
    }
}

} // verus!
