//! Key events, panel notifications, and the quit classification.

use vstd::prelude::*;

verus! {

/// A key code: the characters and navigation keys the dashboard reacts to.
/// Any other key the panels ignore is folded into `Other`.
#[derive(Clone, Copy, PartialEq, Eq, Structural, Debug)]
pub enum KeyCode {
    Char(char),
    Up,
    Down,
    Left,
    Right,
    Other,
}

/// The modifier set attached to a key event.
#[derive(Clone, Copy, PartialEq, Eq, Structural, Debug)]
pub struct KeyModifiers {
    pub control: bool,
    pub shift: bool,
    pub alt: bool,
}

impl KeyModifiers {
    /// The empty modifier set.
    pub fn none() -> (r: KeyModifiers)
        ensures
            !r.control && !r.shift && !r.alt,
    {
        KeyModifiers { control: false, shift: false, alt: false }
    }
}

/// A raw keyboard event: a key code plus its modifiers. Read-only input to
/// the panels.
#[derive(Clone, Copy, PartialEq, Eq, Structural, Debug)]
pub struct KeyEvent {
    pub code: KeyCode,
    pub modifiers: KeyModifiers,
}

/// A panel-originated status notification, consumed by the runtime loop.
#[derive(Clone, Copy, PartialEq, Eq, Structural, Debug)]
pub enum Message {
    /// The counter panel incremented its count; `value` is the new count.
    CounterIncremented { value: i32 },
    /// The counter panel decremented its count; `value` is the new count.
    CounterDecremented { value: i32 },
    /// The selection-list panel moved its cursor; `index` is the new position.
    SelectionChanged { index: usize },
}

/// An event carried on the message bus from a panel to the runtime loop.
#[derive(Clone, Copy, PartialEq, Eq, Structural, Debug)]
pub enum AppEvent {
    /// A status notification from a panel.
    ModuleMessage(Message),
    /// An echo of a dispatched key, for diagnostics.
    KeyPress(KeyEvent),
}

/// A key event asks the runtime to quit exactly when it is the plain
/// character `q` (any modifiers) or the character `c` with control held.
pub open spec fn is_quit_spec(key: KeyEvent) -> bool {
    ||| key.code == KeyCode::Char('q')
    ||| (key.code == KeyCode::Char('c') && key.modifiers.control)
}

/// Classifies a raw key event as the global quit request.
pub fn is_quit_event(key: &KeyEvent) -> (r: bool)
    ensures
        r == is_quit_spec(*key),
{
    match key.code {
        KeyCode::Char(c) => c == 'q' || (c == 'c' && key.modifiers.control),
        _ => false,
    }
}

} // verus!
