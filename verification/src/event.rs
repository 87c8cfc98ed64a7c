//! The event and action vocabulary at the runtime's boundaries.
//!
//! [`Event`] is what the OS boundary delivers to components; [`Action`] is
//! the only vocabulary a component has for influencing navigation or
//! termination — it never mutates the router or the loop directly. At the
//! input boundary only key presses are forwarded for key input; repeats
//! and releases are filtered out by [`admit_input`].

use vstd::prelude::*;

verus! {

/// A route identifier carried by navigation actions.
pub type Route = String;

/// A key on the keyboard, as the runtime's logic reads it.
#[derive(Clone, Copy, Debug, PartialEq, Eq, Structural)]
pub enum KeyCode {
    Char(char),
    Up,
    Down,
    Left,
    Right,
    Enter,
    Esc,
    Backspace,
    Tab,
    Other,
}

/// How a key event was produced at the OS boundary.
#[derive(Clone, Copy, Debug, PartialEq, Eq, Structural)]
pub enum KeyEventKind {
    Press,
    Repeat,
    Release,
}

/// One keyboard event.
#[derive(Clone, Copy, Debug, PartialEq, Eq, Structural)]
pub struct KeyEvent {
    pub code: KeyCode,
    pub kind: KeyEventKind,
}

impl KeyEvent {
    /// A key press of the given key.
    pub fn press(code: KeyCode) -> (r: KeyEvent)
        ensures
            r == (KeyEvent { code, kind: KeyEventKind::Press }),
    {
        KeyEvent { code, kind: KeyEventKind::Press }
    }
}

/// One mouse event: the cell of the terminal grid it happened in.
#[derive(Clone, Copy, Debug, PartialEq, Eq, Structural)]
pub struct MouseEvent {
    pub column: u16,
    pub row: u16,
}

/// An input event delivered to the active component.
#[derive(Clone, Debug, PartialEq, Eq)]
pub enum Event {
    Key(KeyEvent),
    Mouse(MouseEvent),
    Resize(u16, u16),
    FocusGained,
    FocusLost,
    Paste(String),
}

/// An action returned by a component to influence navigation or
/// termination.
#[derive(Clone, Debug, PartialEq, Eq)]
pub enum Action {
    Navigate(Route),
    Back,
    Quit,
    Noop,
}

/// Whether an event crosses the input boundary into the runtime: key input
/// is forwarded only for presses; every other event passes.
pub open spec fn admitted(e: Event) -> bool {
    match e {
        Event::Key(k) => k.kind == KeyEventKind::Press,
        _ => true,
    }
}

/// Filter one event at the input boundary: key events are forwarded only
/// when they are presses — repeats and releases are dropped — and every
/// other event passes through unchanged.
pub fn admit_input(e: Event) -> (r: Option<Event>)
    ensures
        r == if admitted(e) {
            Some(e)
        } else {
            None::<Event>
        },
{
    let keep = match &e {
        Event::Key(k) => k.kind == KeyEventKind::Press,
        _ => true,
    };
    if keep {
        Some(e)
    } else {
        None
    }
}

} // verus!
