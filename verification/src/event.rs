//! What the terminal reports, as plain values.

use vstd::prelude::*;

verus! {

/// The key that was pressed. Keys that nothing here reacts to are `Other`.
#[derive(Debug, Clone, Copy, PartialEq, Eq, Structural)]
pub enum KeyCode {
    Backspace,
    Enter,
    Left,
    Right,
    Up,
    Down,
    Esc,
    Char(char),
    Other,
}

#[derive(Debug, Clone, Copy, PartialEq, Eq, Structural)]
pub enum KeyEventKind {
    Press,
    Repeat,
    Release,
}

/// Bits of `KeyEvent::modifiers`.
pub const SHIFT: u8 = 0b0000_0001;

pub const CONTROL: u8 = 0b0000_0010;

pub const ALT: u8 = 0b0000_0100;

/// A key together with the modifier bits held, the kind of event and the
/// keyboard state bits that came with it.
#[derive(Debug, Clone, Copy, PartialEq, Eq, Structural)]
pub struct KeyEvent {
    pub code: KeyCode,
    pub modifiers: u8,
    pub kind: KeyEventKind,
    pub state: u8,
}

#[derive(Debug, Clone, Copy, PartialEq, Eq, Structural)]
pub enum Event {
    Key(KeyEvent),
    /// The terminal's new size: columns, then rows.
    Resize(u16, u16),
    /// Focus, mouse and paste events.
    Other,
}

impl KeyEvent {
    /// A plain press of `code` with `modifiers` held.
    pub fn new(code: KeyCode, modifiers: u8) -> (key: Self)
        ensures
            key == (KeyEvent { code, modifiers, kind: KeyEventKind::Press, state: 0 }),
    {
        KeyEvent { code, modifiers, kind: KeyEventKind::Press, state: 0 }
    }
}

impl Event {
    /// The key of a key event.
    pub open spec fn code(self) -> Option<KeyCode> {
        match self {
            Event::Key(key) => Some(key.code),
            _ => None,
        }
    }

    /// A plain press of `code` with no modifier held.
    pub fn key(code: KeyCode) -> (event: Self)
        ensures
            event == Event::Key(KeyEvent { code, modifiers: 0, kind: KeyEventKind::Press, state: 0 }),
    {
        Event::Key(KeyEvent::new(code, 0))
    }
}

/// Turns an event into a request. The default handler ignores every event.
pub trait EventHandler<Input, Output>: Sized {
    fn handle_event(&mut self, _event: &Event, _input: Input) -> (request: Option<Output>)
        default_ensures
            request.is_none(),
            *final(self) == *old(self),
    {
        None
    }
}

} // verus!
