//! The events that drive the main loop.
//!
//! Every type here is a plain value: once produced an event is never changed,
//! and it is handed on by copy.
use vstd::prelude::*;

verus! {

/// The key that was pressed.
#[derive(Clone, Copy, Debug, PartialEq, Eq, Structural)]
pub enum KeyCode {
    Char(char),
    Function(u8),
    Enter,
    Esc,
    Backspace,
    Tab,
    Delete,
    Insert,
    Home,
    End,
    PageUp,
    PageDown,
    Left,
    Right,
    Up,
    Down,
}

/// The set of modifier keys held down while a key or a mouse event occurred.
#[derive(Clone, Copy, Debug, PartialEq, Eq, Structural)]
pub struct Modifiers {
    pub shift: bool,
    pub control: bool,
    pub alt: bool,
}

impl Modifiers {
    /// The empty set: no modifier held.
    pub fn none() -> (modifiers: Self)
        ensures
            modifiers == (Modifiers { shift: false, control: false, alt: false }),
    {
        Modifiers { shift: false, control: false, alt: false }
    }
}

/// A key press: its code and the modifiers held with it.
#[derive(Clone, Copy, Debug, PartialEq, Eq, Structural)]
pub struct KeyEvent {
    pub code: KeyCode,
    pub modifiers: Modifiers,
}

impl KeyEvent {
    /// The key `code` pressed with no modifier.
    pub fn plain(code: KeyCode) -> (key: Self)
        ensures
            key.code == code,
            key.modifiers == (Modifiers { shift: false, control: false, alt: false }),
    {
        KeyEvent { code, modifiers: Modifiers::none() }
    }
}

/// A button of the mouse.
#[derive(Clone, Copy, Debug, PartialEq, Eq, Structural)]
pub enum MouseButton {
    Left,
    Right,
    Middle,
}

/// What the mouse did.
#[derive(Clone, Copy, Debug, PartialEq, Eq, Structural)]
pub enum MouseKind {
    Down(MouseButton),
    Up(MouseButton),
    Drag(MouseButton),
    Moved,
    ScrollUp,
    ScrollDown,
}

/// A mouse event: what happened, in which cell, with which modifiers.
#[derive(Clone, Copy, Debug, PartialEq, Eq, Structural)]
pub struct MouseEvent {
    pub kind: MouseKind,
    pub column: u16,
    pub row: u16,
    pub modifiers: Modifiers,
}

/// What the terminal reports: a key, the mouse, or a new size in cells.
#[derive(Clone, Copy, Debug, PartialEq, Eq, Structural)]
pub enum Input {
    Key(KeyEvent),
    Mouse(MouseEvent),
    Resize(u16, u16),
}

/// An event of the main loop: a tick of the timer or an input of the
/// terminal.
#[derive(Clone, Copy, Debug, PartialEq, Eq, Structural)]
pub enum Event {
    /// One period of the timer has passed.
    Tick,
    Key(KeyEvent),
    Mouse(MouseEvent),
    /// The terminal now has this many columns and rows.
    Resize(u16, u16),
}

impl Event {
    /// The event that carries an input of the terminal.
    pub open spec fn of_input(input: Input) -> Event {
        match input {
            Input::Key(key) => Event::Key(key),
            Input::Mouse(mouse) => Event::Mouse(mouse),
            Input::Resize(columns, rows) => Event::Resize(columns, rows),
        }
    }

    /// Turns an input of the terminal into an event. The payload is
    /// kept as it is, and the result is never a tick.
    pub fn from_input(input: Input) -> (event: Event)
        ensures
            event == Event::of_input(input),
            event != Event::Tick,
    {
        match input {
            Input::Key(key) => Event::Key(key),
            Input::Mouse(mouse) => Event::Mouse(mouse),
            Input::Resize(columns, rows) => Event::Resize(columns, rows),
        }
    }

    /// Is this the timer's tick?
    pub fn is_tick(&self) -> (tick: bool)
        ensures
            tick == (*self == Event::Tick),
    {
        match self {
            Event::Tick => true,
            _ => false,
        }
    }
}

} // verus!
