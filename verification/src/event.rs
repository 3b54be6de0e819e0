//! What the event loop waits for: terminal input and process signals.

use vstd::prelude::*;

verus! {

/// The key that a key event reports.
#[derive(Debug, Clone, Copy, PartialEq, Eq, Structural)]
pub enum KeyCode {
    /// The escape key.
    Esc,
    /// A key that carries a character.
    Char(char),
    /// Any other key.
    Other,
}

/// Whether a key went down, is held, or came up.
#[derive(Debug, Clone, Copy, PartialEq, Eq, Structural)]
pub enum KeyKind {
    Press,
    Repeat,
    Release,
}

/// The modifier keys held during a key event.
#[derive(Debug, Clone, Copy, PartialEq, Eq, Structural)]
pub struct Modifiers {
    pub shift: bool,
    pub control: bool,
    pub alt: bool,
    pub super_key: bool,
    pub hyper: bool,
    pub meta: bool,
}

impl Modifiers {
    /// Control is held and no other modifier is.
    pub open spec fn only_control(self) -> bool {
        self.control && !self.shift && !self.alt && !self.super_key && !self.hyper && !self.meta
    }

    /// Whether control is held and no other modifier is.
    pub fn is_only_control(&self) -> (only: bool)
        ensures
            only == self.only_control(),
    {
        self.control && !self.shift && !self.alt && !self.super_key && !self.hyper && !self.meta
    }

    /// No modifier held.
    pub fn none() -> (modifiers: Self)
        ensures
            modifiers == (Modifiers {
                shift: false,
                control: false,
                alt: false,
                super_key: false,
                hyper: false,
                meta: false,
            }),
    {
        Modifiers {
            shift: false,
            control: false,
            alt: false,
            super_key: false,
            hyper: false,
            meta: false,
        }
    }
}

/// A key event.
#[derive(Debug, Clone, Copy, PartialEq, Eq, Structural)]
pub struct KeyEvent {
    pub code: KeyCode,
    pub modifiers: Modifiers,
    pub kind: KeyKind,
}

/// An event of the terminal.
#[derive(Debug, Clone, Copy, PartialEq, Eq, Structural)]
pub enum Event {
    /// The terminal now has this many columns and rows.
    Resize(u16, u16),
    /// A key went down, is held, or came up.
    Key(KeyEvent),
    /// Anything else: focus, mouse, paste.
    Other,
}

/// A signal delivered to the process.
#[derive(Debug, Clone, Copy, PartialEq, Eq, Structural)]
pub enum Signal {
    /// The user asked to suspend the process.
    Suspend,
    /// The process was continued after a stop.
    Continue,
    /// The user-defined signal, which asks for a repaint.
    User,
}

/// Something that arrived from one of the two sources of the loop.
#[derive(Debug, Clone, Copy, PartialEq, Eq, Structural)]
pub enum Incoming {
    /// A signal of the process.
    Signal(Signal),
    /// An event of the terminal.
    Input(Event),
}

/// What an event of the terminal asks of the application.
#[derive(Debug, Clone, Copy, PartialEq, Eq, Structural)]
pub enum Request {
    /// Leave the application.
    Quit,
    /// Record a keystroke that carries this character, then repaint.
    Type(char),
    /// Repaint.
    Redraw,
    /// Nothing.
    Ignore,
}

/// The request that `event` makes. Rules, the first that applies: a resize
/// asks for a repaint; a key that came up asks for nothing; escape quits;
/// `c` with control as the only modifier quits; any other key that carries a
/// character types it; everything else asks for nothing.
pub open spec fn request_of(event: Event) -> Request {
    match event {
        Event::Resize(_, _) => Request::Redraw,
        Event::Key(key) => {
            if key.kind == KeyKind::Release {
                Request::Ignore
            } else {
                match key.code {
                    KeyCode::Esc => Request::Quit,
                    KeyCode::Char(ch) => {
                        if ch == 'c' && key.modifiers.only_control() {
                            Request::Quit
                        } else {
                            Request::Type(ch)
                        }
                    },
                    KeyCode::Other => Request::Ignore,
                }
            }
        },
        Event::Other => Request::Ignore,
    }
}

/// Classifies `event` by the rules of `request_of`.
pub fn classify(event: Event) -> (request: Request)
    ensures
        request == request_of(event),
{
    match event {
        Event::Resize(_, _) => Request::Redraw,
        Event::Key(key) => {
            match key.kind {
                KeyKind::Release => Request::Ignore,
                _ => {
                    match key.code {
                        KeyCode::Esc => Request::Quit,
                        KeyCode::Char(ch) => {
                            if ch == 'c' && key.modifiers.is_only_control() {
                                Request::Quit
                            } else {
                                Request::Type(ch)
                            }
                        },
                        KeyCode::Other => Request::Ignore,
                    }
                },
            }
        },
        Event::Other => Request::Ignore,
    }
}

} // verus!
