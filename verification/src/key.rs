//! Keyboard input as plain values, and the outcome of offering a key to a component.

use vstd::prelude::*;

verus! {

/// The keys that the components tell apart.
#[derive(Clone, Copy, Debug, PartialEq, Eq, Structural)]
pub enum KeyCode {
    Char(char),
    Enter,
    Esc,
    Up,
    Down,
    Left,
    Right,
    Backspace,
    Delete,
    Home,
    End,
    Other,
}

/// Modifier bit for the shift key.
pub const SHIFT: u8 = 1;

/// Modifier bit for the control key.
pub const CONTROL: u8 = 2;

/// Modifier bit for the alt key.
pub const ALT: u8 = 4;

/// Modifier bit for the super key.
pub const SUPER: u8 = 8;

/// Modifier bit for the hyper key.
pub const HYPER: u8 = 16;

/// Modifier bit for the meta key.
pub const META: u8 = 32;

/// What happened to a key.
#[derive(Clone, Copy, Debug, PartialEq, Eq, Structural)]
pub enum KeyKind {
    Press,
    Repeat,
    Release,
}

/// One key event: the key, the set of modifier bits held with it, and what happened
/// to the key. The components act on the key whatever happened to it; only a text
/// field tells a press from the rest.
#[derive(Clone, Copy, Debug, PartialEq, Eq, Structural)]
pub struct Key {
    pub code: KeyCode,
    pub modifiers: u8,
    pub kind: KeyKind,
}

/// What the terminal reports.
#[derive(Clone, Copy, Debug, PartialEq, Eq, Structural)]
pub enum Event {
    /// A key was pressed.
    Key(Key),
    /// Anything else: the mouse, a resize, a paste.
    Other,
}

/// What a component did with a key.
#[derive(Clone, Copy, Debug, PartialEq, Eq, Structural)]
pub enum HandleSuccess {
    Consumed,
    Ignored,
}

impl Key {
    /// A key pressed with no modifier.
    pub fn plain(code: KeyCode) -> (key: Key)
        ensures
            key == (Key { code, modifiers: 0, kind: KeyKind::Press }),
    {
        Key { code, modifiers: 0, kind: KeyKind::Press }
    }

    /// A key pressed with the modifiers of `modifiers` held.
    pub fn with(code: KeyCode, modifiers: u8) -> (key: Key)
        ensures
            key == (Key { code, modifiers, kind: KeyKind::Press }),
    {
        Key { code, modifiers, kind: KeyKind::Press }
    }

    /// True for the keys that move a selection or a view down: `j` and the down arrow.
    pub open spec fn spec_is_down(self) -> bool {
        self.code == KeyCode::Down || self.code == KeyCode::Char('j')
    }

    /// True for the keys that move a selection or a view up: `k` and the up arrow.
    pub open spec fn spec_is_up(self) -> bool {
        self.code == KeyCode::Up || self.code == KeyCode::Char('k')
    }

    /// True for the keys that end the program: `q`, `Q`, and `c` with control alone.
    pub open spec fn spec_is_quit(self) -> bool {
        self.code == KeyCode::Char('q') || self.code == KeyCode::Char('Q') || (self.code
            == KeyCode::Char('c') && self.modifiers == CONTROL)
    }

    /// True for a press, as against a repeat or a release.
    pub fn is_press(self) -> (b: bool)
        ensures
            b == (self.kind is Press),
    {
        match self.kind {
            KeyKind::Press => true,
            _ => false,
        }
    }

    #[verifier::when_used_as_spec(spec_is_down)]
    pub fn is_down(self) -> (b: bool)
        ensures
            b == self.spec_is_down(),
    {
        match self.code {
            KeyCode::Down => true,
            KeyCode::Char(c) => c == 'j',
            _ => false,
        }
    }

    #[verifier::when_used_as_spec(spec_is_up)]
    pub fn is_up(self) -> (b: bool)
        ensures
            b == self.spec_is_up(),
    {
        match self.code {
            KeyCode::Up => true,
            KeyCode::Char(c) => c == 'k',
            _ => false,
        }
    }

    #[verifier::when_used_as_spec(spec_is_quit)]
    pub fn is_quit(self) -> (b: bool)
        ensures
            b == self.spec_is_quit(),
    {
        match self.code {
            KeyCode::Char(c) => c == 'q' || c == 'Q' || (c == 'c' && self.modifiers == CONTROL),
            _ => false,
        }
    }
}

} // verus!
