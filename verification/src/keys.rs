//! Logical key events: what the host's key-classification layer hands to
//! the engine for every physical key transition.

use vstd::prelude::*;

verus! {

/// Whether a key transition is a press or a release.
#[derive(Clone, Copy, PartialEq, Eq, Structural)]
pub enum KeyState {
    KeyPress,
    KeyRelease,
}

/// The host's classification of a key: navigation (arrow), whitespace,
/// backspace, or an ordinary character-producing key.
#[derive(Clone, Copy, PartialEq, Eq, Structural)]
pub enum KeyKind {
    Arrow,
    Whitespace,
    Backspace,
    Other,
}

/// A classified keyboard event.  `ch` is the character the key produces,
/// with `'\0'` standing for a key that produces none (a pure modifier);
/// `cap` says whether a case-shifting modifier is active.
#[derive(Clone, Copy, PartialEq, Eq, Structural)]
pub struct PhysicKey {
    pub ch: char,
    pub cap: bool,
    pub state: KeyState,
    pub kind: KeyKind,
}

impl PhysicKey {
    /// Whether the key is a navigation (arrow) key.
    pub fn is_arrow(&self) -> (r: bool)
        ensures
            r == (self.kind == KeyKind::Arrow),
    {
        match self.kind {
            KeyKind::Arrow => true,
            _ => false,
        }
    }

    /// Whether the key is a whitespace key.
    pub fn is_whitespace(&self) -> (r: bool)
        ensures
            r == (self.kind == KeyKind::Whitespace),
    {
        match self.kind {
            KeyKind::Whitespace => true,
            _ => false,
        }
    }

    /// Whether the key is the backspace key.
    pub fn is_backspace(&self) -> (r: bool)
        ensures
            r == (self.kind == KeyKind::Backspace),
    {
        match self.kind {
            KeyKind::Backspace => true,
            _ => false,
        }
    }
}

} // verus!
