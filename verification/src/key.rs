//! The keys that the form is told of, and what it asks for in return.

use vstd::prelude::*;

verus! {

/// A key press, as far as the form tells keys apart.
#[derive(Clone, Copy, Debug, PartialEq, Eq, Structural)]
pub enum Key {
    /// The focus-advance key.
    Tab,
    /// A printable character.
    Char(char),
    /// The delete-last-character key.
    Backspace,
    /// The confirmation key.
    Enter,
    /// Any other key; the form ignores it.
    Other,
}

/// What the caller has to do after a key press.
#[derive(Clone, Copy, Debug, PartialEq, Eq, Structural)]
pub enum Action {
    /// Nothing: go on reading keys.
    Idle,
    /// Start the clipping command with the form's arguments, feed its
    /// diagnostic lines to the form, and report how it ended.
    Launch,
}

} // verus!
