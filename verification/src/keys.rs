//! Keys and key events that the launcher simulates.
use vstd::prelude::*;

verus! {

/// A key on the keyboard, by name.
#[derive(PartialEq, Eq, Structural, Debug, Clone, Copy)]
pub enum KeyName {
    Space,
    F1,
    Shift,
    Control,
    Alt,
    C,
    V,
    Return,
}

/// What happens to a key.
#[derive(PartialEq, Eq, Structural, Debug, Clone, Copy)]
pub enum KeyDirection {
    Press,
    Release,
    /// Press and release.
    Click,
}

/// One simulated keyboard event, or a pause.
#[derive(PartialEq, Eq, Structural, Debug, Clone, Copy)]
pub enum KeyStep {
    Key(KeyName, KeyDirection),
    /// Wait this many milliseconds.
    Pause(u64),
}

} // verus!
