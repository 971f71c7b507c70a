use vstd::prelude::*;

verus! {

/// The keys the game reacts to; every other key is `Other`.
#[derive(Clone, Copy, PartialEq, Eq, Structural, Debug)]
pub enum Key {
    UpArrow,
    DownArrow,
    RightArrow,
    LeftArrow,
    KeyQ,
    KeyR,
    Other,
}

/// A keyboard event as the game sees it.
#[derive(Clone, Copy, PartialEq, Eq, Structural, Debug)]
pub enum KeyEvent {
    KeyPress(Key),
    KeyRelease(Key),
    Other,
}

} // verus!
