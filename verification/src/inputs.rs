//! Raw input modeling: the key identifiers the game reacts to and the
//! press/release edges delivered by the windowing layer.  The
//! surrounding application translates its window-library key codes into
//! these plain values; the input source guarantees one edge per
//! OS-level press or release (held keys do not repeat).

use vstd::prelude::*;

verus! {

/// The keys the game distinguishes; every other key is `Other`.
#[derive(Copy, Clone, Debug, PartialEq, Eq, Structural)]
pub enum Key {
    A,
    B,
    C,
    E,
    Z,
    Left,
    Right,
    Up,
    Down,
    Enter,
    Escape,
    Other,
}

/// One raw input edge: a key going down or coming back up.
#[derive(Copy, Clone, Debug, PartialEq, Eq, Structural)]
pub enum KeyEvent {
    Pressed(Key),
    Released(Key),
}

} // verus!
