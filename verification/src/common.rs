//! Shared plain-value types: the facing direction of a fighter and the
//! outcome handed back to the caller after an input event.

use vstd::prelude::*;

verus! {

/// Outcome of dispatching one input event: keep playing (`Solo`), hand
/// control back to the menu (`Menu`), or leave the game (`Exit`).
#[derive(Copy, Clone, Debug, PartialEq, Eq, Structural)]
pub enum ResultEvent {
    Exit,
    Solo,
    Menu,
}

/// Horizontal facing of a fighter.  `Right` is the spawn default.
#[derive(Copy, Clone, Debug, PartialEq, Eq, Structural)]
pub enum Direction {
    Left,
    Right,
}

/// Sign applied to horizontal quantities (velocity, draw scale) for a
/// given facing: `Right` is `+1`, `Left` is `-1`.
pub open spec fn mirror_sign(d: Direction) -> int {
    match d {
        Direction::Left => -1,
        Direction::Right => 1,
    }
}

impl Direction {
    /// True when sprites must be drawn horizontally flipped, which is
    /// exactly when the fighter faces left.
    pub fn is_mirrored(self) -> (r: bool)
        ensures
            r == (self is Left),
            r == (mirror_sign(self) == -1),
    {
        match self {
            Direction::Left => true,
            Direction::Right => false,
        }
    }
}

} // verus!
