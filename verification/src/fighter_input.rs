//! Input-event translator of the fighter: maps raw key edges to
//! semantic fighter events and keeps the held-key memory (movement
//! held, crouch held, facing direction).

use vstd::prelude::*;

use crate::common::Direction;
use crate::inputs::Key;
use crate::inputs::KeyEvent;

verus! {

/// A semantic fighter event, as produced by the translator: movement
/// and crouch edges, one event per attack, or `Nothing` for a key the
/// fighter does not react to.
#[derive(Copy, Clone, Debug, PartialEq, Eq, Structural)]
pub enum FighterInputEvent {
    Nothing,
    Move,
    EndMove,
    Crouch,
    EndCrouch,
    LeftPunch,
    RightPunch,
    HighKick,
}

/// Held-key memory of the translator: which horizontal movement keys
/// are down, whether crouch is held, and the facing direction, which
/// movement presses update and releases leave alone.
#[derive(Copy, Clone, Debug, PartialEq, Eq, Structural)]
pub struct FighterInputState {
    pub direction: Direction,
    pub right_move: bool,
    pub left_move: bool,
    pub crouch: bool,
}

/// The semantic event one raw key edge translates to.
pub open spec fn spec_translate_event(e: KeyEvent) -> FighterInputEvent {
    match e {
        KeyEvent::Pressed(Key::A) => FighterInputEvent::HighKick,
        KeyEvent::Pressed(Key::B) => FighterInputEvent::LeftPunch,
        KeyEvent::Pressed(Key::C) => FighterInputEvent::RightPunch,
        KeyEvent::Pressed(Key::Right) => FighterInputEvent::Move,
        KeyEvent::Released(Key::Right) => FighterInputEvent::EndMove,
        KeyEvent::Pressed(Key::Left) => FighterInputEvent::Move,
        KeyEvent::Released(Key::Left) => FighterInputEvent::EndMove,
        KeyEvent::Pressed(Key::Down) => FighterInputEvent::Crouch,
        KeyEvent::Released(Key::Down) => FighterInputEvent::EndCrouch,
        _ => FighterInputEvent::Nothing,
    }
}

/// The held-key state after one raw key edge.  Only movement and
/// crouch keys touch it: a movement press sets its flag and turns the
/// fighter that way, a movement release clears its flag without
/// turning back, and the crouch key sets and clears the crouch flag.
pub open spec fn spec_translate_state(s: FighterInputState, e: KeyEvent) -> FighterInputState {
    match e {
        KeyEvent::Pressed(Key::Right) => FighterInputState {
            right_move: true,
            direction: Direction::Right,
            ..s
        },
        KeyEvent::Released(Key::Right) => FighterInputState { right_move: false, ..s },
        KeyEvent::Pressed(Key::Left) => FighterInputState {
            left_move: true,
            direction: Direction::Left,
            ..s
        },
        KeyEvent::Released(Key::Left) => FighterInputState { left_move: false, ..s },
        KeyEvent::Pressed(Key::Down) => FighterInputState { crouch: true, ..s },
        KeyEvent::Released(Key::Down) => FighterInputState { crouch: false, ..s },
        _ => s,
    }
}

/// Whether a raw key edge changes the facing direction: only the left
/// and right movement presses do.
pub open spec fn spec_changes_direction(e: KeyEvent) -> bool {
    e == KeyEvent::Pressed(Key::Left) || e == KeyEvent::Pressed(Key::Right)
}

impl FighterInputState {
    /// Fresh translator state at fighter spawn: nothing held, facing
    /// right.
    pub fn new() -> (r: FighterInputState)
        ensures
            r == (FighterInputState {
                direction: Direction::Right,
                right_move: false,
                left_move: false,
                crouch: false,
            }),
    {
        FighterInputState {
            direction: Direction::Right,
            right_move: false,
            left_move: false,
            crouch: false,
        }
    }

    /// Translate one raw key edge into its semantic event, updating the
    /// held-key memory.  Unmapped keys produce `Nothing` and leave the
    /// state untouched; the facing direction changes only on a left or
    /// right movement press.
    pub fn on_input(&mut self, e: KeyEvent) -> (r: FighterInputEvent)
        ensures
            r == spec_translate_event(e),
            *final(self) == spec_translate_state(*old(self), e),
            !spec_changes_direction(e) ==> final(self).direction == old(self).direction,
    {
        match e {
            KeyEvent::Pressed(Key::A) => FighterInputEvent::HighKick,
            KeyEvent::Pressed(Key::B) => FighterInputEvent::LeftPunch,
            KeyEvent::Pressed(Key::C) => FighterInputEvent::RightPunch,
            KeyEvent::Pressed(Key::Right) => {
                self.right_move = true;
                self.direction = Direction::Right;
                FighterInputEvent::Move
            },
            KeyEvent::Released(Key::Right) => {
                self.right_move = false;
                FighterInputEvent::EndMove
            },
            KeyEvent::Pressed(Key::Left) => {
                self.left_move = true;
                self.direction = Direction::Left;
                FighterInputEvent::Move
            },
            KeyEvent::Released(Key::Left) => {
                self.left_move = false;
                FighterInputEvent::EndMove
            },
            KeyEvent::Pressed(Key::Down) => {
                self.crouch = true;
                FighterInputEvent::Crouch
            },
            KeyEvent::Released(Key::Down) => {
                self.crouch = false;
                FighterInputEvent::EndCrouch
            },
            _ => FighterInputEvent::Nothing,
        }
    }
}

} // verus!
