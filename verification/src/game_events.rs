//! Event vocabulary of the queued-event fighter pipeline: raw fighter
//! events as queued from the input layer, the actions a fighter can be
//! running, the repeat tempo of an action, and the attack kinds.

use vstd::prelude::*;

verus! {

/// A semantic input edge queued for the fighter: a key press or release
/// already mapped to its meaning.
#[derive(Copy, Clone, Debug, PartialEq, Eq, Structural)]
pub enum FighterEvent {
    Standing,
    WalkingRight,
    WalkingLeft,
    EndWalkingRight,
    EndWalkingLeft,
    Crouch,
    EndCrouch,
    Attack1,
    Attack2,
    EndAttack,
    Blocking,
}

/// The action a fighter is currently performing.
#[derive(Copy, Clone, Debug, PartialEq, Eq, Structural)]
pub enum RunAction {
    Standing,
    Walking,
    Crouch,
    CrouchPunch,
    Punch,
    MiddleKick,
    HighKick,
    Blocking,
    CrouchBlocking,
}

/// Repeat tempo of an action's animation: `Infinite` and `Continu`
/// loop, `Immediate` plays once.
#[derive(Copy, Clone, Debug, PartialEq, Eq, Structural)]
pub enum ActionTempo {
    Infinite,
    Continu,
    Immediate,
}

/// The attack currently armed by the input state.
#[derive(Copy, Clone, Debug, PartialEq, Eq, Structural)]
pub enum Attack {
    NoAttack,
    Punch,
    HighKick,
    MiddleKick,
}

} // verus!
