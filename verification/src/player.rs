//! Per-action animation descriptors of the queued-event fighter pipeline
//! and the table assigning one to every action.  Horizontal speeds are
//! in milli-pixels per tick, so the walking speed of 0.3 pixels per
//! tick is written 300.

use vstd::prelude::*;

use crate::game_events::ActionTempo;
use crate::game_events::RunAction;

verus! {

/// Immutable parameter bundle of one action's animation: where its
/// frames start on the sprite sheet, how many there are, the cell
/// side length, the delay between frames, the horizontal speed it
/// imparts, and its repeat tempo.
#[derive(Copy, Clone, Debug, PartialEq, Eq, Structural)]
pub struct ActionDesc {
    pub name: RunAction,
    pub count: i32,
    pub sprite_index: i32,
    pub sprite_len: i32,
    pub delay: i32,
    pub speed: i64,
    pub tempo: ActionTempo,
}

/// Whether a tempo loops its animation instead of playing it once.
pub open spec fn spec_repeated(tempo: ActionTempo) -> bool {
    tempo is Infinite || tempo is Continu
}

impl ActionDesc {
    /// Whether this action's animation loops.
    pub fn is_repeated(&self) -> (r: bool)
        ensures
            r == spec_repeated(self.tempo),
    {
        match self.tempo {
            ActionTempo::Infinite | ActionTempo::Continu => true,
            _ => false,
        }
    }
}

/// The descriptor of the standing idle animation, the default action.
pub open spec fn spec_standing_desc() -> ActionDesc {
    ActionDesc {
        name: RunAction::Standing,
        count: 4,
        sprite_index: 5,
        sprite_len: 100,
        delay: 150,
        speed: 0,
        tempo: ActionTempo::Infinite,
    }
}

/// The animation descriptor assigned to each action.  Actions without
/// a sequence of their own (`Standing`, `Punch`, `CrouchPunch`) fall
/// back to the standing descriptor.
pub open spec fn spec_action_desc(action: RunAction) -> ActionDesc {
    match action {
        RunAction::Walking => ActionDesc {
            name: RunAction::Walking,
            count: 6,
            sprite_index: 0,
            sprite_len: 100,
            delay: 150,
            speed: 300,
            tempo: ActionTempo::Continu,
        },
        RunAction::Crouch => ActionDesc {
            name: RunAction::Crouch,
            count: 1,
            sprite_index: 20,
            sprite_len: 100,
            delay: 1000,
            speed: 0,
            tempo: ActionTempo::Continu,
        },
        RunAction::MiddleKick => ActionDesc {
            name: RunAction::MiddleKick,
            count: 3,
            sprite_index: 9,
            sprite_len: 100,
            delay: 150,
            speed: 0,
            tempo: ActionTempo::Immediate,
        },
        RunAction::HighKick => ActionDesc {
            name: RunAction::HighKick,
            count: 9,
            sprite_index: 24,
            sprite_len: 100,
            delay: 100,
            speed: 0,
            tempo: ActionTempo::Immediate,
        },
        RunAction::Blocking => ActionDesc {
            name: RunAction::Blocking,
            count: 1,
            sprite_index: 37,
            sprite_len: 100,
            delay: 1000,
            speed: 0,
            tempo: ActionTempo::Immediate,
        },
        RunAction::CrouchBlocking => ActionDesc {
            name: RunAction::CrouchBlocking,
            count: 1,
            sprite_index: 38,
            sprite_len: 100,
            delay: 1000,
            speed: 0,
            tempo: ActionTempo::Immediate,
        },
        _ => spec_standing_desc(),
    }
}

/// Look up the animation descriptor of an action.
pub fn get_action_desc(action: RunAction) -> (r: ActionDesc)
    ensures
        r == spec_action_desc(action),
{
    match action {
        RunAction::Walking => ActionDesc {
            name: RunAction::Walking,
            count: 6,
            sprite_index: 0,
            sprite_len: 100,
            delay: 150,
            speed: 300,
            tempo: ActionTempo::Continu,
        },
        RunAction::Crouch => ActionDesc {
            name: RunAction::Crouch,
            count: 1,
            sprite_index: 20,
            sprite_len: 100,
            delay: 1000,
            speed: 0,
            tempo: ActionTempo::Continu,
        },
        RunAction::MiddleKick => ActionDesc {
            name: RunAction::MiddleKick,
            count: 3,
            sprite_index: 9,
            sprite_len: 100,
            delay: 150,
            speed: 0,
            tempo: ActionTempo::Immediate,
        },
        RunAction::HighKick => ActionDesc {
            name: RunAction::HighKick,
            count: 9,
            sprite_index: 24,
            sprite_len: 100,
            delay: 100,
            speed: 0,
            tempo: ActionTempo::Immediate,
        },
        RunAction::Blocking => ActionDesc {
            name: RunAction::Blocking,
            count: 1,
            sprite_index: 37,
            sprite_len: 100,
            delay: 1000,
            speed: 0,
            tempo: ActionTempo::Immediate,
        },
        RunAction::CrouchBlocking => ActionDesc {
            name: RunAction::CrouchBlocking,
            count: 1,
            sprite_index: 38,
            sprite_len: 100,
            delay: 1000,
            speed: 0,
            tempo: ActionTempo::Immediate,
        },
        _ => ActionDesc {
            name: RunAction::Standing,
            count: 4,
            sprite_index: 5,
            sprite_len: 100,
            delay: 150,
            speed: 0,
            tempo: ActionTempo::Infinite,
        },
    }
}

/// Progress of the action a fighter is currently running: the
/// descriptor and the frame counter within it.
#[derive(Copy, Clone, Debug, PartialEq, Eq, Structural)]
pub struct State {
    pub current_action: ActionDesc,
    pub step: i32,
}

impl State {
    /// Whether the frame counter stands on or past the terminal frame.
    pub fn is_done(&self) -> (r: bool)
        ensures
            r == (self.step >= self.current_action.count - 1),
    {
        self.step as i64 >= self.current_action.count as i64 - 1
    }

    /// Begin an action from its first frame.
    pub fn new(action: &ActionDesc) -> (r: State)
        ensures
            r == (State { current_action: *action, step: 0 }),
    {
        Self { current_action: *action, step: 0 }
    }

    /// The state a fighter spawns in: standing, at frame 0.
    pub fn default() -> (r: State)
        ensures
            r == (State { current_action: spec_standing_desc(), step: 0 }),
    {
        Self {
            current_action: ActionDesc {
                name: RunAction::Standing,
                count: 4,
                sprite_index: 5,
                sprite_len: 100,
                delay: 150,
                speed: 0,
                tempo: ActionTempo::Infinite,
            },
            step: 0,
        }
    }
}

} // verus!
