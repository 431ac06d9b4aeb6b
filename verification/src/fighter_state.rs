//! The closed set of fighter states and their transition rules, both
//! for semantic input events and for per-tick animation completion.
//! Dispatch is a match over the tagged state, so the state set is
//! fixed at compile time.

use vstd::prelude::*;

use crate::animated_sprite::AnimationInfo;
use crate::animated_sprite::AnimationMode;
use crate::animated_sprite::spec_completed;
use crate::animated_sprite::spec_next;
use crate::common::Direction;
use crate::fighter_input::FighterInputEvent;
use crate::fighter_input::FighterInputState;

verus! {

/// Identity of a fighter state.  `Ko` is reserved and unused in the
/// transition table: a running machine is never in it.
#[derive(Copy, Clone, Debug, PartialEq, Eq, Hash, Structural)]
pub enum State {
    Idle,
    Crouch,
    EndCrouch,
    Move,
    HighKick,
    LeftPunch,
    RightPunch,
    Ko,
}

/// The states whose animation plays once and then hands control back
/// to `Idle`: standing back up, and the three attacks.
pub open spec fn spec_one_shot_state(s: State) -> bool {
    s is EndCrouch || s is HighKick || s is LeftPunch || s is RightPunch
}

/// The repeat policy each state's animation descriptor must carry:
/// transitional and attack states play once, the rest loop.
pub open spec fn spec_state_mode(s: State) -> AnimationMode {
    if spec_one_shot_state(s) {
        AnimationMode::OneShot
    } else {
        AnimationMode::Repeated
    }
}

/// The state entered on a semantic input event.
///
/// Idle accepts movement, crouch and attacks; Move can stop, crouch
/// or attack; Crouch only stands back up via EndCrouch; EndCrouch can
/// be interrupted by a new crouch press; an attack in progress ignores
/// all events (an attack cannot be cancelled into another attack).
pub open spec fn spec_event_next(s: State, e: FighterInputEvent) -> State {
    match s {
        State::Idle => match e {
            FighterInputEvent::Move => State::Move,
            FighterInputEvent::Crouch => State::Crouch,
            FighterInputEvent::HighKick => State::HighKick,
            FighterInputEvent::LeftPunch => State::LeftPunch,
            FighterInputEvent::RightPunch => State::RightPunch,
            _ => State::Idle,
        },
        State::Move => match e {
            FighterInputEvent::EndMove => State::Idle,
            FighterInputEvent::Crouch => State::Crouch,
            FighterInputEvent::HighKick => State::HighKick,
            FighterInputEvent::LeftPunch => State::LeftPunch,
            FighterInputEvent::RightPunch => State::RightPunch,
            _ => State::Move,
        },
        State::Crouch => match e {
            FighterInputEvent::EndCrouch => State::EndCrouch,
            _ => State::Crouch,
        },
        State::EndCrouch => match e {
            FighterInputEvent::Crouch => State::Crouch,
            _ => State::EndCrouch,
        },
        State::HighKick => State::HighKick,
        State::LeftPunch => State::LeftPunch,
        State::RightPunch => State::RightPunch,
        State::Ko => State::Ko,
    }
}

/// The state entered when the per-tick animation update reports
/// completion: a one-shot state returns to `Idle`, every other state
/// stays (its looping animation wraps inside the sequencer).
pub open spec fn spec_tick_next(s: State, completed: bool) -> State {
    if completed && spec_one_shot_state(s) {
        State::Idle
    } else {
        s
    }
}

/// The state reached after dispatching a whole sequence of semantic
/// events, in order.
pub open spec fn spec_fold_events(s: State, es: Seq<FighterInputEvent>) -> State
    decreases es.len(),
{
    if es.len() == 0 {
        s
    } else {
        spec_fold_events(spec_event_next(s, es[0]), es.skip(1))
    }
}

/// No sequence of semantic events leads out of the closed state set:
/// a machine that starts outside `Ko` never reaches `Ko`.
pub proof fn lemma_closed_state_set(s: State, es: Seq<FighterInputEvent>)
    requires
        s != State::Ko,
    ensures
        spec_fold_events(s, es) != State::Ko,
    decreases es.len(),
{
    if es.len() > 0 {
        lemma_closed_state_set(spec_event_next(s, es[0]), es.skip(1));
    }
}

/// Immutable animation descriptor of one fighter state: where its
/// frames start on the sprite sheet, how many there are, the delay
/// between frames, the horizontal speed it imparts (in milli-pixels
/// per tick, never negative) and its repeat policy.
#[derive(Copy, Clone, Debug, PartialEq, Eq, Structural)]
pub struct FighterAnimation {
    pub sprite_index: u32,
    pub nb_frames: u32,
    pub delay: u32,
    pub speed: i64,
    pub mode: AnimationMode,
}

impl FighterAnimation {
    /// A descriptor is well formed when it has at least one frame, a
    /// non-negative speed, and sheet indices that stay within `u32`.
    pub open spec fn wf(self) -> bool {
        &&& self.nb_frames >= 1
        &&& self.speed >= 0
        &&& self.sprite_index + self.nb_frames <= u32::MAX
    }

    /// Build a descriptor from per-action configuration values.
    pub fn new(sprite_index: u32, nb_frames: u32, delay: u32, speed: i64, mode: AnimationMode) -> (r:
        FighterAnimation)
        requires
            nb_frames >= 1,
            speed >= 0,
            sprite_index + nb_frames <= u32::MAX,
        ensures
            r == (FighterAnimation { sprite_index, nb_frames, delay, speed, mode }),
            r.wf(),
    {
        FighterAnimation { sprite_index, nb_frames, delay, speed, mode }
    }
}

impl State {
    /// Decide the state transition for one semantic event.  The
    /// returned direction is always the translator's current facing,
    /// so a state change never turns the fighter by itself; the flag
    /// reports whether the state identity changed.
    pub fn on_event(self, event: FighterInputEvent, input_state: &FighterInputState) -> (r: (
        State,
        Direction,
        bool,
    ))
        ensures
            r.0 == spec_event_next(self, event),
            r.1 == input_state.direction,
            r.2 == (r.0 != self),
    {
        let next = match self {
            State::Idle => match event {
                FighterInputEvent::Move => State::Move,
                FighterInputEvent::Crouch => State::Crouch,
                FighterInputEvent::HighKick => State::HighKick,
                FighterInputEvent::LeftPunch => State::LeftPunch,
                FighterInputEvent::RightPunch => State::RightPunch,
                _ => State::Idle,
            },
            State::Move => match event {
                FighterInputEvent::EndMove => State::Idle,
                FighterInputEvent::Crouch => State::Crouch,
                FighterInputEvent::HighKick => State::HighKick,
                FighterInputEvent::LeftPunch => State::LeftPunch,
                FighterInputEvent::RightPunch => State::RightPunch,
                _ => State::Move,
            },
            State::Crouch => match event {
                FighterInputEvent::EndCrouch => State::EndCrouch,
                _ => State::Crouch,
            },
            State::EndCrouch => match event {
                FighterInputEvent::Crouch => State::Crouch,
                _ => State::EndCrouch,
            },
            State::HighKick => State::HighKick,
            State::LeftPunch => State::LeftPunch,
            State::RightPunch => State::RightPunch,
            State::Ko => State::Ko,
        };
        (next, input_state.direction, next != self)
    }

    /// Per-tick update while this state is active: advance the
    /// sequencer once and decide whether to remain or, for a one-shot
    /// state whose animation just completed, return to `Idle`.
    pub fn on_frame_update(
        self,
        anim: &mut AnimationInfo,
        now: u64,
        input_state: &FighterInputState,
    ) -> (r: (State, Direction))
        requires
            old(anim).wf(),
        ensures
            *final(anim) == spec_next(*old(anim), now),
            final(anim).wf(),
            r.0 == spec_tick_next(self, spec_completed(*old(anim), now)),
            r.1 == input_state.direction,
    {
        let is_end_animation = anim.next_frame(now);
        let next = match self {
            State::EndCrouch | State::HighKick | State::LeftPunch | State::RightPunch => {
                if is_end_animation {
                    State::Idle
                } else {
                    self
                }
            },
            _ => self,
        };
        (next, input_state.direction)
    }
}

} // verus!
