//! Level-triggered input state of the queued-event fighter pipeline: a
//! record of which movement keys are held, which attack is armed and
//! which way the fighter faces, together with the mapping from one
//! semantic event to the action the fighter should now be running.

use vstd::prelude::*;

use crate::common::Direction;
use crate::common::ResultEvent;
use crate::game_events::Attack;
use crate::game_events::FighterEvent;
use crate::game_events::RunAction;
use crate::inputs::Key;
use crate::inputs::KeyEvent;

verus! {

/// Held-key memory of one fighter: whether crouch and horizontal
/// movement are held, which attack is armed, and the current facing.
#[derive(Copy, Clone, Debug, PartialEq, Eq, Structural)]
pub struct InputState {
    pub flag_crouch: bool,
    pub flag_move: bool,
    pub direction: Direction,
    pub flag_attack: bool,
    pub attack: Attack,
}

/// The input state after absorbing one semantic event: movement
/// presses set the moving flag and turn the fighter, releases clear
/// the flag without turning back; crouch and attack events toggle
/// their flags; `Standing` and `Blocking` leave the state unchanged.
pub open spec fn spec_apply_event(s: InputState, evt: FighterEvent) -> InputState {
    match evt {
        FighterEvent::Crouch => InputState { flag_crouch: true, ..s },
        FighterEvent::EndCrouch => InputState { flag_crouch: false, ..s },
        FighterEvent::WalkingLeft => InputState { flag_move: true, direction: Direction::Left, ..s },
        FighterEvent::EndWalkingLeft => InputState { flag_move: false, ..s },
        FighterEvent::WalkingRight => InputState {
            flag_move: true,
            direction: Direction::Right,
            ..s
        },
        FighterEvent::EndWalkingRight => InputState { flag_move: false, ..s },
        FighterEvent::Attack1 => InputState {
            flag_attack: true,
            attack: Attack::MiddleKick,
            ..s
        },
        FighterEvent::Attack2 => InputState { flag_attack: true, attack: Attack::HighKick, ..s },
        FighterEvent::EndAttack => InputState {
            flag_attack: false,
            attack: Attack::NoAttack,
            ..s
        },
        _ => s,
    }
}

/// The action an armed attack stands for; an unarmed or punch-armed
/// state falls back to `Standing`.
pub open spec fn spec_attack_action(attack: Attack) -> RunAction {
    match attack {
        Attack::HighKick => RunAction::HighKick,
        Attack::MiddleKick => RunAction::MiddleKick,
        _ => RunAction::Standing,
    }
}

/// The action a fighter should be running given its held-key state:
/// crouch wins over everything, then an armed attack, then movement,
/// and otherwise the fighter stands.
pub open spec fn spec_running_action(s: InputState) -> RunAction {
    if s.flag_crouch {
        RunAction::Crouch
    } else if s.flag_attack {
        spec_attack_action(s.attack)
    } else if s.flag_move {
        RunAction::Walking
    } else {
        RunAction::Standing
    }
}

impl InputState {
    /// Fresh input state at fighter spawn: nothing held, facing right.
    pub fn new() -> (r: InputState)
        ensures
            r == (InputState {
                flag_crouch: false,
                flag_move: false,
                direction: Direction::Right,
                flag_attack: false,
                attack: Attack::NoAttack,
            }),
    {
        Self {
            flag_crouch: false,
            flag_move: false,
            direction: Direction::Right,
            flag_attack: false,
            attack: Attack::NoAttack,
        }
    }

    /// Disarm the attack flag once its animation has played out.
    pub fn on_end_action(&mut self)
        ensures
            *final(self) == (InputState { flag_attack: false, ..*old(self) }),
    {
        self.flag_attack = false;
    }

    /// The action the currently armed attack stands for, with the
    /// current facing.
    pub fn get_current_attack_from_input(&self, attack: Attack) -> (r: (RunAction, Direction))
        ensures
            r.0 == spec_attack_action(attack),
            r.1 == self.direction,
    {
        match attack {
            Attack::HighKick => (RunAction::HighKick, self.direction),
            Attack::MiddleKick => (RunAction::MiddleKick, self.direction),
            _ => (RunAction::Standing, self.direction),
        }
    }

    /// The action the fighter should be running right now, derived
    /// from the held-key state alone, with the current facing.
    pub fn get_running_action_from_current_state(&self) -> (r: (RunAction, Direction))
        ensures
            r.0 == spec_running_action(*self),
            r.1 == self.direction,
    {
        if self.flag_crouch {
            (RunAction::Crouch, self.direction)
        } else if self.flag_attack {
            self.get_current_attack_from_input(self.attack)
        } else if self.flag_move {
            (RunAction::Walking, self.direction)
        } else {
            (RunAction::Standing, self.direction)
        }
    }

    /// Absorb one semantic event into the held-key state and return the
    /// action the fighter should now run, with the current facing.
    pub fn get_current_action_from_input(&mut self, evt: FighterEvent) -> (r: (
        RunAction,
        Direction,
    ))
        ensures
            *final(self) == spec_apply_event(*old(self), evt),
            r.0 == spec_running_action(*final(self)),
            r.1 == final(self).direction,
    {
        match evt {
            FighterEvent::Crouch => {
                self.flag_crouch = true;
            },
            FighterEvent::EndCrouch => {
                self.flag_crouch = false;
            },
            FighterEvent::WalkingLeft => {
                self.flag_move = true;
                self.direction = Direction::Left;
            },
            FighterEvent::EndWalkingLeft => {
                self.flag_move = false;
            },
            FighterEvent::WalkingRight => {
                self.flag_move = true;
                self.direction = Direction::Right;
            },
            FighterEvent::EndWalkingRight => {
                self.flag_move = false;
            },
            FighterEvent::Attack1 => {
                self.flag_attack = true;
                self.attack = Attack::MiddleKick;
            },
            FighterEvent::Attack2 => {
                self.flag_attack = true;
                self.attack = Attack::HighKick;
            },
            FighterEvent::EndAttack => {
                self.flag_attack = false;
                self.attack = Attack::NoAttack;
            },
            _ => {},
        }
        self.get_running_action_from_current_state()
    }
}

/// The semantic fighter event a raw key edge stands for, if any.
pub open spec fn spec_fighter_event_of_key(e: KeyEvent) -> Option<FighterEvent> {
    match e {
        KeyEvent::Pressed(Key::Right) => Some(FighterEvent::WalkingRight),
        KeyEvent::Released(Key::Right) => Some(FighterEvent::EndWalkingRight),
        KeyEvent::Pressed(Key::Left) => Some(FighterEvent::WalkingLeft),
        KeyEvent::Released(Key::Left) => Some(FighterEvent::EndWalkingLeft),
        KeyEvent::Pressed(Key::Down) => Some(FighterEvent::Crouch),
        KeyEvent::Released(Key::Down) => Some(FighterEvent::EndCrouch),
        KeyEvent::Pressed(Key::Up) => Some(FighterEvent::Standing),
        KeyEvent::Pressed(Key::A) => Some(FighterEvent::Attack1),
        KeyEvent::Pressed(Key::Z) => Some(FighterEvent::Attack2),
        KeyEvent::Pressed(Key::E) => Some(FighterEvent::Blocking),
        _ => None,
    }
}

/// Map one raw key edge to its semantic fighter event, if it has one,
/// and the outcome for the caller: `Exit` on an escape press,
/// `Solo` (keep playing) otherwise.
pub fn fighter_event_from_key(e: KeyEvent) -> (r: (Option<FighterEvent>, ResultEvent))
    ensures
        r.0 == spec_fighter_event_of_key(e),
        r.1 == if e == KeyEvent::Pressed(Key::Escape) {
            ResultEvent::Exit
        } else {
            ResultEvent::Solo
        },
{
    match e {
        KeyEvent::Pressed(Key::Right) => (Some(FighterEvent::WalkingRight), ResultEvent::Solo),
        KeyEvent::Released(Key::Right) => (Some(FighterEvent::EndWalkingRight), ResultEvent::Solo),
        KeyEvent::Pressed(Key::Left) => (Some(FighterEvent::WalkingLeft), ResultEvent::Solo),
        KeyEvent::Released(Key::Left) => (Some(FighterEvent::EndWalkingLeft), ResultEvent::Solo),
        KeyEvent::Pressed(Key::Down) => (Some(FighterEvent::Crouch), ResultEvent::Solo),
        KeyEvent::Released(Key::Down) => (Some(FighterEvent::EndCrouch), ResultEvent::Solo),
        KeyEvent::Pressed(Key::Up) => (Some(FighterEvent::Standing), ResultEvent::Solo),
        KeyEvent::Pressed(Key::A) => (Some(FighterEvent::Attack1), ResultEvent::Solo),
        KeyEvent::Pressed(Key::Z) => (Some(FighterEvent::Attack2), ResultEvent::Solo),
        KeyEvent::Pressed(Key::E) => (Some(FighterEvent::Blocking), ResultEvent::Solo),
        KeyEvent::Pressed(Key::Escape) => (None, ResultEvent::Exit),
        _ => (None, ResultEvent::Solo),
    }
}

} // verus!
