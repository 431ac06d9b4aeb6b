//! The fighter state machine: one current state, one facing direction,
//! a per-state animation descriptor table, the animation sequencer and
//! the navigation state.  Input events and render ticks drive it; the
//! sequencer is reset exactly once per state entry, on the first tick
//! after the state changed.

use vstd::prelude::*;

use crate::animated_sprite::AnimationInfo;
use crate::animated_sprite::AnimationMode;
use crate::animated_sprite::NavInfo;
use crate::animated_sprite::Vec2;
use crate::animated_sprite::spec_completed;
use crate::animated_sprite::spec_next;
use crate::common::Direction;
use crate::common::ResultEvent;
use crate::common::mirror_sign;
use crate::fighter_input::FighterInputState;
use crate::fighter_input::spec_changes_direction;
use crate::fighter_input::spec_translate_event;
use crate::fighter_input::spec_translate_state;
use crate::fighter_state::FighterAnimation;
use crate::fighter_state::State;
use crate::fighter_state::spec_event_next;
use crate::fighter_state::spec_state_mode;
use crate::fighter_state::spec_tick_next;
use crate::inputs::Key;
use crate::inputs::KeyEvent;

verus! {

/// Per-character animation configuration: one descriptor for every
/// fighter state, resolved once at fighter construction, plus the
/// side length of the square sprite-sheet cells.
#[derive(Copy, Clone, Debug, PartialEq, Eq, Structural)]
pub struct CharacterConfiguration {
    pub sprite_size: u32,
    pub idle: FighterAnimation,
    pub walking: FighterAnimation,
    pub crouch: FighterAnimation,
    pub endcrouch: FighterAnimation,
    pub highkick: FighterAnimation,
    pub leftpunch: FighterAnimation,
    pub rightpunch: FighterAnimation,
}

impl CharacterConfiguration {
    /// The descriptor serving a state.  `Ko` is reserved and falls
    /// back to the idle descriptor.
    pub open spec fn spec_action_of(self, s: State) -> FighterAnimation {
        match s {
            State::Move => self.walking,
            State::Crouch => self.crouch,
            State::EndCrouch => self.endcrouch,
            State::HighKick => self.highkick,
            State::LeftPunch => self.leftpunch,
            State::RightPunch => self.rightpunch,
            _ => self.idle,
        }
    }

    /// A configuration is well formed when every descriptor is and
    /// each carries the repeat policy its state demands: looping for
    /// idle, walking and crouch, one-shot for standing back up and
    /// the attacks.
    pub open spec fn wf(self) -> bool {
        forall|s: State| (#[trigger] self.spec_action_of(s)).wf() && self.spec_action_of(s).mode
            == spec_state_mode(s)
    }

    /// Runtime check of [`wf`](Self::wf), for callers that receive the
    /// configuration from outside (a parsed file) and must reject a
    /// bad one before building a fighter.
    pub fn is_wf(&self) -> (r: bool)
        ensures
            r == self.wf(),
    {
        let ok = desc_ok(self.idle, AnimationMode::Repeated)
            && desc_ok(self.walking, AnimationMode::Repeated)
            && desc_ok(self.crouch, AnimationMode::Repeated)
            && desc_ok(self.endcrouch, AnimationMode::OneShot)
            && desc_ok(self.highkick, AnimationMode::OneShot)
            && desc_ok(self.leftpunch, AnimationMode::OneShot)
            && desc_ok(self.rightpunch, AnimationMode::OneShot);
        proof {
            if ok {
                assert forall|s: State|
                    (#[trigger] self.spec_action_of(s)).wf() && self.spec_action_of(s).mode
                        == spec_state_mode(s) by {
                    match s {
                        State::Move => {},
                        State::Crouch => {},
                        State::EndCrouch => {},
                        State::HighKick => {},
                        State::LeftPunch => {},
                        State::RightPunch => {},
                        _ => {},
                    }
                }
            } else {
                assert(!self.wf()) by {
                    if self.wf() {
                        assert(self.spec_action_of(State::Idle).wf());
                        assert(self.spec_action_of(State::Move).wf());
                        assert(self.spec_action_of(State::Crouch).wf());
                        assert(self.spec_action_of(State::EndCrouch).wf());
                        assert(self.spec_action_of(State::HighKick).wf());
                        assert(self.spec_action_of(State::LeftPunch).wf());
                        assert(self.spec_action_of(State::RightPunch).wf());
                    }
                }
            }
        }
        ok
    }

    /// Look up the animation descriptor of a fighter state.
    pub fn get_action_configuration(&self, s: State) -> (r: FighterAnimation)
        ensures
            r == self.spec_action_of(s),
    {
        match s {
            State::Move => self.walking,
            State::Crouch => self.crouch,
            State::EndCrouch => self.endcrouch,
            State::HighKick => self.highkick,
            State::LeftPunch => self.leftpunch,
            State::RightPunch => self.rightpunch,
            _ => self.idle,
        }
    }
}

/// Whether one descriptor is well formed and carries the expected
/// repeat policy.
fn desc_ok(d: FighterAnimation, mode: AnimationMode) -> (r: bool)
    ensures
        r == (d.wf() && d.mode == mode),
{
    d.nb_frames >= 1 && d.speed >= 0 && d.sprite_index as u64 + d.nb_frames as u64
        <= u32::MAX as u64 && d.mode == mode
}

/// What one render tick hands to the renderer: the frame index within
/// the sequence, the absolute sprite-sheet cell to show, whether to
/// draw mirrored, and the fighter position in milli-pixels.
#[derive(Copy, Clone, Debug, PartialEq, Eq, Structural)]
pub struct FrameOutput {
    pub frame: u32,
    pub sheet_index: u32,
    pub mirror: bool,
    pub x: i64,
    pub y: i64,
}

/// Whether a sequencer state carries the timing fields of a
/// descriptor (its frame budget, delay and repeat policy).
pub open spec fn spec_anim_matches(a: AnimationInfo, d: FighterAnimation) -> bool {
    a.mode == d.mode && a.delay == d.delay && a.nb_frames == d.nb_frames
}

/// One fighter: its state machine, translator state, sequencer and
/// navigation state.
pub struct Fighter {
    pub name: String,
    pub current_state: State,
    pub current_direction: Direction,
    pub config: CharacterConfiguration,
    pub anim: AnimationInfo,
    pub nav: NavInfo,
    pub is_new_state: bool,
    pub selected: bool,
    pub input_state: FighterInputState,
}

impl Fighter {
    /// Machine invariant: the configuration is well formed, the
    /// current state is in the closed set (never the reserved `Ko`),
    /// the sequencer is well formed and — unless a state was just
    /// entered and the next tick will reset it — carries the current
    /// state's descriptor, and the machine's facing agrees with the
    /// translator's.
    pub open spec fn wf(self) -> bool {
        &&& self.config.wf()
        &&& self.current_state != State::Ko
        &&& self.anim.wf()
        &&& self.current_direction == self.input_state.direction
        &&& !self.is_new_state ==> spec_anim_matches(
            self.anim,
            self.config.spec_action_of(self.current_state),
        )
    }

    /// The machine after dispatching one non-escape key edge: the
    /// translator absorbs the edge, the current state takes the
    /// semantic event, the facing follows the translator, and a state
    /// identity change flags the sequencer for reset on the next tick.
    pub open spec fn spec_process_event(self, e: KeyEvent) -> Fighter {
        let input2 = spec_translate_state(self.input_state, e);
        let next = spec_event_next(self.current_state, spec_translate_event(e));
        Fighter {
            input_state: input2,
            current_state: next,
            current_direction: input2.direction,
            is_new_state: self.is_new_state || next != self.current_state,
            ..self
        }
    }

    /// Build a fighter at a spawn position: idle, facing right, with
    /// the sequencer primed for the idle descriptor and no velocity.
    pub fn new(name: String, config: CharacterConfiguration, x: i64, y: i64, selected: bool) -> (r:
        Fighter)
        requires
            config.wf(),
        ensures
            r.wf(),
            r.name@ == name@,
            r.config == config,
            r.current_state == State::Idle,
            r.current_direction == Direction::Right,
            r.is_new_state,
            r.selected == selected,
            r.input_state == (FighterInputState {
                direction: Direction::Right,
                right_move: false,
                left_move: false,
                crouch: false,
            }),
            r.nav == (NavInfo {
                position: Vec2 { x, y },
                speed: Vec2 { x: 0, y: 0 },
            }),
            r.anim.step == 0 && !r.anim.started,
    {
        let idle = config.get_action_configuration(State::Idle);
        let anim = AnimationInfo {
            mode: idle.mode,
            delay: idle.delay,
            nb_frames: idle.nb_frames,
            step: 0,
            started: false,
            last_ms: 0,
        };
        assert(config.spec_action_of(State::Idle).wf());
        Fighter {
            name,
            current_state: State::Idle,
            current_direction: Direction::Right,
            config,
            anim,
            nav: NavInfo { position: Vec2 { x, y }, speed: Vec2 { x: 0, y: 0 } },
            is_new_state: true,
            selected,
            input_state: FighterInputState::new(),
        }
    }

    /// Dispatch one raw key edge.
    ///
    /// An escape press is intercepted before translation: it returns
    /// `Menu` and mutates nothing.  Every other edge is translated and
    /// handed to the current state, the machine follows the decision,
    /// and `Solo` is returned.  A state change never turns the fighter
    /// by itself: the facing changes only on a left or right movement
    /// press.
    pub fn process_event(&mut self, e: KeyEvent) -> (r: ResultEvent)
        requires
            old(self).wf(),
        ensures
            final(self).wf(),
            e == KeyEvent::Pressed(Key::Escape) ==> r == ResultEvent::Menu && *final(self) == *old(
                self,
            ),
            e != KeyEvent::Pressed(Key::Escape) ==> r == ResultEvent::Solo && *final(self) == old(
                self,
            ).spec_process_event(e),
            !spec_changes_direction(e) ==> final(self).current_direction == old(
                self,
            ).current_direction,
    {
        match e {
            KeyEvent::Pressed(Key::Escape) => ResultEvent::Menu,
            _ => {
                let input_event = self.input_state.on_input(e);
                let action_result = self.current_state.on_event(input_event, &self.input_state);
                if action_result.0 != self.current_state {
                    self.is_new_state = true;
                }
                self.current_state = action_result.0;
                self.current_direction = action_result.1;
                ResultEvent::Solo
            },
        }
    }

    /// The machine after one render tick at clock reading `now`: the
    /// sequencer (reset first to the current descriptor if a state was
    /// just entered) advances once; a one-shot completion sends the
    /// state back to idle, to take effect on the next tick; and the
    /// position takes one Euler step with the velocity derived from
    /// the current descriptor's speed signed by the facing direction.
    pub open spec fn spec_tick(self, now: u64) -> Fighter {
        let d = self.config.spec_action_of(self.current_state);
        let anim0 = if self.is_new_state {
            self.anim.spec_reset(d.delay, d.nb_frames, d.mode)
        } else {
            self.anim
        };
        let next = spec_tick_next(self.current_state, spec_completed(anim0, now));
        let nav1 = NavInfo {
            speed: Vec2 { x: (mirror_sign(self.current_direction) * d.speed) as i64, y: 0 },
            ..self.nav
        };
        Fighter {
            anim: spec_next(anim0, now),
            nav: nav1.spec_step(),
            current_state: next,
            current_direction: self.input_state.direction,
            is_new_state: next != self.current_state,
            ..self
        }
    }

    /// Run one render tick: reset the sequencer if a state was just
    /// entered, advance the animation, let the active state consume a
    /// completion signal, move the fighter, and hand back what the
    /// renderer needs for this frame.
    pub fn on_frame_update(&mut self, now: u64) -> (out: FrameOutput)
        requires
            old(self).wf(),
        ensures
            *final(self) == old(self).spec_tick(now),
            final(self).wf(),
            out.frame == final(self).anim.step,
            out.sheet_index == old(self).config.spec_action_of(old(self).current_state).sprite_index
                + final(self).anim.step,
            out.mirror == (old(self).current_direction is Left),
            out.x == final(self).nav.position.x,
            out.y == final(self).nav.position.y,
    {
        let action = self.config.get_action_configuration(self.current_state);
        assert(self.config.spec_action_of(self.current_state).wf());
        if self.is_new_state {
            self.anim.reset(action.delay, action.nb_frames, action.mode);
            self.is_new_state = false;
        }
        let tick_result = self.current_state.on_frame_update(&mut self.anim, now, &self.input_state);
        if tick_result.0 != self.current_state {
            self.is_new_state = true;
        }
        self.current_state = tick_result.0;
        self.current_direction = tick_result.1;
        let vx = if self.current_direction.is_mirrored() {
            -action.speed
        } else {
            action.speed
        };
        self.nav.speed.x = vx;
        self.nav.speed.y = 0;
        self.nav.update_position();
        let sheet_index = action.sprite_index + self.anim.step;
        FrameOutput {
            frame: self.anim.step,
            sheet_index,
            mirror: self.current_direction.is_mirrored(),
            x: self.nav.position.x,
            y: self.nav.position.y,
        }
    }

    /// The machine after dispatching a whole sequence of raw key
    /// edges, in order.
    pub open spec fn spec_process_events(self, es: Seq<KeyEvent>) -> Fighter
        decreases es.len(),
    {
        if es.len() == 0 {
            self
        } else {
            self.spec_process_event(es[0]).spec_process_events(es.skip(1))
        }
    }

    /// Current per-tick velocity, in milli-pixels.
    pub fn get_speed(&self) -> (r: Vec2)
        ensures
            r == self.nav.speed,
    {
        self.nav.speed
    }

    /// Name of the character this fighter was built from.
    pub fn get_name(&self) -> (r: &str)
        ensures
            r@ == self.name@,
    {
        self.name.as_str()
    }
}

/// One dispatched key edge keeps the machine well formed, and in
/// particular inside the closed state set.
pub proof fn lemma_process_event_preserves_wf(f: Fighter, e: KeyEvent)
    requires
        f.wf(),
    ensures
        f.spec_process_event(e).wf(),
{
}

/// No sequence of raw key edges drives a well-formed machine out of
/// the closed state set: after any number of dispatched events the
/// current state is one of the seven live fighter states, never the
/// reserved `Ko`.
pub proof fn lemma_machine_state_closed(f: Fighter, es: Seq<KeyEvent>)
    requires
        f.wf(),
    ensures
        f.spec_process_events(es).wf(),
        f.spec_process_events(es).current_state != State::Ko,
    decreases es.len(),
{
    if es.len() > 0 {
        lemma_process_event_preserves_wf(f, es[0]);
        lemma_machine_state_closed(f.spec_process_event(es[0]), es.skip(1));
    }
}

/// Direction persistence: a dispatched key edge that is not an
/// explicit direction-changing press (left or right movement) leaves
/// the facing direction unchanged, whatever state change it causes;
/// and a render tick never changes the facing at all.
pub proof fn lemma_direction_persistence(f: Fighter, e: KeyEvent, now: u64)
    requires
        f.wf(),
        !spec_changes_direction(e),
    ensures
        f.spec_process_event(e).current_direction == f.current_direction,
        f.spec_tick(now).current_direction == f.current_direction,
{
}

} // verus!
