// Tests of the fighter state machine: event-driven and tick-driven
// transitions, the reset-once-per-state-entry rule, direction
// persistence and the closed state set.

use mauricefight::animated_sprite::AnimationMode;
use mauricefight::common::Direction;
use mauricefight::common::ResultEvent;
use mauricefight::fighter::CharacterConfiguration;
use mauricefight::fighter::Fighter;
use mauricefight::fighter_state::FighterAnimation;
use mauricefight::fighter_state::State;
use mauricefight::inputs::Key;
use mauricefight::inputs::KeyEvent;

fn demo_config() -> CharacterConfiguration {
    CharacterConfiguration {
        sprite_size: 100,
        idle: FighterAnimation::new(5, 4, 150, 0, AnimationMode::Repeated),
        walking: FighterAnimation::new(0, 6, 150, 300, AnimationMode::Repeated),
        crouch: FighterAnimation::new(20, 1, 1000, 0, AnimationMode::Repeated),
        endcrouch: FighterAnimation::new(21, 2, 100, 0, AnimationMode::OneShot),
        highkick: FighterAnimation::new(24, 9, 100, 0, AnimationMode::OneShot),
        leftpunch: FighterAnimation::new(9, 3, 150, 0, AnimationMode::OneShot),
        rightpunch: FighterAnimation::new(12, 3, 150, 0, AnimationMode::OneShot),
    }
}

fn demo_fighter() -> Fighter {
    let cfg = demo_config();
    assert!(cfg.is_wf());
    Fighter::new("maurice".to_string(), cfg, 120_000, 150_000, true)
}

#[test]
fn spawns_idle_facing_right() {
    let f = demo_fighter();
    assert_eq!(f.current_state, State::Idle);
    assert_eq!(f.current_direction, Direction::Right);
    assert_eq!(f.get_name(), "maurice");
    let s = f.get_speed();
    assert_eq!((s.x, s.y), (0, 0));
}

#[test]
fn first_tick_after_spawn_shows_idle_frame_zero() {
    // reset-then-advance, at machine level: the spawn primes the
    // sequencer, and the first render tick shows frame 0 of idle
    let mut f = demo_fighter();
    let out = f.on_frame_update(987_654);
    assert_eq!(out.frame, 0);
    assert_eq!(out.sheet_index, 5);
    assert!(!out.mirror);
    assert_eq!((out.x, out.y), (120_000, 150_000));
}

#[test]
fn scenario_b_highkick_from_move_returns_to_idle() {
    // enter Move, attack with a high kick, play out the 9 one-shot
    // frames, and watch the machine fall back to Idle on the next tick
    let mut f = demo_fighter();
    assert_eq!(f.process_event(KeyEvent::Pressed(Key::Right)), ResultEvent::Solo);
    assert_eq!(f.current_state, State::Move);
    assert_eq!(f.process_event(KeyEvent::Pressed(Key::A)), ResultEvent::Solo);
    assert_eq!(f.current_state, State::HighKick);

    let out = f.on_frame_update(0); // reset + baseline tick
    assert_eq!(out.frame, 0);
    assert_eq!(out.sheet_index, 24);
    let mut now = 0u64;
    for expected in 1..=8u32 {
        now += 100;
        let out = f.on_frame_update(now);
        assert_eq!(out.frame, expected);
        assert_eq!(f.current_state, State::HighKick);
    }
    // frame holds at 8; the completing tick flags the return to Idle
    now += 100;
    let out = f.on_frame_update(now);
    assert_eq!(out.frame, 8);
    assert_eq!(f.current_state, State::Idle);
    // the next tick starts the idle animation from frame 0
    let out = f.on_frame_update(now);
    assert_eq!(out.frame, 0);
    assert_eq!(out.sheet_index, 5);
}

#[test]
fn scenario_c_crouch_interrupts_endcrouch() {
    let mut f = demo_fighter();
    f.process_event(KeyEvent::Pressed(Key::Down));
    assert_eq!(f.current_state, State::Crouch);
    f.on_frame_update(0);
    f.process_event(KeyEvent::Released(Key::Down));
    assert_eq!(f.current_state, State::EndCrouch);
    let out = f.on_frame_update(10); // end-crouch animation begins
    assert_eq!(out.sheet_index, 21);
    // a new crouch press lands before the one-shot completes
    f.process_event(KeyEvent::Pressed(Key::Down));
    assert_eq!(f.current_state, State::Crouch);
    // the partial stand-up animation is discarded: next tick resets
    let out = f.on_frame_update(20);
    assert_eq!(out.frame, 0);
    assert_eq!(out.sheet_index, 20);
}

#[test]
fn scenario_d_escape_returns_menu_without_mutation() {
    let mut f = demo_fighter();
    f.process_event(KeyEvent::Pressed(Key::Left));
    f.on_frame_update(0);
    let state_before = f.current_state;
    let dir_before = f.current_direction;
    let pos_before = (f.nav.position.x, f.nav.position.y);
    let step_before = f.anim.step;
    assert_eq!(f.process_event(KeyEvent::Pressed(Key::Escape)), ResultEvent::Menu);
    assert_eq!(f.current_state, state_before);
    assert_eq!(f.current_direction, dir_before);
    assert_eq!((f.nav.position.x, f.nav.position.y), pos_before);
    assert_eq!(f.anim.step, step_before);
}

#[test]
fn direction_persists_across_state_changes() {
    // P-law on concrete values: turning left, then crouching and
    // attacking (no direction-changing events) keeps the left facing
    let mut f = demo_fighter();
    f.process_event(KeyEvent::Pressed(Key::Left));
    assert_eq!(f.current_direction, Direction::Left);
    f.process_event(KeyEvent::Released(Key::Left));
    assert_eq!(f.current_state, State::Idle);
    assert_eq!(f.current_direction, Direction::Left);
    f.process_event(KeyEvent::Pressed(Key::Down));
    assert_eq!(f.current_state, State::Crouch);
    assert_eq!(f.current_direction, Direction::Left);
    f.process_event(KeyEvent::Released(Key::Down));
    f.process_event(KeyEvent::Pressed(Key::B));
    assert_eq!(f.current_direction, Direction::Left);
}

#[test]
fn state_set_stays_closed_under_key_mashing() {
    // P-law on concrete values: a long arbitrary event sequence never
    // leaves the closed state set (and never reaches the reserved Ko)
    let keys = [
        Key::A,
        Key::B,
        Key::C,
        Key::Left,
        Key::Right,
        Key::Down,
        Key::Up,
        Key::Enter,
        Key::Other,
    ];
    let mut f = demo_fighter();
    let mut now = 0u64;
    for round in 0..200usize {
        let k = keys[round % keys.len()];
        if round % 3 == 0 {
            f.process_event(KeyEvent::Released(k));
        } else {
            f.process_event(KeyEvent::Pressed(k));
        }
        now += 37;
        f.on_frame_update(now);
        let s = f.current_state;
        assert!(matches!(
            s,
            State::Idle
                | State::Move
                | State::Crouch
                | State::EndCrouch
                | State::HighKick
                | State::LeftPunch
                | State::RightPunch
        ));
    }
}

#[test]
fn attack_cannot_cancel_into_another_attack() {
    let mut f = demo_fighter();
    f.process_event(KeyEvent::Pressed(Key::B));
    assert_eq!(f.current_state, State::LeftPunch);
    f.process_event(KeyEvent::Pressed(Key::A));
    assert_eq!(f.current_state, State::LeftPunch);
    f.process_event(KeyEvent::Pressed(Key::C));
    assert_eq!(f.current_state, State::LeftPunch);
}

#[test]
fn walking_moves_and_mirrors_by_direction() {
    let mut f = demo_fighter();
    f.process_event(KeyEvent::Pressed(Key::Left));
    let out = f.on_frame_update(0);
    assert!(out.mirror);
    assert_eq!(out.x, 120_000 - 300);
    f.process_event(KeyEvent::Pressed(Key::Right));
    let out = f.on_frame_update(50);
    assert!(!out.mirror);
    assert_eq!(out.x, 120_000);
}

#[test]
fn direction_flip_does_not_reset_animation() {
    // an in-place turn continues the walking animation mid-sequence
    let mut f = demo_fighter();
    f.process_event(KeyEvent::Pressed(Key::Right));
    f.on_frame_update(0);
    f.on_frame_update(150);
    f.on_frame_update(300);
    assert_eq!(f.anim.step, 2);
    f.process_event(KeyEvent::Pressed(Key::Left)); // still Move, now facing left
    assert_eq!(f.current_state, State::Move);
    let out = f.on_frame_update(450);
    assert_eq!(out.frame, 3);
    assert!(out.mirror);
}

#[test]
fn state_entry_resets_exactly_once() {
    let mut f = demo_fighter();
    f.process_event(KeyEvent::Pressed(Key::Right));
    assert!(f.is_new_state);
    f.on_frame_update(1_000);
    assert!(!f.is_new_state);
    // later ticks advance rather than reset
    f.on_frame_update(1_150);
    assert_eq!(f.anim.step, 1);
}

#[test]
fn unmapped_key_changes_nothing() {
    let mut f = demo_fighter();
    f.process_event(KeyEvent::Pressed(Key::Right));
    let state_before = f.current_state;
    let input_before = f.input_state;
    assert_eq!(f.process_event(KeyEvent::Pressed(Key::Other)), ResultEvent::Solo);
    assert_eq!(f.current_state, state_before);
    assert_eq!(f.input_state, input_before);
}

#[test]
fn bad_configuration_is_rejected() {
    let mut cfg = demo_config();
    cfg.crouch = FighterAnimation {
        sprite_index: 20,
        nb_frames: 0, // no frames: ill-formed
        delay: 1000,
        speed: 0,
        mode: AnimationMode::Repeated,
    };
    assert!(!cfg.is_wf());
    let mut cfg2 = demo_config();
    cfg2.highkick.mode = AnimationMode::Repeated; // an attack must be one-shot
    assert!(!cfg2.is_wf());
    assert!(demo_config().is_wf());
}

#[test]
fn action_lookup_serves_each_state() {
    let cfg = demo_config();
    assert_eq!(cfg.get_action_configuration(State::Idle).sprite_index, 5);
    assert_eq!(cfg.get_action_configuration(State::Move).sprite_index, 0);
    assert_eq!(cfg.get_action_configuration(State::Crouch).sprite_index, 20);
    assert_eq!(cfg.get_action_configuration(State::EndCrouch).sprite_index, 21);
    assert_eq!(cfg.get_action_configuration(State::HighKick).sprite_index, 24);
    assert_eq!(cfg.get_action_configuration(State::LeftPunch).sprite_index, 9);
    assert_eq!(cfg.get_action_configuration(State::RightPunch).sprite_index, 12);
    // the reserved state falls back to the idle descriptor
    assert_eq!(cfg.get_action_configuration(State::Ko).sprite_index, 5);
}
