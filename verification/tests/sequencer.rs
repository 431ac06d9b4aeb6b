// Tests of the animation sequencer: the timed frame walk, repeat and
// one-shot completion policies, reset behavior and navigation.

use mauricefight::animated_sprite::AnimationInfo;
use mauricefight::animated_sprite::AnimationMode;
use mauricefight::animated_sprite::NavInfo;
use mauricefight::animated_sprite::Vec2;
use mauricefight::animated_sprite::sat_add_i64;
use mauricefight::animated_sprite::sprite_rect_left;

fn fresh(mode: AnimationMode, delay: u32, nb_frames: u32) -> AnimationInfo {
    let mut a = AnimationInfo {
        mode: AnimationMode::Repeated,
        delay: 0,
        nb_frames: 1,
        step: 0,
        started: false,
        last_ms: 0,
    };
    a.reset(delay, nb_frames, mode);
    a
}

#[test]
fn scenario_a_repeated_wraps_to_zero() {
    // descriptor {start=0, count=4, delay=150ms, repeat=Repeated}
    let mut a = fresh(AnimationMode::Repeated, 150, 4);
    assert!(!a.next_frame(0)); // establishes the baseline
    assert_eq!(a.step, 0);
    assert!(a.started);
    assert!(!a.next_frame(150));
    assert_eq!(a.step, 1);
    assert!(!a.next_frame(300));
    assert_eq!(a.step, 2);
    assert!(!a.next_frame(450));
    assert_eq!(a.step, 3); // terminal frame
    assert!(!a.next_frame(600)); // wraps, no completion signal
    assert_eq!(a.step, 0);
}

#[test]
fn repeated_full_cycle_returns_to_zero() {
    // the P-law on concrete values: frame_count advances spaced by the
    // delay bring the counter back to 0 with no completion reported
    let mut a = fresh(AnimationMode::Repeated, 100, 6);
    a.next_frame(0);
    let mut now = 0u64;
    for _ in 0..6 {
        now += 100;
        assert!(!a.next_frame(now));
    }
    assert_eq!(a.step, 0);
}

#[test]
fn scenario_b_oneshot_holds_and_reports() {
    // descriptor {start=24, count=9, delay=100ms, repeat=OneShot}
    let mut a = fresh(AnimationMode::OneShot, 100, 9);
    a.next_frame(0);
    let mut now = 0u64;
    for expected in 1..=8u32 {
        now += 100;
        assert!(!a.next_frame(now));
        assert_eq!(a.step, expected);
    }
    // terminal frame reached; the next spaced advance reports completion
    now += 100;
    assert!(a.next_frame(now));
    assert_eq!(a.step, 8);
    // and keeps reporting it, frame never exceeding count - 1
    for _ in 0..5 {
        now += 100;
        assert!(a.next_frame(now));
        assert_eq!(a.step, 8);
    }
    assert_eq!(sprite_rect_left(24, a.step, 100), 3200);
}

#[test]
fn reset_then_advance_shows_frame_zero() {
    // idempotence law on concrete values: reset; one advance -> frame 0
    let mut a = fresh(AnimationMode::OneShot, 100, 9);
    a.next_frame(0);
    let mut now = 0u64;
    for _ in 0..4 {
        now += 100;
        a.next_frame(now);
    }
    assert_eq!(a.step, 4);
    a.reset(150, 4, AnimationMode::Repeated);
    assert!(!a.next_frame(now + 1000));
    assert_eq!(a.step, 0);
    a.reset(0, 1, AnimationMode::OneShot);
    assert!(!a.next_frame(12345));
    assert_eq!(a.step, 0);
}

#[test]
fn advance_before_delay_does_not_move() {
    let mut a = fresh(AnimationMode::Repeated, 150, 4);
    a.next_frame(1000);
    assert!(!a.next_frame(1149));
    assert_eq!(a.step, 0);
    assert!(!a.next_frame(1150));
    assert_eq!(a.step, 1);
}

#[test]
fn zero_delay_advances_every_tick() {
    let mut a = fresh(AnimationMode::Repeated, 0, 3);
    a.next_frame(7);
    assert!(!a.next_frame(7));
    assert_eq!(a.step, 1);
    assert!(!a.next_frame(7));
    assert_eq!(a.step, 2);
    assert!(!a.next_frame(8));
    assert_eq!(a.step, 0);
}

#[test]
fn single_frame_oneshot_completes_at_once() {
    let mut a = fresh(AnimationMode::OneShot, 100, 1);
    assert!(!a.next_frame(0));
    assert!(a.next_frame(100));
    assert_eq!(a.step, 0);
}

#[test]
fn clock_going_backwards_counts_as_no_time() {
    let mut a = fresh(AnimationMode::Repeated, 100, 4);
    a.next_frame(1000);
    assert!(!a.next_frame(500));
    assert_eq!(a.step, 0);
    assert!(!a.next_frame(1100));
    assert_eq!(a.step, 1);
}

#[test]
fn navigation_euler_step() {
    let mut nav = NavInfo {
        position: Vec2 { x: 120_000, y: 150_000 },
        speed: Vec2 { x: 300, y: -50 },
    };
    nav.update_position();
    assert_eq!(nav.position, Vec2 { x: 120_300, y: 149_950 });
    nav.speed = Vec2 { x: -600, y: 0 };
    nav.update_position();
    assert_eq!(nav.position, Vec2 { x: 119_700, y: 149_950 });
}

#[test]
fn navigation_saturates_at_the_rim() {
    assert_eq!(sat_add_i64(i64::MAX - 1, 5), i64::MAX);
    assert_eq!(sat_add_i64(i64::MIN + 1, -5), i64::MIN);
    assert_eq!(sat_add_i64(40, 2), 42);
    assert_eq!(sat_add_i64(40, -2), 38);
}

#[test]
fn sheet_rectangle_left_edge() {
    assert_eq!(sprite_rect_left(5, 2, 100), 700);
    assert_eq!(sprite_rect_left(0, 0, 100), 0);
}
