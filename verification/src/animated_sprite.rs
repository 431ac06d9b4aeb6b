//! Frame-timed animation sequencer and sprite navigation.
//!
//! [`AnimationInfo`] owns a frame counter and a millisecond baseline and
//! advances the counter once per elapsed delay interval; on reaching the
//! terminal frame it either wraps to frame 0 (`Repeated`) or freezes and
//! reports completion (`OneShot`).  [`NavInfo`] applies the per-tick
//! velocity to the sprite position.  Wall-clock time enters only as a
//! plain `u64` millisecond value handed to [`AnimationInfo::next_frame`].

use vstd::prelude::*;

verus! {

/// Completion policy of one animation sequence: play once and hold the
/// terminal frame, or loop back to frame 0 indefinitely.
#[derive(Copy, Clone, Debug, PartialEq, Eq, Structural)]
pub enum AnimationMode {
    OneShot,
    Repeated,
}

/// Mutable state of the animation sequencer.
///
/// `step` is the current frame index, always within
/// `[0, nb_frames - 1]`.  `last_ms` is the clock reading at the last
/// frame change (the timer baseline); `started` records whether the
/// baseline has been established since the last [`reset`](Self::reset).
#[derive(Copy, Clone, Debug, PartialEq, Eq, Structural)]
pub struct AnimationInfo {
    pub mode: AnimationMode,
    pub delay: u32,
    pub nb_frames: u32,
    pub step: u32,
    pub started: bool,
    pub last_ms: u64,
}

/// Milliseconds elapsed between the baseline `last` and the reading
/// `now`; a reading that went backwards counts as no time elapsed.
pub open spec fn elapsed_ms(last: u64, now: u64) -> int {
    if now >= last {
        now - last
    } else {
        0
    }
}

/// Whether an advance at `now` crosses the delay threshold.
pub open spec fn spec_is_tick(a: AnimationInfo, now: u64) -> bool {
    elapsed_ms(a.last_ms, now) >= a.delay
}

/// Whether the sequencer stands on its terminal frame.
pub open spec fn spec_is_end_sequence(a: AnimationInfo) -> bool {
    a.step + 1 == a.nb_frames
}

/// The sequencer state after one advance at clock reading `now`.
pub open spec fn spec_next(a: AnimationInfo, now: u64) -> AnimationInfo {
    if !a.started {
        AnimationInfo { started: true, last_ms: now, ..a }
    } else if spec_is_tick(a, now) {
        if spec_is_end_sequence(a) {
            if a.mode is Repeated {
                AnimationInfo { step: 0, last_ms: now, ..a }
            } else {
                a
            }
        } else {
            AnimationInfo { step: (a.step + 1) as u32, last_ms: now, ..a }
        }
    } else {
        a
    }
}

/// Whether an advance at `now` reports completion: only a started
/// `OneShot` sequence standing on its terminal frame does, on every
/// advance whose elapsed time crosses the delay (the signal is
/// level-triggered; the consumer acts on it by leaving the state).
pub open spec fn spec_completed(a: AnimationInfo, now: u64) -> bool {
    &&& a.started
    &&& spec_is_tick(a, now)
    &&& spec_is_end_sequence(a)
    &&& a.mode is OneShot
}

impl AnimationInfo {
    /// A sequencer is well formed when it has at least one frame and its
    /// current frame is within the budget.
    pub open spec fn wf(self) -> bool {
        self.nb_frames >= 1 && self.step < self.nb_frames
    }

    /// The state [`reset`](Self::reset) leaves behind: frame 0, timer
    /// cleared, not yet started.
    pub open spec fn spec_reset(self, delay: u32, nb_frames: u32, mode: AnimationMode) -> AnimationInfo {
        AnimationInfo { mode, delay, nb_frames, step: 0, started: false, ..self }
    }

    /// Reinitialize for a new sequence: frame counter to 0, not yet
    /// started, so that the next advance establishes the timer baseline.
    pub fn reset(&mut self, delay: u32, nb_frames: u32, mode: AnimationMode)
        requires
            nb_frames >= 1,
        ensures
            *final(self) == old(self).spec_reset(delay, nb_frames, mode),
            final(self).wf(),
    {
        self.started = false;
        self.delay = delay;
        self.nb_frames = nb_frames;
        self.mode = mode;
        self.step = 0;
    }

    /// Advance the sequencer once for the render tick at clock reading
    /// `now`, and report whether a `OneShot` sequence has completed.
    ///
    /// The first call after a reset establishes the timer baseline and
    /// shows frame 0 without consuming time.  Afterwards, each call
    /// whose elapsed time since the last frame change reaches the delay
    /// moves one frame forward; at the terminal frame a `Repeated`
    /// sequence wraps to frame 0 and a `OneShot` sequence holds and
    /// returns `true`.
    pub fn next_frame(&mut self, now: u64) -> (is_end_animation: bool)
        requires
            old(self).wf(),
        ensures
            *final(self) == spec_next(*old(self), now),
            is_end_animation == spec_completed(*old(self), now),
            final(self).wf(),
            final(self).step < final(self).nb_frames,
    {
        let mut is_end_animation = false;
        if !self.started {
            self.started = true;
            self.last_ms = now;
        } else if self.is_animation_tick(now) {
            if self.is_end_sequence() {
                match self.mode {
                    AnimationMode::Repeated => {
                        self.step = 0;
                        self.last_ms = now;
                    },
                    AnimationMode::OneShot => {
                        is_end_animation = true;
                    },
                }
            } else {
                self.step = self.step + 1;
                self.last_ms = now;
            }
        }
        is_end_animation
    }

    /// Whether the time elapsed since the last frame change has reached
    /// the frame delay.
    fn is_animation_tick(&self, now: u64) -> (r: bool)
        ensures
            r == spec_is_tick(*self, now),
    {
        let elapsed: u64 = if now >= self.last_ms {
            now - self.last_ms
        } else {
            0
        };
        elapsed >= self.delay as u64
    }

    /// Whether the current frame is the terminal frame.
    fn is_end_sequence(&self) -> (r: bool)
        requires
            self.wf(),
        ensures
            r == spec_is_end_sequence(*self),
    {
        self.step >= self.nb_frames - 1
    }
}

/// Integer 2D vector, in milli-pixels, standing in for the renderer's
/// floating-point coordinates.
#[derive(Copy, Clone, Debug, PartialEq, Eq, Structural)]
pub struct Vec2 {
    pub x: i64,
    pub y: i64,
}

/// Position and per-tick velocity of a sprite, both in milli-pixels.
#[derive(Copy, Clone, Debug, PartialEq, Eq, Structural)]
pub struct NavInfo {
    pub position: Vec2,
    pub speed: Vec2,
}

/// `a + b` clamped to the `i64` range.
pub open spec fn sat_add(a: int, b: int) -> int {
    if a + b > i64::MAX {
        i64::MAX as int
    } else if a + b < i64::MIN {
        i64::MIN as int
    } else {
        a + b
    }
}

/// Saturating `i64` addition, the Euler-step primitive of the
/// navigation integrator.
pub fn sat_add_i64(a: i64, b: i64) -> (r: i64)
    ensures
        r == sat_add(a as int, b as int),
{
    if b >= 0 {
        if a <= i64::MAX - b {
            a + b
        } else {
            i64::MAX
        }
    } else {
        if a >= i64::MIN - b {
            a + b
        } else {
            i64::MIN
        }
    }
}

impl NavInfo {
    /// The navigation state after one Euler step.
    pub open spec fn spec_step(self) -> NavInfo {
        NavInfo {
            position: Vec2 {
                x: sat_add(self.position.x as int, self.speed.x as int) as i64,
                y: sat_add(self.position.y as int, self.speed.y as int) as i64,
            },
            ..self
        }
    }

    /// One Euler step: add the per-tick velocity to the position.
    pub fn update_position(&mut self)
        ensures
            *final(self) == old(self).spec_step(),
    {
        self.position.x = sat_add_i64(self.position.x, self.speed.x);
        self.position.y = sat_add_i64(self.position.y, self.speed.y);
    }
}

/// The sequencer state after advancing once per entry of `ts`, in order.
pub open spec fn spec_advance_seq(a: AnimationInfo, ts: Seq<u64>) -> AnimationInfo
    decreases ts.len(),
{
    if ts.len() == 0 {
        a
    } else {
        spec_advance_seq(spec_next(a, ts[0]), ts.skip(1))
    }
}

/// Consecutive clock readings `ts[i]` and `ts[i + 1]` are at least one
/// frame delay apart.
pub open spec fn spec_gap_ok(ts: Seq<u64>, delay: u32, i: int) -> bool {
    ts[i + 1] >= ts[i] + delay
}

/// The clock readings in `ts` are each at least one frame delay after
/// the previous one, starting from the baseline `last0`.
pub open spec fn spec_spaced(last0: u64, delay: u32, ts: Seq<u64>) -> bool {
    &&& ts.len() > 0 ==> ts[0] >= last0 + delay
    &&& forall|i: int| 0 <= i < ts.len() - 1 ==> #[trigger] spec_gap_ok(ts, delay, i)
}

/// A started repeating sequence advanced at readings spaced by at least
/// its delay moves one frame per advance, wrapping the terminal frame
/// to 0, and never raises a completion signal.  With `a.step == 0` and
/// `ts.len() == a.nb_frames` this is the round trip back to frame 0.
pub proof fn lemma_repeated_cycle(a: AnimationInfo, ts: Seq<u64>)
    requires
        a.wf(),
        a.started,
        a.mode is Repeated,
        spec_spaced(a.last_ms, a.delay, ts),
        a.step + ts.len() <= a.nb_frames,
    ensures
        spec_advance_seq(a, ts).step == if a.step + ts.len() == a.nb_frames {
            0int
        } else {
            a.step + ts.len()
        },
        spec_advance_seq(a, ts).wf(),
        spec_advance_seq(a, ts).started,
        spec_advance_seq(a, ts).mode == a.mode,
        spec_advance_seq(a, ts).delay == a.delay,
        spec_advance_seq(a, ts).nb_frames == a.nb_frames,
        spec_advance_seq(a, ts).last_ms == if ts.len() == 0 {
            a.last_ms
        } else {
            ts.last()
        },
        forall|i: int| 0 <= i < ts.len() ==> !spec_completed(
            #[trigger] spec_advance_seq(a, ts.take(i)),
            ts[i],
        ),
    decreases ts.len(),
{
    if ts.len() > 0 {
        let a1 = spec_next(a, ts[0]);
        assert(spec_is_tick(a, ts[0]));
        assert(spec_spaced(a1.last_ms, a1.delay, ts.skip(1))) by {
            assert forall|i: int| 0 <= i < ts.skip(1).len() - 1 implies #[trigger] spec_gap_ok(
                ts.skip(1),
                a1.delay,
                i,
            ) by {
                assert(spec_gap_ok(ts, a.delay, i + 1));
            }
            if ts.skip(1).len() > 0 {
                assert(spec_gap_ok(ts, a.delay, 0));
            }
        }
        lemma_repeated_cycle(a1, ts.skip(1));
        assert(ts.len() > 1 ==> ts.skip(1).last() == ts.last());
        assert forall|i: int| 0 <= i < ts.len() implies !spec_completed(
            #[trigger] spec_advance_seq(a, ts.take(i)),
            ts[i],
        ) by {
            if i == 0 {
                assert(ts.take(0).len() == 0);
                assert(spec_advance_seq(a, ts.take(0)) == a);
            } else {
                assert(ts.take(i).skip(1) =~= ts.skip(1).take(i - 1));
                assert(ts.take(i)[0] == ts[0]);
                assert(spec_advance_seq(a, ts.take(i)) == spec_advance_seq(
                    a1,
                    ts.skip(1).take(i - 1),
                ));
                assert(!spec_completed(spec_advance_seq(a1, ts.skip(1).take(i - 1)), ts.skip(1)[i - 1]));
                assert(ts.skip(1)[i - 1] == ts[i]);
            }
        }
    }
}

/// A started repeating sequence standing at frame 0, advanced once
/// per frame of its budget with at least the delay between advances,
/// returns to frame 0, and no advance along the way raises a
/// completion signal.
pub proof fn lemma_repeated_returns_to_zero(a: AnimationInfo, ts: Seq<u64>)
    requires
        a.wf(),
        a.started,
        a.mode is Repeated,
        a.step == 0,
        ts.len() == a.nb_frames,
        spec_spaced(a.last_ms, a.delay, ts),
    ensures
        spec_advance_seq(a, ts).step == 0,
        forall|i: int| 0 <= i < ts.len() ==> !spec_completed(
            #[trigger] spec_advance_seq(a, ts.take(i)),
            ts[i],
        ),
{
    lemma_repeated_cycle(a, ts);
}

/// A `OneShot` sequence standing on its terminal frame never moves
/// again, whatever advances follow: the frame index stays at
/// `nb_frames - 1` and in particular never exceeds it.  Meanwhile the
/// completion signal is observable on every advance that crosses the
/// delay.
pub proof fn lemma_oneshot_holds_terminal(a: AnimationInfo, ts: Seq<u64>)
    requires
        a.wf(),
        a.started,
        a.mode is OneShot,
        spec_is_end_sequence(a),
    ensures
        spec_advance_seq(a, ts) == a,
        forall|now: u64| spec_is_tick(a, now) ==> #[trigger] spec_completed(a, now),
    decreases ts.len(),
{
    if ts.len() > 0 {
        assert(spec_next(a, ts[0]) == a);
        lemma_oneshot_holds_terminal(a, ts.skip(1));
    }
}

/// A reset followed by one advance always shows frame 0 and reports no
/// completion, whatever the descriptor and the clock reading.
pub proof fn lemma_reset_then_advance(
    a: AnimationInfo,
    delay: u32,
    nb_frames: u32,
    mode: AnimationMode,
    now: u64,
)
    requires
        nb_frames >= 1,
    ensures
        spec_next(a.spec_reset(delay, nb_frames, mode), now).step == 0,
        !spec_completed(a.spec_reset(delay, nb_frames, mode), now),
{
}

/// Left edge, in pixels, of the sprite-sheet rectangle showing frame
/// `step` of a sequence that starts at sheet index `sprite_index` on a
/// sheet of square cells of side `size`.
pub fn sprite_rect_left(sprite_index: u32, step: u32, size: u32) -> (r: u64)
    requires
        (sprite_index + step) * size <= u64::MAX,
    ensures
        r == (sprite_index + step) * size,
{
    (sprite_index as u64 + step as u64) * size as u64
}

} // verus!
