//! The per-glyph animation engine: a sequence of colored steps, each held for
//! a duration and blended into the next step's color by a timed, optionally
//! trigger-gated transition.
//!
//! Blend progress is a fixed-point fraction of [`PROGRESS_ONE`]: 0 stands for
//! the start of a transition and [`PROGRESS_ONE`] for its end.

use vstd::prelude::*;

use crate::color::Color;
use crate::color::white_spec;

verus! {

/// The fixed-point unit: a progress value of `PROGRESS_ONE` means "fully done".
pub const PROGRESS_ONE: u32 = 1000;

/// Adds two millisecond counts, stopping at the top of the range instead of
/// wrapping.
pub open spec fn sat_add(a: u64, b: u64) -> u64 {
    if a + b > u64::MAX {
        u64::MAX
    } else {
        (a + b) as u64
    }
}

/// Exec counterpart of [`sat_add`].
pub fn sat_add_ms(a: u64, b: u64) -> (r: u64)
    ensures
        r == sat_add(a, b),
{
    if a <= u64::MAX - b {
        a + b
    } else {
        u64::MAX
    }
}

/// How a transition's progress is reshaped over time.
#[derive(Clone, Copy, PartialEq, Eq, Structural, Debug)]
pub enum Easing {
    EaseIn,
    EaseOut,
    Linear,
}

/// Quadratic ease-in over fixed-point progress: slow start, fast finish.
pub open spec fn ease_in_at(t: int) -> int {
    (t * t) / (PROGRESS_ONE as int)
}

/// Quadratic ease-out over fixed-point progress: fast start, slow finish.
pub open spec fn ease_out_at(t: int) -> int {
    PROGRESS_ONE - ((PROGRESS_ONE - t) * (PROGRESS_ONE - t)) / (PROGRESS_ONE as int)
}

/// The eased value of progress `t` under easing `e`.
pub open spec fn eased_at(e: Easing, t: int) -> int {
    match e {
        Easing::EaseIn => ease_in_at(t),
        Easing::EaseOut => ease_out_at(t),
        Easing::Linear => t,
    }
}

pub fn ease_in(t: u32) -> (r: u32)
    requires
        t <= PROGRESS_ONE,
    ensures
        r == ease_in_at(t as int),
        r <= PROGRESS_ONE,
{
    proof {
        assert(t * t <= 1000 * 1000) by (nonlinear_arith)
            requires
                t <= 1000,
        ;
    }
    (t * t) / PROGRESS_ONE
}

pub fn ease_out(t: u32) -> (r: u32)
    requires
        t <= PROGRESS_ONE,
    ensures
        r == ease_out_at(t as int),
        r <= PROGRESS_ONE,
{
    let u = PROGRESS_ONE - t;
    proof {
        assert(u * u <= 1000 * 1000) by (nonlinear_arith)
            requires
                u <= 1000,
        ;
    }
    PROGRESS_ONE - (u * u) / PROGRESS_ONE
}

/// Both easings fix the endpoints of the progress range, and ease-out is the
/// reflection of ease-in: `ease_out(t) = 1 - ease_in(1 - t)` in fixed point.
pub proof fn lemma_easing_endpoints_and_reflection()
    ensures
        ease_in_at(0) == 0,
        ease_in_at(PROGRESS_ONE as int) == PROGRESS_ONE,
        ease_out_at(0) == 0,
        ease_out_at(PROGRESS_ONE as int) == PROGRESS_ONE,
        forall|t: int|
            0 <= t <= PROGRESS_ONE ==> ease_out_at(t) == PROGRESS_ONE - ease_in_at(
                PROGRESS_ONE - t,
            ),
{
}

/// One channel of a linear blend from `a` to `b` at fixed-point factor `f`.
pub open spec fn blend_channel_at(a: int, b: int, f: int) -> int {
    (a * (PROGRESS_ONE - f) + b * f) / (PROGRESS_ONE as int)
}

/// The blend of two colors at fixed-point factor `f`. The alpha channel is
/// not blended: a blended color is always fully opaque.
pub open spec fn blended(start: Color, end: Color, f: int) -> Color {
    Color {
        r: blend_channel_at(start.r as int, end.r as int, f) as u8,
        g: blend_channel_at(start.g as int, end.g as int, f) as u8,
        b: blend_channel_at(start.b as int, end.b as int, f) as u8,
        a: 255,
    }
}

proof fn lemma_blend_channel_bounds(a: int, b: int, f: int)
    requires
        0 <= a <= 255,
        0 <= b <= 255,
        0 <= f <= 1000,
    ensures
        0 <= blend_channel_at(a, b, f) <= 255,
{
    assert(0 <= (a * (1000 - f) + b * f) / 1000 <= 255) by (nonlinear_arith)
        requires
            0 <= a <= 255 && 0 <= b <= 255 && 0 <= f <= 1000,
    ;
}

fn blend_channel(a: u8, b: u8, f: u32) -> (r: u8)
    requires
        f <= PROGRESS_ONE,
    ensures
        r == blend_channel_at(a as int, b as int, f as int),
{
    proof {
        lemma_blend_channel_bounds(a as int, b as int, f as int);
        assert((a as int) * ((1000 - f) as int) + (b as int) * (f as int) <= 255 * 1000)
            by (nonlinear_arith)
            requires
                a <= 255 && b <= 255 && f <= 1000,
        ;
    }
    ((a as u32 * (PROGRESS_ONE - f) + b as u32 * f) / PROGRESS_ONE) as u8
}

/// Blends `start` toward `end` by the fixed-point `factor`, channel by
/// channel. Alpha is deliberately not blended: the result is always fully
/// opaque, so transparency can only come from a step's own color.
pub fn interpolate(start: Color, end: Color, factor: u32) -> (c: Color)
    requires
        factor <= PROGRESS_ONE,
    ensures
        c == blended(start, end, factor as int),
{
    Color {
        r: blend_channel(start.r, end.r, factor),
        g: blend_channel(start.g, end.g, factor),
        b: blend_channel(start.b, end.b, factor),
        a: 255,
    }
}

/// Blending between equal endpoints is the identity on the color channels,
/// factor 0 yields the start channels, the full factor yields the end
/// channels, and the result's alpha is always 255.
pub proof fn lemma_interpolate_fixed_points(start: Color, end: Color, f: int)
    requires
        0 <= f <= PROGRESS_ONE,
    ensures
        blended(start, start, f) == (Color { a: 255, ..start }),
        blended(start, end, 0) == (Color { a: 255, ..start }),
        blended(start, end, PROGRESS_ONE as int) == (Color { a: 255, ..end }),
        blended(start, end, f).a == 255,
{
    assert forall|a: int| 0 <= a <= 255 implies blend_channel_at(a, a, f) == a by {
        assert((a * (1000 - f) + a * f) / 1000 == a) by (nonlinear_arith)
            requires
                0 <= a <= 255 && 0 <= f <= 1000,
        ;
    }
    assert forall|a: int, b: int| 0 <= a <= 255 && 0 <= b <= 255 implies blend_channel_at(a, b, 0)
        == a && blend_channel_at(a, b, 1000) == b by {
        assert((a * 1000 + b * 0) / 1000 == a && (a * 0 + b * 1000) / 1000 == b)
            by (nonlinear_arith)
            requires
                0 <= a <= 255 && 0 <= b <= 255,
        ;
    }
}

/// How one step's color blends into the next step's color: over `duration_ms`
/// with `easing`, optionally gated on an external trigger.
#[derive(Clone, Copy, PartialEq, Eq, Structural, Debug)]
pub struct Transition {
    /// Length of the blend; zero means the blend completes instantly.
    pub duration_ms: u64,
    pub easing: Easing,
    /// When set, the blend is skipped until [`Animation::trigger_transition`]
    /// arms it.
    pub trigger_required: bool,
    pub triggered: bool,
}

/// A transition that waits for a trigger it has not yet received.
pub open spec fn is_gated(t: Transition) -> bool {
    t.trigger_required && !t.triggered
}

impl Transition {
    pub fn new(duration_ms: u64, easing: Easing, trigger_required: bool) -> (t: Transition)
        ensures
            t == (Transition { duration_ms, easing, trigger_required, triggered: false }),
    {
        Transition { duration_ms, easing, trigger_required, triggered: false }
    }

    /// Whether the blend may progress: either no trigger is required, or it
    /// has already fired.
    pub fn is_ready_to_progress(&self) -> (b: bool)
        ensures
            b == !is_gated(*self),
    {
        !self.trigger_required || self.triggered
    }
}

/// One entry of an animation: a color held for `duration_ms`, then blended
/// into the next step's color by `transition`. The last step's transition is
/// never consulted.
#[derive(Clone, Copy, PartialEq, Eq, Structural, Debug)]
pub struct AnimationStep {
    pub color: Color,
    pub duration_ms: u64,
    pub transition: Transition,
}

/// `s` with its transition's trigger armed.
pub open spec fn step_with_trigger(s: AnimationStep) -> AnimationStep {
    AnimationStep {
        transition: Transition { triggered: true, ..s.transition },
        ..s
    }
}

/// How long step `i` occupies the animation before the step index moves on:
/// its hold duration, plus its transition's duration when that transition
/// will run. The last step never moves on; a gated, untriggered transition is
/// skipped, so it adds nothing.
pub open spec fn step_total_ms(steps: Seq<AnimationStep>, i: int) -> u64
    recommends
        0 <= i < steps.len(),
{
    if i == steps.len() - 1 {
        steps[i].duration_ms
    } else if is_gated(steps[i].transition) {
        steps[i].duration_ms
    } else {
        sat_add(steps[i].duration_ms, steps[i].transition.duration_ms)
    }
}

/// Where the step index and step timer land after repeatedly advancing: while
/// the current step is not the last and its total duration has elapsed, the
/// index moves on and the timer resets.
pub open spec fn advance_from(steps: Seq<AnimationStep>, idx: int, elapsed: u64) -> (int, u64)
    decreases steps.len() - idx,
{
    if 0 <= idx && idx < steps.len() - 1 && elapsed >= step_total_ms(steps, idx) {
        advance_from(steps, idx + 1, 0)
    } else {
        (idx, elapsed)
    }
}

/// Fixed-point progress of a transition of length `dur`, `elapsed - hold`
/// milliseconds after its step began: clamped to the unit, and immediately
/// complete when the transition has no duration.
pub open spec fn progress_at(elapsed: u64, hold: u64, dur: u64) -> int
    recommends
        elapsed >= hold,
{
    if dur == 0 {
        PROGRESS_ONE as int
    } else if elapsed - hold >= dur {
        PROGRESS_ONE as int
    } else {
        ((elapsed - hold) * (PROGRESS_ONE as int)) / (dur as int)
    }
}

/// The color an animation shows on step `idx`, `elapsed` milliseconds into
/// the step: the step's own color within its hold duration, on the last step,
/// or while its transition awaits a trigger; otherwise the eased blend toward
/// the next step's color.
pub open spec fn color_at(steps: Seq<AnimationStep>, idx: int, elapsed: u64) -> Color
    recommends
        0 <= idx < steps.len(),
{
    let s = steps[idx];
    if elapsed < s.duration_ms {
        s.color
    } else if idx == steps.len() - 1 {
        s.color
    } else if is_gated(s.transition) {
        s.color
    } else {
        blended(
            s.color,
            steps[idx + 1].color,
            eased_at(s.transition.easing, progress_at(elapsed, s.duration_ms, s.transition.duration_ms)),
        )
    }
}

/// An ordered sequence of steps advanced by elapsed time. The steps are fixed
/// at construction but for the arming of triggers; the index only ever grows.
#[derive(Debug)]
pub struct Animation {
    /// The color computed by the latest update.
    pub current_color: Color,
    /// Milliseconds since the current step began.
    pub step_elapsed_ms: u64,
    pub steps: Vec<AnimationStep>,
    pub current_step_index: usize,
    /// Set once the last step's hold duration has elapsed; never reset.
    pub concluded: bool,
}

/// The exact effect of one [`Animation::update`] call: the step timer grows
/// by the delta, the color is recomputed from the pre-advance step, then the
/// index advances past every step whose total duration has elapsed, and the
/// animation concludes once the last step's hold has fully elapsed. An empty
/// animation merely concludes.
pub open spec fn stepped_from(pre: Animation, post: Animation, delta_ms: u64) -> bool {
    if pre.steps@.len() == 0 {
        &&& post.steps@ == pre.steps@
        &&& post.current_step_index == pre.current_step_index
        &&& post.step_elapsed_ms == pre.step_elapsed_ms
        &&& post.current_color == pre.current_color
        &&& post.concluded
    } else {
        let e1 = sat_add(pre.step_elapsed_ms, delta_ms);
        let adv = advance_from(pre.steps@, pre.current_step_index as int, e1);
        &&& post.steps@ == pre.steps@
        &&& post.current_color == color_at(pre.steps@, pre.current_step_index as int, e1)
        &&& post.current_step_index as int == adv.0
        &&& post.step_elapsed_ms == adv.1
        &&& post.concluded == (pre.concluded || (adv.0 == pre.steps@.len() - 1 && adv.1
            >= pre.steps@[adv.0].duration_ms))
    }
}

/// The exact effect of one [`Animation::trigger_transition`] call: when the
/// current step's transition is gated and untriggered, the trigger is armed
/// and the step timer is rewound to exactly the step's hold duration, so the
/// next update begins evaluating transition progress at once. Otherwise
/// nothing changes.
pub open spec fn triggered_from(pre: Animation, post: Animation) -> bool {
    let i = pre.current_step_index as int;
    if pre.steps@.len() != 0 && is_gated(pre.steps@[i].transition) {
        &&& post.steps@ == pre.steps@.update(i, step_with_trigger(pre.steps@[i]))
        &&& post.current_step_index == pre.current_step_index
        &&& post.step_elapsed_ms == pre.steps@[i].duration_ms
        &&& post.current_color == pre.current_color
        &&& post.concluded == pre.concluded
    } else {
        &&& post.steps@ == pre.steps@
        &&& post.current_step_index == pre.current_step_index
        &&& post.step_elapsed_ms == pre.step_elapsed_ms
        &&& post.current_color == pre.current_color
        &&& post.concluded == pre.concluded
    }
}

impl Animation {
    /// The step index stays within the sequence (and is zero when the
    /// sequence is empty).
    pub open spec fn wf(self) -> bool {
        if self.steps@.len() == 0 {
            self.current_step_index == 0
        } else {
            (self.current_step_index as int) < self.steps@.len()
        }
    }

    pub fn new(steps: Vec<AnimationStep>) -> (a: Animation)
        ensures
            a.wf(),
            a.steps@ == steps@,
            a.current_step_index == 0,
            a.step_elapsed_ms == 0,
            !a.concluded,
            a.current_color == white_spec(),
    {
        Animation {
            current_color: Color::white(),
            step_elapsed_ms: 0,
            steps,
            current_step_index: 0,
            concluded: false,
        }
    }

    fn is_last_step(&self) -> (b: bool)
        requires
            self.wf(),
            self.steps@.len() > 0,
        ensures
            b == (self.current_step_index as int == self.steps@.len() - 1),
    {
        self.current_step_index == self.steps.len() - 1
    }

    fn is_within_step_duration(&self) -> (b: bool)
        requires
            self.wf(),
            self.steps@.len() > 0,
        ensures
            b == (self.step_elapsed_ms < self.steps@[self.current_step_index as int].duration_ms),
    {
        self.step_elapsed_ms < self.steps[self.current_step_index].duration_ms
    }

    /// The total duration of the current step, per [`step_total_ms`].
    fn calculate_total_duration(&self) -> (t: u64)
        requires
            self.wf(),
            self.steps@.len() > 0,
        ensures
            t == step_total_ms(self.steps@, self.current_step_index as int),
    {
        let step = self.steps[self.current_step_index];
        if self.is_last_step() {
            step.duration_ms
        } else if step.transition.trigger_required && !step.transition.triggered {
            step.duration_ms
        } else {
            sat_add_ms(step.duration_ms, step.transition.duration_ms)
        }
    }

    fn should_advance(&self) -> (b: bool)
        requires
            self.wf(),
            self.steps@.len() > 0,
        ensures
            b == ((self.current_step_index as int) < self.steps@.len() - 1 && self.step_elapsed_ms
                >= step_total_ms(self.steps@, self.current_step_index as int)),
    {
        let total = self.calculate_total_duration();
        self.current_step_index < self.steps.len() - 1 && self.step_elapsed_ms >= total
    }

    fn apply_easing(&self, t: u32, easing: Easing) -> (r: u32)
        requires
            t <= PROGRESS_ONE,
        ensures
            r == eased_at(easing, t as int),
            r <= PROGRESS_ONE,
    {
        match easing {
            Easing::EaseIn => ease_in(t),
            Easing::EaseOut => ease_out(t),
            Easing::Linear => t,
        }
    }

    /// The blend of the current step's color toward the next step's color at
    /// the eased progress of the running transition.
    fn calculate_transition_color(&self) -> (c: Color)
        requires
            self.wf(),
            self.steps@.len() > 0,
            (self.current_step_index as int) < self.steps@.len() - 1,
            self.step_elapsed_ms >= self.steps@[self.current_step_index as int].duration_ms,
            !is_gated(self.steps@[self.current_step_index as int].transition),
        ensures
            c == color_at(self.steps@, self.current_step_index as int, self.step_elapsed_ms),
    {
        let idx = self.current_step_index;
        let n = self.steps.len();
        let step = self.steps[idx];
        let dur = step.transition.duration_ms;
        let after = self.step_elapsed_ms - step.duration_ms;
        let t: u32 = if dur == 0 {
            PROGRESS_ONE
        } else if after >= dur {
            PROGRESS_ONE
        } else {
            proof {
                assert((after as int) * 1000 / (dur as int) < 1000) by (nonlinear_arith)
                    requires
                        0 <= after < dur,
                ;
                assert((after as int) * 1000 / (dur as int) >= 0) by (nonlinear_arith)
                    requires
                        0 <= after && dur > 0,
                ;
            }
            (((after as u128) * (PROGRESS_ONE as u128)) / (dur as u128)) as u32
        };
        proof {
            assert(idx + 1 < n);
            assert(t == progress_at(self.step_elapsed_ms, step.duration_ms, dur));
        }
        let eased_t = self.apply_easing(t, step.transition.easing);
        interpolate(step.color, self.steps[idx + 1].color, eased_t)
    }

    /// Recomputes `current_color` from the current step and timer, per
    /// [`color_at`].
    fn update_color(&mut self)
        requires
            old(self).wf(),
            old(self).steps@.len() > 0,
        ensures
            final(self).steps@ == old(self).steps@,
            final(self).current_step_index == old(self).current_step_index,
            final(self).step_elapsed_ms == old(self).step_elapsed_ms,
            final(self).concluded == old(self).concluded,
            final(self).current_color == color_at(
                old(self).steps@,
                old(self).current_step_index as int,
                old(self).step_elapsed_ms,
            ),
    {
        let step = self.steps[self.current_step_index];
        if self.is_within_step_duration() {
            self.current_color = step.color;
        } else if !self.is_last_step() {
            if step.transition.trigger_required && !step.transition.triggered {
                // Waiting for the trigger: the color stays the step's own.
                self.current_color = step.color;
            } else {
                self.current_color = self.calculate_transition_color();
            }
        } else {
            self.current_color = step.color;
        }
    }

    /// Advances the step index past every step whose total duration has
    /// elapsed, resetting the step timer on each advance, then concludes the
    /// animation once the last step's hold duration has elapsed.
    fn advance_step_if_needed(&mut self)
        requires
            old(self).wf(),
            old(self).steps@.len() > 0,
        ensures
            final(self).wf(),
            final(self).steps@ == old(self).steps@,
            final(self).current_color == old(self).current_color,
            (final(self).current_step_index as int, final(self).step_elapsed_ms) == advance_from(
                old(self).steps@,
                old(self).current_step_index as int,
                old(self).step_elapsed_ms,
            ),
            final(self).concluded == (old(self).concluded || (final(self).current_step_index as int
                == final(self).steps@.len() - 1 && final(self).step_elapsed_ms
                >= final(self).steps@[final(self).current_step_index as int].duration_ms)),
    {
        let ghost steps0 = self.steps@;
        let ghost idx0 = self.current_step_index as int;
        let ghost e0 = self.step_elapsed_ms;
        let ghost color0 = self.current_color;
        let ghost concluded0 = self.concluded;
        let n = self.steps.len();
        let mut go = self.should_advance();
        while go
            invariant
                self.wf(),
                self.steps@.len() > 0,
                self.steps@ == steps0,
                steps0.len() == n,
                self.current_color == color0,
                self.concluded == concluded0,
                go == ((self.current_step_index as int) < steps0.len() - 1 && self.step_elapsed_ms
                    >= step_total_ms(steps0, self.current_step_index as int)),
                advance_from(steps0, idx0, e0) == advance_from(
                    steps0,
                    self.current_step_index as int,
                    self.step_elapsed_ms,
                ),
            decreases steps0.len() - self.current_step_index,
        {
            self.current_step_index = self.current_step_index + 1;
            self.step_elapsed_ms = 0;
            go = self.should_advance();
        }
        let idx = self.current_step_index;
        if idx == self.steps.len() - 1 && self.step_elapsed_ms >= self.steps[idx].duration_ms {
            self.concluded = true;
        }
    }

    /// Advances the animation by `delta_ms` milliseconds, per
    /// [`stepped_from`]: the color follows the pre-advance step, then the
    /// index catches up with the elapsed time.
    pub fn update(&mut self, delta_ms: u64)
        requires
            old(self).wf(),
        ensures
            final(self).wf(),
            stepped_from(*old(self), *final(self), delta_ms),
    {
        if self.steps.len() == 0 {
            self.concluded = true;
            return ;
        }
        self.step_elapsed_ms = sat_add_ms(self.step_elapsed_ms, delta_ms);
        self.update_color();
        self.advance_step_if_needed();
    }

    /// Arms the current step's trigger-gated transition, rewinding the step
    /// timer to exactly the step's hold duration so the very next update
    /// begins evaluating transition progress. A no-op when the current step's
    /// transition needs no trigger or has already been triggered.
    pub fn trigger_transition(&mut self)
        requires
            old(self).wf(),
        ensures
            final(self).wf(),
            triggered_from(*old(self), *final(self)),
    {
        if self.steps.len() == 0 {
            return ;
        }
        let idx = self.current_step_index;
        let step = self.steps[idx];
        if step.transition.trigger_required && !step.transition.triggered {
            let mut armed = step;
            armed.transition.triggered = true;
            self.steps.set(idx, armed);
            self.step_elapsed_ms = step.duration_ms;
            proof {
                assert(armed == step_with_trigger(step));
            }
        }
    }
}

/// A single-step animation never advances past step 0, and it concludes
/// exactly once its one step's hold duration has elapsed — never before.
pub proof fn lemma_single_step_animation(pre: Animation, post: Animation, delta_ms: u64)
    requires
        pre.wf(),
        pre.steps@.len() == 1,
        stepped_from(pre, post, delta_ms),
    ensures
        post.current_step_index == 0,
        post.concluded == (pre.concluded || sat_add(pre.step_elapsed_ms, delta_ms)
            >= pre.steps@[0].duration_ms),
        !pre.concluded ==> post.concluded == (sat_add(pre.step_elapsed_ms, delta_ms)
            >= pre.steps@[0].duration_ms),
{
}

/// While a step's transition awaits its trigger, the animation's color is
/// pinned to the step's own color: no blend toward the next step is ever
/// evaluated, however much time has elapsed.
pub proof fn lemma_gated_transition_freezes_color(
    steps: Seq<AnimationStep>,
    idx: int,
    elapsed: u64,
)
    requires
        0 <= idx < steps.len(),
        is_gated(steps[idx].transition),
    ensures
        color_at(steps, idx, elapsed) == steps[idx].color,
{
}

/// Triggering a gated transition starts it on the very next update: the
/// trigger rewinds the step timer to exactly the hold duration, so the next
/// update evaluates the blend at the progress the delta alone has made.
pub proof fn lemma_trigger_starts_transition(
    pre: Animation,
    mid: Animation,
    post: Animation,
    delta_ms: u64,
)
    requires
        pre.wf(),
        0 < pre.steps@.len(),
        (pre.current_step_index as int) < pre.steps@.len() - 1,
        is_gated(pre.steps@[pre.current_step_index as int].transition),
        triggered_from(pre, mid),
        stepped_from(mid, post, delta_ms),
    ensures
        post.current_color == blended(
            pre.steps@[pre.current_step_index as int].color,
            pre.steps@[pre.current_step_index as int + 1].color,
            eased_at(
                pre.steps@[pre.current_step_index as int].transition.easing,
                progress_at(
                    sat_add(pre.steps@[pre.current_step_index as int].duration_ms, delta_ms),
                    pre.steps@[pre.current_step_index as int].duration_ms,
                    pre.steps@[pre.current_step_index as int].transition.duration_ms,
                ),
            ),
        ),
{
    let i = pre.current_step_index as int;
    assert(mid.steps@[i] == step_with_trigger(pre.steps@[i]));
    assert(mid.steps@[i + 1] == pre.steps@[i + 1]);
    assert(sat_add(pre.steps@[i].duration_ms, delta_ms) >= pre.steps@[i].duration_ms);
}

} // verus!
