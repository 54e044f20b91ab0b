//! One character cell of the rain: it owns its animation, its glyph-swap and
//! child-spawn timers, and optionally the next node of the chain, one row
//! deeper. A tick runs depth-first, tail before head, so that liveness can
//! propagate from the end of the chain back toward its head.

use vstd::prelude::*;

use crate::animation::Animation;
use crate::animation::AnimationStep;
use crate::animation::Easing;
use crate::animation::Transition;
use crate::animation::sat_add;
use crate::animation::stepped_from;
use crate::animation::triggered_from;
use crate::color::Color;
use crate::color::black_spec;
use crate::color::white_spec;
use crate::draw::DrawCommand;
use crate::matrix::util::AlphanumericMatrix;
use crate::matrix::util::Timer;
use crate::matrix::util::is_matrix_glyph;
use crate::matrix::util::random_duration;
use crate::matrix::util::random_i32_inclusive;

verus! {

/// The palette the rain fades through.
#[derive(Clone, Copy, PartialEq, Eq, Structural, Debug)]
pub enum MatrixColor {
    Green,
}

/// A grid coordinate scaled to pixels. Any product of two 32-bit values fits
/// the 64-bit result.
pub open spec fn scaled_px(v: i32, cell_size_px: i32) -> i64 {
    ((v as int) * (cell_size_px as int)) as i64
}

/// Exec counterpart of [`scaled_px`].
pub fn scale_px(v: i32, cell_size_px: i32) -> (r: i64)
    ensures
        r == scaled_px(v, cell_size_px),
        -0x4000_0000_0000_0000 <= r <= 0x4000_0000_0000_0000,
{
    proof {
        assert(-0x4000_0000_0000_0000 <= (v as int) * (cell_size_px as int)
            <= 0x4000_0000_0000_0000) by (nonlinear_arith)
            requires
                -0x8000_0000 <= v as int <= 0x7FFF_FFFF && -0x8000_0000 <= cell_size_px as int
                    <= 0x7FFF_FFFF,
        ;
    }
    (v as i64) * (cell_size_px as i64)
}

/// The rain's green at opacity `alpha`.
pub open spec fn matrix_green_spec(alpha: u8) -> Color {
    Color { r: 3, g: 176, b: 15, a: alpha }
}

impl MatrixColor {
    /// Unpacks the palette entry's packed RGB value at opacity `alpha`.
    pub fn to_color(self, alpha: u8) -> (c: Color)
        ensures
            c == matrix_green_spec(alpha),
    {
        match self {
            MatrixColor::Green => {
                let hex: u32 = 0x003B00F;
                proof {
                    assert(((0x003B00Fu32 >> 16) & 0xFF) == 3) by (bit_vector);
                    assert(((0x003B00Fu32 >> 8) & 0xFF) == 176) by (bit_vector);
                    assert((0x003B00Fu32 & 0xFF) == 15) by (bit_vector);
                }
                let r = ((hex >> 16) & 0xFF) as u8;
                let g = ((hex >> 8) & 0xFF) as u8;
                let b = (hex & 0xFF) as u8;
                Color { r, g, b, a: alpha }
            },
        }
    }
}

/// The step sequence every glyph animates through: a white flash held briefly,
/// a long green hold, then a fade to black. The first transition is
/// trigger-gated: the fade out of white is kicked off by the glyph spawning
/// its child.
pub open spec fn create_steps_spec(alpha: u8) -> Seq<AnimationStep> {
    seq![
        AnimationStep {
            color: white_spec(),
            duration_ms: 100,
            transition: Transition {
                duration_ms: 1000,
                easing: Easing::EaseOut,
                trigger_required: true,
                triggered: false,
            },
        },
        AnimationStep {
            color: matrix_green_spec(alpha),
            duration_ms: 3000,
            transition: Transition {
                duration_ms: 1000,
                easing: Easing::EaseOut,
                trigger_required: false,
                triggered: false,
            },
        },
        AnimationStep {
            color: black_spec(),
            duration_ms: 500,
            transition: Transition {
                duration_ms: 2000,
                easing: Easing::EaseOut,
                trigger_required: false,
                triggered: false,
            },
        },
    ]
}

/// One character cell, holding the rest of its chain behind `child`.
#[derive(Debug)]
pub struct MatrixCharacter {
    /// Row index in the grid; may start above the visible top edge.
    pub y_pos: i32,
    /// Column index in the grid.
    pub x_pos: i32,
    /// The character currently displayed.
    pub glyph: char,
    /// Mirror of the animation's current color.
    pub color: Color,
    /// The deepest row at which this chain may still spawn children.
    pub max_ancestors: u32,
    /// The next node of the chain, exactly one row deeper.
    pub child: Option<Box<MatrixCharacter>>,
    /// Counts up toward the child-spawn interval (its target).
    pub child_spawn_timer: Timer,
    /// Counts up toward the randomized glyph-swap interval (its target).
    pub glyph_change_timer: Timer,
    /// Cleared only once the child (if any) has died and the own animation
    /// has concluded.
    pub alive: bool,
    pub animation: Animation,
}

impl MatrixCharacter {
    /// Structural well-formedness of the chain: the animation index is in
    /// range, the depth limit fits the row arithmetic, and a child sits on
    /// the same column exactly one row deeper, under the same depth limit and
    /// spawn interval, with the parent still within its depth budget.
    pub open spec fn wf(self) -> bool
        decreases self,
    {
        &&& self.animation.wf()
        &&& self.max_ancestors <= i32::MAX as u32
        &&& match self.child {
            Option::Some(c) => {
                &&& self.y_pos < self.max_ancestors as i32
                &&& c.y_pos == self.y_pos + 1
                &&& c.x_pos == self.x_pos
                &&& c.max_ancestors == self.max_ancestors
                &&& c.child_spawn_timer.end_ms == self.child_spawn_timer.end_ms
                &&& c.wf()
            },
            Option::None => true,
        }
    }

    /// How many nodes this chain holds, this node included.
    pub open spec fn chain_len(self) -> nat
        decreases self,
    {
        match self.child {
            Option::Some(c) => 1 + c.chain_len(),
            Option::None => 1,
        }
    }

    /// Liveness propagates tail-to-head: no node is dead while its child
    /// still lives.
    pub open spec fn live_ok(self) -> bool
        decreases self,
    {
        match self.child {
            Option::Some(c) => (!self.alive ==> !c.alive) && c.live_ok(),
            Option::None => true,
        }
    }

    /// A node as construction leaves it: childless, alive, white, with fresh
    /// timers, showing an alphabet glyph, and carrying the standard step
    /// sequence at some opacity of at least 50.
    pub open spec fn is_fresh(self) -> bool {
        &&& self.child is None
        &&& self.alive
        &&& self.color == white_spec()
        &&& is_matrix_glyph(self.glyph)
        &&& self.child_spawn_timer.elapsed_ms == 0
        &&& self.glyph_change_timer.elapsed_ms == 0
        &&& 100 <= self.glyph_change_timer.end_ms <= 700
        &&& self.animation.current_step_index == 0
        &&& self.animation.step_elapsed_ms == 0
        &&& !self.animation.concluded
        &&& self.animation.current_color == white_spec()
        &&& exists|alpha: u8| 50 <= alpha && self.animation.steps@ == create_steps_spec(alpha)
    }

    /// What a child spawned by `parent` looks like.
    pub open spec fn fresh_child_of(parent: MatrixCharacter, c: MatrixCharacter) -> bool {
        &&& c.is_fresh()
        &&& c.wf()
        &&& c.y_pos == parent.y_pos + 1
        &&& c.x_pos == parent.x_pos
        &&& c.max_ancestors == parent.max_ancestors
        &&& c.child_spawn_timer.end_ms == parent.child_spawn_timer.end_ms
    }

    /// Whether this node spawns its child now: it has none, its depth budget
    /// allows one, and its spawn timer has strictly exceeded its interval.
    pub open spec fn spawn_due(self) -> bool {
        &&& self.child is None
        &&& self.y_pos < self.max_ancestors as i32
        &&& self.child_spawn_timer.elapsed_ms > self.child_spawn_timer.end_ms
    }

    /// Whether a tick of `delta_ms` makes `pre` spawn a child, judged after
    /// its spawn timer has taken the delta.
    pub open spec fn spawns_at(pre: MatrixCharacter, delta_ms: u64) -> bool {
        &&& pre.child is None
        &&& pre.y_pos < pre.max_ancestors as i32
        &&& sat_add(pre.child_spawn_timer.elapsed_ms, delta_ms) > pre.child_spawn_timer.end_ms
    }

    /// The draw command this node emits: its glyph at its grid position
    /// scaled by the cell size, in its current color.
    pub open spec fn glyph_cmd(self, cell_size_px: i32) -> DrawCommand {
        DrawCommand::Glyph {
            glyph: self.glyph,
            x_px: scaled_px(self.x_pos, cell_size_px),
            y_px: scaled_px(self.y_pos, cell_size_px),
            font_size_px: cell_size_px,
            color: self.color,
        }
    }

    /// The draw commands one tick emits for the chain `pre` that became
    /// `post`: the child's commands first (tail before head), then this
    /// node's own, taken from its post-tick state. A child freshly spawned
    /// this tick does not draw yet.
    pub open spec fn drawn_of(
        pre: MatrixCharacter,
        post: MatrixCharacter,
        cell_size_px: i32,
    ) -> Seq<DrawCommand>
        decreases pre,
    {
        match pre.child {
            Option::Some(c) => {
                if post.child is Some {
                    Self::drawn_of(*c, *post.child.unwrap(), cell_size_px) + seq![
                        post.glyph_cmd(cell_size_px),
                    ]
                } else {
                    seq![post.glyph_cmd(cell_size_px)]
                }
            },
            Option::None => seq![post.glyph_cmd(cell_size_px)],
        }
    }

    /// The exact effect of one [`MatrixCharacter::traverse_and_tick`] on the
    /// chain: the child (if any) ticks first; liveness is then recomputed
    /// from the ticked child and the not-yet-updated animation; a childless
    /// node within its depth budget spawns a fresh child once its spawn timer
    /// has exceeded its interval, triggering its own animation's gated
    /// transition; the glyph swaps once its timer expires; and the animation
    /// advances by the delta, the node's color mirroring it.
    pub open spec fn ticked_from(
        pre: MatrixCharacter,
        post: MatrixCharacter,
        delta_ms: u64,
    ) -> bool
        decreases pre,
    {
        let spawn_elapsed = sat_add(pre.child_spawn_timer.elapsed_ms, delta_ms);
        let glyph_elapsed = sat_add(pre.glyph_change_timer.elapsed_ms, delta_ms);
        &&& post.y_pos == pre.y_pos
        &&& post.x_pos == pre.x_pos
        &&& post.max_ancestors == pre.max_ancestors
        &&& post.child_spawn_timer == (Timer {
            elapsed_ms: spawn_elapsed,
            end_ms: pre.child_spawn_timer.end_ms,
        })
        &&& post.glyph_change_timer.end_ms == pre.glyph_change_timer.end_ms
        &&& (if glyph_elapsed >= pre.glyph_change_timer.end_ms {
            post.glyph_change_timer.elapsed_ms == 0 && is_matrix_glyph(post.glyph)
        } else {
            post.glyph_change_timer.elapsed_ms == glyph_elapsed && post.glyph == pre.glyph
        })
        &&& post.color == post.animation.current_color
        &&& match pre.child {
            Option::Some(c) => {
                &&& post.child is Some
                &&& Self::ticked_from(*c, *post.child.unwrap(), delta_ms)
                &&& post.alive == !(!post.child.unwrap().alive && pre.animation.concluded)
                &&& stepped_from(pre.animation, post.animation, delta_ms)
            },
            Option::None => {
                &&& post.alive == !pre.animation.concluded
                &&& if Self::spawns_at(pre, delta_ms) {
                    &&& post.child is Some
                    &&& Self::fresh_child_of(pre, *post.child.unwrap())
                    &&& exists|mid: Animation|
                        #[trigger] triggered_from(pre.animation, mid) && stepped_from(
                            mid,
                            post.animation,
                            delta_ms,
                        )
                } else {
                    &&& post.child is None
                    &&& stepped_from(pre.animation, post.animation, delta_ms)
                }
            },
        }
    }

    pub fn new(y_pos: i32, x_pos: i32, max_ancestors: u32, child_spawn_time: u64) -> (c:
        MatrixCharacter)
        requires
            max_ancestors <= i32::MAX as u32,
        ensures
            c.wf(),
            c.is_fresh(),
            c.y_pos == y_pos,
            c.x_pos == x_pos,
            c.max_ancestors == max_ancestors,
            c.child_spawn_timer.end_ms == child_spawn_time,
    {
        let alpha = random_i32_inclusive(50, 255) as u8;
        let node = MatrixCharacter {
            y_pos,
            x_pos,
            glyph: Self::generate_random_character(),
            color: Color::white(),
            max_ancestors,
            child: None,
            child_spawn_timer: Timer::new(child_spawn_time),
            glyph_change_timer: Timer::new(random_duration(100, 700)),
            alive: true,
            animation: Animation::new(Self::create_animation_steps(alpha)),
        };
        proof {
            assert(50 <= alpha && node.animation.steps@ == create_steps_spec(alpha));
        }
        node
    }

    /// One glyph drawn from the restricted alphabet.
    pub fn generate_random_character() -> (c: char)
        ensures
            is_matrix_glyph(c),
    {
        let sampler = AlphanumericMatrix;
        sampler.sample()
    }

    /// The standard step sequence at opacity `alpha` for its green hold.
    pub fn create_animation_steps(alpha: u8) -> (v: Vec<AnimationStep>)
        ensures
            v@ == create_steps_spec(alpha),
    {
        let steps = vec![
            AnimationStep {
                color: Color::white(),
                duration_ms: 100,
                transition: Transition::new(1000, Easing::EaseOut, true),
            },
            AnimationStep {
                color: MatrixColor::Green.to_color(alpha),
                duration_ms: 3000,
                transition: Transition::new(1000, Easing::EaseOut, false),
            },
            AnimationStep {
                color: Color::black(),
                duration_ms: 500,
                transition: Transition::new(2000, Easing::EaseOut, false),
            },
        ];
        proof {
            assert(steps@ =~= create_steps_spec(alpha));
        }
        steps
    }

    /// Spawns the child if it is due, and triggers this node's own gated
    /// transition when that happens: the chain growing is what kicks off this
    /// node's fade-out.
    fn spawn_child(&mut self)
        requires
            old(self).wf(),
        ensures
            final(self).wf(),
            final(self).y_pos == old(self).y_pos,
            final(self).x_pos == old(self).x_pos,
            final(self).max_ancestors == old(self).max_ancestors,
            final(self).glyph == old(self).glyph,
            final(self).color == old(self).color,
            final(self).alive == old(self).alive,
            final(self).child_spawn_timer == old(self).child_spawn_timer,
            final(self).glyph_change_timer == old(self).glyph_change_timer,
            if old(self).spawn_due() {
                &&& final(self).child is Some
                &&& Self::fresh_child_of(*old(self), *final(self).child.unwrap())
                &&& triggered_from(old(self).animation, final(self).animation)
            } else {
                &&& final(self).child == old(self).child
                &&& final(self).animation == old(self).animation
            },
    {
        if self.child.is_none() && self.y_pos < self.max_ancestors as i32
            && self.child_spawn_timer.exceeded() {
            let node = MatrixCharacter::new(
                self.y_pos + 1,
                self.x_pos,
                self.max_ancestors,
                self.child_spawn_timer.end_ms,
            );
            self.child = Some(Box::new(node));
            self.animation.trigger_transition();
        }
    }

    /// Swaps the glyph once its timer expires, then advances the animation
    /// and mirrors its color.
    fn update_appearance(&mut self, delta_ms: u64)
        requires
            old(self).wf(),
        ensures
            final(self).wf(),
            final(self).y_pos == old(self).y_pos,
            final(self).x_pos == old(self).x_pos,
            final(self).max_ancestors == old(self).max_ancestors,
            final(self).alive == old(self).alive,
            final(self).child == old(self).child,
            final(self).child_spawn_timer == old(self).child_spawn_timer,
            final(self).glyph_change_timer.end_ms == old(self).glyph_change_timer.end_ms,
            (if sat_add(old(self).glyph_change_timer.elapsed_ms, delta_ms) >= old(
                self,
            ).glyph_change_timer.end_ms {
                final(self).glyph_change_timer.elapsed_ms == 0 && is_matrix_glyph(final(self).glyph)
            } else {
                final(self).glyph_change_timer.elapsed_ms == sat_add(
                    old(self).glyph_change_timer.elapsed_ms,
                    delta_ms,
                ) && final(self).glyph == old(self).glyph
            }),
            stepped_from(old(self).animation, final(self).animation, delta_ms),
            final(self).color == final(self).animation.current_color,
    {
        self.glyph_change_timer.advance(delta_ms);
        if self.glyph_change_timer.expired() {
            self.glyph = Self::generate_random_character();
            self.glyph_change_timer.reset();
        }
        self.animation.update(delta_ms);
        self.color = self.animation.current_color;
    }

    /// This node's own share of a tick: advance the spawn timer, spawn if
    /// due, refresh appearance, and emit the draw command.
    fn update(&mut self, delta_ms: u64, cell_size_px: i32, frame: &mut Vec<DrawCommand>)
        requires
            old(self).wf(),
        ensures
            final(self).wf(),
            final(self).y_pos == old(self).y_pos,
            final(self).x_pos == old(self).x_pos,
            final(self).max_ancestors == old(self).max_ancestors,
            final(self).alive == old(self).alive,
            final(self).child_spawn_timer == (Timer {
                elapsed_ms: sat_add(old(self).child_spawn_timer.elapsed_ms, delta_ms),
                end_ms: old(self).child_spawn_timer.end_ms,
            }),
            final(self).glyph_change_timer.end_ms == old(self).glyph_change_timer.end_ms,
            (if sat_add(old(self).glyph_change_timer.elapsed_ms, delta_ms) >= old(
                self,
            ).glyph_change_timer.end_ms {
                final(self).glyph_change_timer.elapsed_ms == 0 && is_matrix_glyph(final(self).glyph)
            } else {
                final(self).glyph_change_timer.elapsed_ms == sat_add(
                    old(self).glyph_change_timer.elapsed_ms,
                    delta_ms,
                ) && final(self).glyph == old(self).glyph
            }),
            final(self).color == final(self).animation.current_color,
            if Self::spawns_at(*old(self), delta_ms) {
                &&& final(self).child is Some
                &&& Self::fresh_child_of(*old(self), *final(self).child.unwrap())
                &&& exists|mid: Animation|
                    #[trigger] triggered_from(old(self).animation, mid) && stepped_from(
                        mid,
                        final(self).animation,
                        delta_ms,
                    )
            } else {
                &&& final(self).child == old(self).child
                &&& stepped_from(old(self).animation, final(self).animation, delta_ms)
            },
            final(frame)@ == old(frame)@.push(final(self).glyph_cmd(cell_size_px)),
    {
        self.child_spawn_timer.advance(delta_ms);
        self.spawn_child();
        let ghost mid_animation = self.animation;
        self.update_appearance(delta_ms);
        proof {
            if Self::spawns_at(*old(self), delta_ms) {
                assert(triggered_from(old(self).animation, mid_animation) && stepped_from(
                    mid_animation,
                    self.animation,
                    delta_ms,
                ));
            }
        }
        let x_px = scale_px(self.x_pos, cell_size_px);
        let y_px = scale_px(self.y_pos, cell_size_px);
        frame.push(
            DrawCommand::Glyph {
                glyph: self.glyph,
                x_px,
                y_px,
                font_size_px: cell_size_px,
                color: self.color,
            },
        );
    }

    /// The number of nodes this chain holds, this node included.
    pub fn chain_length(&self) -> (n: u64)
        requires
            self.wf(),
        ensures
            n == self.chain_len(),
        decreases *self,
    {
        proof {
            lemma_chain_len_bounded(*self);
        }
        match &self.child {
            Some(c) => 1 + c.chain_length(),
            None => 1,
        }
    }

    /// One tick of the whole chain, depth-first with the tail before the
    /// head: the child ticks first, then this node recomputes its liveness
    /// from the ticked child and its own (not yet advanced) animation, and
    /// finally takes its own share of the tick.
    pub fn traverse_and_tick(
        &mut self,
        delta_ms: u64,
        cell_size_px: i32,
        frame: &mut Vec<DrawCommand>,
    )
        requires
            old(self).wf(),
        ensures
            final(self).wf(),
            Self::ticked_from(*old(self), *final(self), delta_ms),
            final(frame)@ == old(frame)@ + Self::drawn_of(
                *old(self),
                *final(self),
                cell_size_px,
            ),
        decreases *old(self),
    {
        match &mut self.child {
            Some(c) => {
                c.traverse_and_tick(delta_ms, cell_size_px, frame);
            },
            None => {},
        }
        let has_child = self.child.is_some();
        if has_child {
            let child_alive = match &self.child {
                Some(c) => c.alive,
                None => false,
            };
            self.alive = !(!child_alive && self.animation.concluded);
        } else {
            self.alive = !self.animation.concluded;
        }
        self.update(delta_ms, cell_size_px, frame);
    }
}

/// A chain never grows past its depth budget: from a node `d` rows above the
/// depth limit, at most `d + 1` nodes hang (the node itself included), and a
/// node at or past the limit never has a child at all. In particular a chain
/// whose head sits at or below row zero holds at most one node more than its
/// depth budget.
pub proof fn lemma_chain_len_bounded(n: MatrixCharacter)
    requires
        n.wf(),
    ensures
        n.y_pos < n.max_ancestors as i32 ==> n.chain_len() <= n.max_ancestors as int
            - n.y_pos as int + 1,
        n.y_pos >= n.max_ancestors as i32 ==> n.chain_len() == 1,
        n.y_pos >= 0 ==> n.chain_len() <= n.max_ancestors as int + 1,
    decreases n,
{
    match n.child {
        Option::Some(c) => {
            lemma_chain_len_bounded(*c);
        },
        Option::None => {},
    }
}

/// No node of the chain that spawns a child this tick has a concluded
/// animation. Only the tail node can spawn, and its animation concludes long
/// after its spawn timer fires under every configuration whose spawn interval
/// is shorter than the animation; this records the premise that liveness
/// propagation rests on.
pub open spec fn spawn_not_concluded(pre: MatrixCharacter, delta_ms: u64) -> bool
    decreases pre,
{
    match pre.child {
        Option::Some(c) => spawn_not_concluded(*c, delta_ms),
        Option::None => MatrixCharacter::spawns_at(pre, delta_ms)
            ==> !pre.animation.concluded,
    }
}

/// Liveness propagates tail-to-head across a tick: provided no concluded node
/// spawned a child this very tick, no node of the ticked chain is dead while
/// its child still lives — a parent only ever dies after its child has died.
pub proof fn lemma_liveness_propagates(
    pre: MatrixCharacter,
    post: MatrixCharacter,
    delta_ms: u64,
)
    requires
        MatrixCharacter::ticked_from(pre, post, delta_ms),
        spawn_not_concluded(pre, delta_ms),
    ensures
        post.live_ok(),
    decreases pre,
{
    match pre.child {
        Option::Some(c) => {
            lemma_liveness_propagates(*c, *post.child.unwrap(), delta_ms);
            assert(!post.alive ==> !post.child.unwrap().alive);
            assert(post.child.unwrap().live_ok());
        },
        Option::None => {
            if MatrixCharacter::spawns_at(pre, delta_ms) {
                assert(post.alive == !pre.animation.concluded);
                assert(post.alive);
                assert(post.child.unwrap().is_fresh());
                assert(post.child.unwrap().child is None);
                assert(post.child.unwrap().live_ok());
            } else {
                assert(post.child is None);
            }
        },
    }
}

} // verus!
