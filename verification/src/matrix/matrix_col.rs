//! One vertical lane of the grid: it owns the head of a glyph chain, waits
//! out a randomized start delay before the chain becomes active, and reports
//! itself expired once the whole chain has died, so the world can respawn it.

use vstd::prelude::*;

use crate::animation::sat_add;
use crate::draw::DrawCommand;
use crate::matrix::matrix_character::MatrixCharacter;
use crate::matrix::util::Timer;
use crate::matrix::util::random_duration;
use crate::matrix::util::random_i32_inclusive;

verus! {

/// A column that was just constructed for lane `x_pos` of a grid
/// `grid_height` rows tall, with the chain-length budget drawn against
/// `max_depth`: spawned, not yet active, its start delay drawn from its
/// range, and its head chain fresh — rooted somewhere between just above the
/// visible top edge and near the bottom, with a chain-length budget that is
/// never trivially short and at most half of `max_depth` (whenever that
/// ceiling is not below the floor).
pub open spec fn fresh_col_with_budget(
    c: MatrixCol,
    x_pos: i32,
    grid_height: i32,
    child_spawn_time: u64,
    max_depth: u32,
) -> bool {
    &&& c.wf()
    &&& c.is_spawned
    &&& !c.timer_expired
    &&& c.start_timer.elapsed_ms == 0
    &&& 100 <= c.start_timer.end_ms <= 9000
    &&& c.code.is_fresh()
    &&& c.code.x_pos == x_pos
    &&& -3 <= c.code.y_pos <= grid_height - 3
    &&& 10 <= c.code.max_ancestors <= i32::MAX as u32
    &&& (max_depth / 2 >= 10 ==> c.code.max_ancestors <= max_depth / 2)
    &&& c.code.child_spawn_timer.end_ms == child_spawn_time
}

/// [`fresh_col_with_budget`] as the world uses it: the chain-length budget's
/// ceiling is tied to the grid height.
pub open spec fn fresh_col(
    c: MatrixCol,
    x_pos: i32,
    grid_height: i32,
    child_spawn_time: u64,
) -> bool {
    fresh_col_with_budget(c, x_pos, grid_height, child_spawn_time, grid_height as u32)
}

/// The exact effect of one [`MatrixCol::update`]: the start delay takes the
/// delta and activation latches once it is strictly exceeded; an active
/// column ticks its chain and clears `is_spawned` once the chain's head has
/// died; an inactive column changes nothing else — its chain's timers do not
/// advance.
pub open spec fn col_stepped(pre: MatrixCol, post: MatrixCol, delta_ms: u64) -> bool {
    let started = sat_add(pre.start_timer.elapsed_ms, delta_ms);
    &&& post.start_timer == (Timer { elapsed_ms: started, end_ms: pre.start_timer.end_ms })
    &&& post.timer_expired == (pre.timer_expired || started > pre.start_timer.end_ms)
    &&& if pre.timer_expired || started > pre.start_timer.end_ms {
        &&& MatrixCharacter::ticked_from(pre.code, post.code, delta_ms)
        &&& post.is_spawned == (pre.is_spawned && post.code.alive)
    } else {
        &&& post.code == pre.code
        &&& post.is_spawned == pre.is_spawned
    }
}

/// The draw commands one [`MatrixCol::update`] emits: those of its chain when
/// the column is active, none while it still waits out its start delay.
pub open spec fn col_drawn(pre: MatrixCol, post: MatrixCol, delta_ms: u64, cell_size_px: i32) -> Seq<
    DrawCommand,
> {
    if pre.timer_expired || sat_add(pre.start_timer.elapsed_ms, delta_ms)
        > pre.start_timer.end_ms {
        MatrixCharacter::drawn_of(pre.code, post.code, cell_size_px)
    } else {
        seq![]
    }
}

/// One lane of the grid and the lifecycle of its chain.
#[derive(Debug)]
pub struct MatrixCol {
    /// The head of the chain this column owns.
    pub code: MatrixCharacter,
    /// Cleared once the chain has fully died; the world then replaces the
    /// column wholesale.
    pub is_spawned: bool,
    /// Counts up toward the randomized start delay (its target).
    pub start_timer: Timer,
    /// Latched once the start delay has elapsed; the chain only then starts
    /// ticking and drawing.
    pub timer_expired: bool,
}

impl MatrixCol {
    pub open spec fn wf(self) -> bool {
        self.code.wf()
    }

    pub fn new(x_pos: i32, max_depth: u32, grid_height: i32, child_spawn_time: u64) -> (c:
        MatrixCol)
        requires
            grid_height >= 0,
        ensures
            fresh_col_with_budget(c, x_pos, grid_height, child_spawn_time, max_depth),
    {
        MatrixCol {
            code: MatrixCharacter::new(
                Self::calculate_y_values(grid_height),
                x_pos,
                Self::random_length(max_depth),
                child_spawn_time,
            ),
            is_spawned: true,
            timer_expired: false,
            start_timer: Timer::new(random_duration(100, 9000)),
        }
    }

    pub fn update(&mut self, delta_ms: u64, cell_size_px: i32, frame: &mut Vec<DrawCommand>)
        requires
            old(self).wf(),
        ensures
            final(self).wf(),
            col_stepped(*old(self), *final(self), delta_ms),
            final(frame)@ == old(frame)@ + col_drawn(
                *old(self),
                *final(self),
                delta_ms,
                cell_size_px,
            ),
    {
        self.start_timer.advance(delta_ms);
        if self.start_timer.exceeded() {
            self.timer_expired = true;
        }
        if self.timer_expired {
            self.code.traverse_and_tick(delta_ms, cell_size_px, frame);
            if !self.code.alive {
                self.is_spawned = false;
            }
        }
    }

    /// A chain-length budget for a grid of height `max`: at least 10 rows,
    /// and at most half the grid (whenever that ceiling is not below the
    /// floor).
    fn random_length(max: u32) -> (r: u32)
        ensures
            10 <= r <= 0x7FFF_FFFF,
            max / 2 >= 10 ==> r <= max / 2,
    {
        let ceiling = if max / 2 >= 10 {
            max / 2
        } else {
            10
        };
        random_i32_inclusive(10, ceiling as i32) as u32
    }

    /// A starting row for a fresh chain's head: anywhere from just above the
    /// visible top edge down to near the bottom, so chains appear already in
    /// flight.
    fn calculate_y_values(grid_height: i32) -> (y: i32)
        requires
            grid_height >= 0,
        ensures
            -3 <= y <= grid_height - 3,
    {
        random_i32_inclusive(-3, grid_height - 3)
    }
}

} // verus!
