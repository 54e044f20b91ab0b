//! The world: one column per grid lane, respawned as chains expire. Grid
//! dimensions are derived once, at construction, from a configuration
//! snapshot; each tick respawns every expired column and then updates every
//! column, appending their draw commands (and the debug grid, when enabled)
//! to the frame.

use vstd::prelude::*;
use vstd::string::StringExecFns;

use std::sync::Arc;
use std::sync::RwLock;

use crate::color::Color;
use crate::color::red_spec;
use crate::config::Config;
use crate::draw::DrawCommand;
use crate::game::read_config;
use crate::matrix::matrix_col::MatrixCol;
use crate::matrix::matrix_col::col_drawn;
use crate::matrix::matrix_col::col_stepped;
use crate::matrix::matrix_col::fresh_col;
use crate::matrix::matrix_character::scaled_px;
use crate::matrix::matrix_character::scale_px;

verus! {

/// The world's error: a configuration that cannot make a world, or a
/// configuration guard that cannot be read.
#[derive(Debug, Clone)]
pub struct MatrixError {
    pub message: String,
}

impl MatrixError {
    pub fn new(message: &str) -> (e: MatrixError)
        ensures
            e.message@ == message@,
    {
        MatrixError { message: String::from_str(message) }
    }
}

/// A configuration the world can be built from: strictly positive window
/// dimensions and cell size.
pub open spec fn valid_config(cfg: Config) -> bool {
    &&& cfg.world.window_width_px > 0
    &&& cfg.world.window_height_px > 0
    &&& cfg.world.font_size_px > 0
}

/// A mid-tick column: the column as the respawn pass leaves it — untouched
/// when it was still spawned, wholesale replaced by a fresh one when it had
/// expired.
pub open spec fn respawned(pre: MatrixWorld, cfg: Config, i: int, mid: MatrixCol) -> bool {
    if pre.cols@[i].is_spawned {
        mid == pre.cols@[i]
    } else {
        fresh_col(mid, i as i32, pre.height, cfg.glyph.child_spawn_interval_ms)
    }
}

/// The draw commands of the first `k` columns of a tick that took the columns
/// `pre` to `post`, in column order.
pub open spec fn cols_drawn_to(
    pre: Seq<MatrixCol>,
    post: Seq<MatrixCol>,
    delta_ms: u64,
    cell_size_px: i32,
    k: int,
) -> Seq<DrawCommand>
    decreases k,
{
    if k <= 0 {
        seq![]
    } else {
        cols_drawn_to(pre, post, delta_ms, cell_size_px, k - 1) + col_drawn(
            pre[k - 1],
            post[k - 1],
            delta_ms,
            cell_size_px,
        )
    }
}

/// [`cols_drawn_to`] only reads the first `k` columns.
proof fn lemma_cols_drawn_to_stable(
    pre: Seq<MatrixCol>,
    p1: Seq<MatrixCol>,
    p2: Seq<MatrixCol>,
    delta_ms: u64,
    cell_size_px: i32,
    k: int,
)
    requires
        forall|j: int| 0 <= j < k ==> p1[j] == p2[j],
    ensures
        cols_drawn_to(pre, p1, delta_ms, cell_size_px, k) == cols_drawn_to(
            pre,
            p2,
            delta_ms,
            cell_size_px,
            k,
        ),
    decreases k,
{
    if k > 0 {
        lemma_cols_drawn_to_stable(pre, p1, p2, delta_ms, cell_size_px, k - 1);
    }
}

/// The exact effect of one tick on the world, against the configuration
/// snapshot `cfg` it read: the grid is unchanged; there is a mid-tick column
/// sequence in which every expired column has been replaced by a fresh one
/// and every other column kept, every mid-tick column has then been stepped
/// by the delta, and the frame grew by the columns' draw commands in column
/// order, followed by the debug grid when enabled.
pub open spec fn world_stepped(
    pre: MatrixWorld,
    post: MatrixWorld,
    cfg: Config,
    delta_ms: u64,
    pre_frame: Seq<DrawCommand>,
    post_frame: Seq<DrawCommand>,
) -> bool {
    &&& post.width == pre.width
    &&& post.height == pre.height
    &&& post.font_height == pre.font_height
    &&& post.window_width_px == pre.window_width_px
    &&& post.window_height_px == pre.window_height_px
    &&& post.cols@.len() == pre.cols@.len()
    &&& exists|mids: Seq<MatrixCol>|
        {
            &&& mids.len() == pre.cols@.len()
            &&& (forall|i: int| 0 <= i < mids.len() ==> respawned(pre, cfg, i, #[trigger] mids[i]))
            &&& (forall|i: int|
                0 <= i < mids.len() ==> col_stepped(#[trigger] mids[i], post.cols@[i], delta_ms))
            &&& post_frame == pre_frame + cols_drawn_to(
                mids,
                post.cols@,
                delta_ms,
                pre.font_height,
                mids.len() as int,
            ) + (if cfg.debug {
                post.grid_rects_to(post.width as int)
            } else {
                seq![]
            })
        }
}

/// The whole grid of rain: one column per lane.
pub struct MatrixWorld {
    /// Grid width, in columns.
    pub width: i32,
    /// Grid height, in rows.
    pub height: i32,
    /// The cell size, in pixels: each glyph cell is a square of this side.
    pub font_height: i32,
    pub window_width_px: i32,
    pub window_height_px: i32,
    pub cols: Vec<MatrixCol>,
    /// The shared configuration guard, read once per tick.
    pub config: Arc<RwLock<Config>>,
}

impl MatrixWorld {
    /// One column per grid lane, each well-formed and sitting on its own
    /// lane, over a sane grid.
    pub open spec fn wf(self) -> bool {
        &&& self.width >= 0
        &&& self.height >= 0
        &&& self.font_height >= 1
        &&& self.window_width_px >= 0
        &&& self.window_height_px >= 0
        &&& self.cols@.len() == self.width as int
        &&& forall|i: int|
            0 <= i < self.cols@.len() ==> (#[trigger] self.cols@[i]).wf() && self.cols@[
                i
            ].code.x_pos as int == i
    }

    /// A world built from the snapshot `cfg`, holding some configuration
    /// guard: grid dimensions are the window's, in cells, and every column is
    /// fresh on its own lane.
    pub open spec fn built_from(self, cfg: Config) -> bool {
        &&& valid_config(cfg)
        &&& self.wf()
        &&& self.font_height == cfg.world.font_size_px
        &&& self.window_width_px == cfg.world.window_width_px
        &&& self.window_height_px == cfg.world.window_height_px
        &&& self.width == cfg.world.window_width_px / cfg.world.font_size_px
        &&& self.height == cfg.world.window_height_px / cfg.world.font_size_px
        &&& forall|i: int|
            0 <= i < self.cols@.len() ==> fresh_col(
                #[trigger] self.cols@[i],
                i as i32,
                self.height,
                cfg.glyph.child_spawn_interval_ms,
            )
    }

    /// The grid dimensions (columns, rows) that `cfg` yields: the window
    /// divided by the cell size. A non-positive window dimension or cell size
    /// is a configuration error.
    pub fn calculate_font_grid_size(cfg: &Config) -> (r: Result<(i32, i32), MatrixError>)
        ensures
            match r {
                Result::Ok(d) => valid_config(*cfg) && d.0 == cfg.world.window_width_px
                    / cfg.world.font_size_px && d.1 == cfg.world.window_height_px
                    / cfg.world.font_size_px,
                Result::Err(e) => !valid_config(*cfg) && e.message@
                    == "invalid configuration: window dimensions and cell size must be positive"@,
            },
    {
        if cfg.world.window_width_px <= 0 || cfg.world.window_height_px <= 0
            || cfg.world.font_size_px <= 0 {
            Err(MatrixError::new("invalid configuration: window dimensions and cell size must be positive"))
        } else {
            Ok(
                (
                    cfg.world.window_width_px / cfg.world.font_size_px,
                    cfg.world.window_height_px / cfg.world.font_size_px,
                ),
            )
        }
    }

    /// Builds the world from the snapshot `cfg`, keeping `config` as the
    /// guard to read on later ticks. Fails exactly on an invalid
    /// configuration.
    pub fn from_config(cfg: &Config, config: Arc<RwLock<Config>>) -> (r: Result<
        MatrixWorld,
        MatrixError,
    >)
        ensures
            match r {
                Result::Ok(w) => w.built_from(*cfg),
                Result::Err(e) => !valid_config(*cfg) && e.message@
                    == "invalid configuration: window dimensions and cell size must be positive"@,
            },
    {
        let (grid_w, grid_h) = match Self::calculate_font_grid_size(cfg) {
            Ok(d) => d,
            Err(e) => {
                return Err(e);
            },
        };
        let mut cols: Vec<MatrixCol> = Vec::new();
        let mut i: i32 = 0;
        while i < grid_w
            invariant
                0 <= i <= grid_w,
                grid_h >= 0,
                cols@.len() == i as int,
                forall|j: int|
                    0 <= j < i as int ==> fresh_col(
                        #[trigger] cols@[j],
                        j as i32,
                        grid_h,
                        cfg.glyph.child_spawn_interval_ms,
                    ),
            decreases grid_w - i,
        {
            cols.push(MatrixCol::new(i, grid_h as u32, grid_h, cfg.glyph.child_spawn_interval_ms));
            i = i + 1;
        }
        Ok(
            MatrixWorld {
                width: grid_w,
                height: grid_h,
                font_height: cfg.world.font_size_px,
                window_width_px: cfg.world.window_width_px,
                window_height_px: cfg.world.window_height_px,
                cols,
                config,
            },
        )
    }

    /// Builds the world from the configuration behind `config`: reads a
    /// snapshot and derives everything from it. Fails on a poisoned guard or
    /// an invalid configuration.
    pub fn new(config: Arc<RwLock<Config>>) -> (r: Result<MatrixWorld, MatrixError>)
        ensures
            r matches Result::Ok(w) ==> w.wf() && exists|cfg: Config| #[trigger] w.built_from(cfg),
            r matches Result::Err(e) ==> e.message@
                == "Failed to acquire read lock on config"@ || e.message@
                == "invalid configuration: window dimensions and cell size must be positive"@,
    {
        let cfg = match read_config(&config) {
            Ok(c) => c,
            Err(e) => {
                return Err(e);
            },
        };
        Self::from_config(&cfg, config)
    }

    /// Replaces the column of lane `index` with a fresh one if it has
    /// expired; leaves it alone otherwise.
    fn spawn_col(&mut self, index: i32, cfg: &Config)
        requires
            old(self).wf(),
            0 <= index,
            (index as int) < old(self).cols@.len(),
        ensures
            final(self).wf(),
            final(self).width == old(self).width,
            final(self).height == old(self).height,
            final(self).font_height == old(self).font_height,
            final(self).window_width_px == old(self).window_width_px,
            final(self).window_height_px == old(self).window_height_px,
            final(self).cols@.len() == old(self).cols@.len(),
            forall|j: int|
                0 <= j < old(self).cols@.len() && j != index as int ==> final(self).cols@[j] == old(
                    self,
                ).cols@[j],
            respawned(*old(self), *cfg, index as int, final(self).cols@[index as int]),
    {
        let expired = !self.cols[index as usize].is_spawned;
        if expired {
            let fresh = MatrixCol::new(
                index,
                self.height as u32,
                self.height,
                cfg.glyph.child_spawn_interval_ms,
            );
            self.cols.set(index as usize, fresh);
        }
    }

    /// One tick against the configuration snapshot `cfg`: respawn every
    /// expired column, step every column by `delta_ms`, and append the frame's
    /// draw commands — per [`world_stepped`].
    pub fn update_with_config(&mut self, cfg: &Config, delta_ms: u64, frame: &mut Vec<DrawCommand>)
        requires
            old(self).wf(),
        ensures
            final(self).wf(),
            world_stepped(*old(self), *final(self), *cfg, delta_ms, old(frame)@, final(frame)@),
    {
        let ghost pre = *old(self);
        let ghost frame0 = frame@;
        let mut i: i32 = 0;
        while i < self.width
            invariant
                self.wf(),
                0 <= i <= self.width,
                self.width == pre.width,
                self.height == pre.height,
                self.font_height == pre.font_height,
                self.window_width_px == pre.window_width_px,
                self.window_height_px == pre.window_height_px,
                pre.wf(),
                self.cols@.len() == pre.cols@.len(),
                forall|j: int| 0 <= j < i as int ==> respawned(pre, *cfg, j, #[trigger] self.cols@[j]),
                forall|j: int| i as int <= j < self.cols@.len() ==> self.cols@[j] == pre.cols@[j],
            decreases self.width - i,
        {
            self.spawn_col(i, cfg);
            i = i + 1;
        }
        let ghost mids = self.cols@;
        proof {
            assert(forall|j: int| 0 <= j < mids.len() ==> respawned(pre, *cfg, j, #[trigger] mids[j]));
        }
        let n = self.cols.len();
        let cell = self.font_height;
        let mut k: usize = 0;
        while k < n
            invariant
                0 <= k <= n,
                self.cols@.len() == n,
                mids.len() == n as int,
                self.width == pre.width,
                self.height == pre.height,
                self.font_height == pre.font_height,
                self.window_width_px == pre.window_width_px,
                self.window_height_px == pre.window_height_px,
                cell == pre.font_height,
                forall|j: int| 0 <= j < n as int ==> (#[trigger] mids[j]).wf(),
                forall|j: int|
                    0 <= j < k as int ==> col_stepped(mids[j], #[trigger] self.cols@[j], delta_ms)
                        && self.cols@[j].wf(),
                forall|j: int| k as int <= j < n as int ==> #[trigger] self.cols@[j] == mids[j],
                frame@ == frame0 + cols_drawn_to(mids, self.cols@, delta_ms, cell, k as int),
            decreases n - k,
        {
            let ghost cols_before = self.cols@;
            let mut col = self.cols.remove(k);
            col.update(delta_ms, cell, frame);
            self.cols.insert(k, col);
            proof {
                assert(self.cols@ =~= cols_before.update(k as int, col));
                lemma_cols_drawn_to_stable(mids, cols_before, self.cols@, delta_ms, cell, k as int);
                assert(frame@ =~= frame0 + cols_drawn_to(
                    mids,
                    self.cols@,
                    delta_ms,
                    cell,
                    k as int + 1,
                ));
            }
            k = k + 1;
        }
        let ghost frame_cols = frame@;
        if cfg.debug {
            self.debug_grid(frame);
        }
        proof {
            if cfg.debug {
                assert(frame@ =~= frame0 + cols_drawn_to(mids, self.cols@, delta_ms, cell, n as int)
                    + self.grid_rects_to(self.width as int));
            } else {
                assert(frame@ =~= frame0 + cols_drawn_to(mids, self.cols@, delta_ms, cell, n as int)
                    + Seq::<DrawCommand>::empty());
            }
            assert(world_stepped(pre, *self, *cfg, delta_ms, frame0, frame@));
        }
    }

    /// One tick: reads a configuration snapshot through the guard and
    /// advances the world against it. On a poisoned guard nothing changes and
    /// the acquisition error is returned.
    pub fn update(&mut self, delta_ms: u64, frame: &mut Vec<DrawCommand>) -> (r: Result<
        (),
        MatrixError,
    >)
        requires
            old(self).wf(),
        ensures
            final(self).wf(),
            r matches Result::Err(e) ==> *final(self) == *old(self) && final(frame)@ == old(
                frame,
            )@ && e.message@ == "Failed to acquire read lock on config"@,
            r is Ok ==> exists|cfg: Config|
                #[trigger] world_stepped(
                    *old(self),
                    *final(self),
                    cfg,
                    delta_ms,
                    old(frame)@,
                    final(frame)@,
                ),
    {
        let cfg = match read_config(&self.config) {
            Ok(c) => c,
            Err(e) => {
                return Err(e);
            },
        };
        self.update_with_config(&cfg, delta_ms, frame);
        Ok(())
    }

    /// Where the grid sits in the window: half of the window's remainder
    /// modulo the cell size, on each axis.
    pub fn get_grid_offset(&self) -> (r: (i32, i32))
        requires
            self.wf(),
        ensures
            r.0 == (self.window_width_px % self.font_height) / 2,
            r.1 == (self.window_height_px % self.font_height) / 2,
    {
        let grid_size_x_remainder = (self.window_width_px % self.font_height) / 2;
        let grid_size_y_remainder = (self.window_height_px % self.font_height) / 2;
        (grid_size_x_remainder, grid_size_y_remainder)
    }

    /// The debug rectangle of cell `(x, y)`.
    pub open spec fn grid_rect_cmd(self, x: i32, y: i32) -> DrawCommand {
        DrawCommand::RectLines {
            x_px: ((self.window_width_px % self.font_height) / 2 + scaled_px(
                x,
                self.font_height,
            ) as int) as i64,
            y_px: ((self.window_height_px % self.font_height) / 2 + scaled_px(
                y,
                self.font_height,
            ) as int) as i64,
            width_px: self.font_height,
            height_px: self.font_height,
            color: red_spec(),
        }
    }

    /// The debug rectangles of the first `y` rows of column `x`, top down.
    pub open spec fn grid_col_rects_to(self, x: i32, y: int) -> Seq<DrawCommand>
        decreases y,
    {
        if y <= 0 {
            seq![]
        } else {
            self.grid_col_rects_to(x, y - 1) + seq![self.grid_rect_cmd(x, (y - 1) as i32)]
        }
    }

    /// The debug rectangles of the first `x` columns, column by column.
    pub open spec fn grid_rects_to(self, x: int) -> Seq<DrawCommand>
        decreases x,
    {
        if x <= 0 {
            seq![]
        } else {
            self.grid_rects_to(x - 1) + self.grid_col_rects_to((x - 1) as i32, self.height as int)
        }
    }

    /// Outlines every cell of the grid, appending one rectangle per cell in
    /// column-major order.
    pub fn debug_grid(&self, frame: &mut Vec<DrawCommand>)
        requires
            self.wf(),
        ensures
            final(frame)@ == old(frame)@ + self.grid_rects_to(self.width as int),
    {
        let ghost frame0 = frame@;
        let (grid_offset_x, grid_offset_y) = self.get_grid_offset();
        let mut x: i32 = 0;
        while x < self.width
            invariant
                self.wf(),
                0 <= x <= self.width,
                grid_offset_x == (self.window_width_px % self.font_height) / 2,
                grid_offset_y == (self.window_height_px % self.font_height) / 2,
                frame@ == frame0 + self.grid_rects_to(x as int),
            decreases self.width - x,
        {
            let mut y: i32 = 0;
            while y < self.height
                invariant
                    self.wf(),
                    0 <= x < self.width,
                    0 <= y <= self.height,
                    grid_offset_x == (self.window_width_px % self.font_height) / 2,
                    grid_offset_y == (self.window_height_px % self.font_height) / 2,
                    frame@ == frame0 + self.grid_rects_to(x as int) + self.grid_col_rects_to(
                        x,
                        y as int,
                    ),
                decreases self.height - y,
            {
                let x_px = grid_offset_x as i64 + scale_px(x, self.font_height);
                let y_px = grid_offset_y as i64 + scale_px(y, self.font_height);
                frame.push(
                    DrawCommand::RectLines {
                        x_px,
                        y_px,
                        width_px: self.font_height,
                        height_px: self.font_height,
                        color: Color::red(),
                    },
                );
                proof {
                    assert(frame@ =~= frame0 + self.grid_rects_to(x as int)
                        + self.grid_col_rects_to(x, y as int + 1));
                }
                y = y + 1;
            }
            proof {
                assert(frame@ =~= frame0 + self.grid_rects_to(x as int + 1));
            }
            x = x + 1;
        }
    }
}

} // verus!
