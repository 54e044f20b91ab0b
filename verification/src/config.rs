//! The configuration snapshot that the engine reads: window geometry, cell
//! size, and glyph behaviour. Loading and reloading the configuration is the
//! host's business; the engine only ever sees consistent snapshots.

use vstd::prelude::*;

verus! {

/// Window geometry and cell size, in pixels.
#[derive(Clone, Copy, PartialEq, Eq, Structural, Debug)]
pub struct World {
    pub window_width_px: i32,
    pub window_height_px: i32,
    pub font_size_px: i32,
}

/// Per-glyph behaviour.
#[derive(Clone, Copy, PartialEq, Eq, Structural, Debug)]
pub struct Glyph {
    /// How long a glyph waits before spawning its child, in milliseconds.
    pub child_spawn_interval_ms: u64,
}

/// One consistent snapshot of the configuration.
#[derive(Clone, Copy, PartialEq, Eq, Structural, Debug)]
pub struct Config {
    pub world: World,
    pub glyph: Glyph,
    /// Whether the debug grid overlay is drawn.
    pub debug: bool,
}

} // verus!
