//! The digital-rain world: glyph chains, columns, and the world that owns and
//! respawns them.

pub mod matrix_character;
pub mod matrix_col;
pub mod matrix_world;
pub mod util;
