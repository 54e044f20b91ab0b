//! A "digital rain" engine: columns of glyph chains that spawn, cascade,
//! fade through a timed animation, and are respawned by the world once a
//! whole chain has expired.
//!
//! The engine is pure state advancement: each tick it is handed the elapsed
//! milliseconds and a frame buffer, and it appends the draw commands for the
//! frame. Window handling and rendering live with the caller.

pub mod animation;
pub mod color;
pub mod config;
pub mod draw;
pub mod game;
pub mod matrix;
