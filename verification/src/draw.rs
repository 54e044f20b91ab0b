//! The draw primitives the engine emits. Each tick appends commands to a
//! frame buffer; executing them (against a window, a terminal, anything) is
//! the host's business and may not fail the tick.

use vstd::prelude::*;

use crate::color::Color;

verus! {

/// One drawing instruction, in pixel coordinates.
#[derive(Clone, Copy, PartialEq, Eq, Structural, Debug)]
pub enum DrawCommand {
    /// Draw a single character cell.
    Glyph { glyph: char, x_px: i64, y_px: i64, font_size_px: i32, color: Color },
    /// Outline a rectangle (used by the debug grid overlay).
    RectLines { x_px: i64, y_px: i64, width_px: i32, height_px: i32, color: Color },
}

} // verus!
