//! What the status display shows: three fixed text lines, a 1-based line
//! index mapped to a fixed vertical stride, redrawn whole on every update.

use vstd::prelude::*;

verus! {

/// Vertical distance between two text lines, in pixels.
pub const LINE_STRIDE_PX: i32 = 10;

/// Baseline of text line `line`, counted from 1 at the top, in pixels from
/// the top edge.
pub fn text_line_y(line: u8) -> (y: i32)
    ensures
        y == LINE_STRIDE_PX * line,
{
    LINE_STRIDE_PX * (line as i32)
}

} // verus!
