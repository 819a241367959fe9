//! The character's animation frame.
//!
//! The character sheet is cut into a grid of equal cells, counted row by row.
//! The frame indices that this module hands out are indices of those cells.

use crate::input::Heading;
use vstd::prelude::*;

verus! {

/// The number of columns of cells in the character sheet.
pub const SHEET_COLUMNS: u32 = 1;

/// The number of rows of cells in the character sheet.
pub const SHEET_ROWS: u32 = 2;

/// The cell that shows the character at rest.
pub const IDLE_FRAME: usize = 0;

/// The cell that shows the character walking up.
pub const MOVING_UP_FRAME: usize = 1;

/// The frame for a direction: the walking-up frame where the direction points
/// up, the idle frame otherwise.
pub open spec fn frame_of(vertical: int) -> usize {
    if vertical > 0 {
        MOVING_UP_FRAME
    } else {
        IDLE_FRAME
    }
}

/// Selects the animation frame for this frame's direction. The choice looks
/// at the vertical component alone and at nothing of earlier frames, and the
/// frame is a cell of the character sheet.
pub fn animation_frame(heading: Heading) -> (frame: usize)
    ensures
        frame == frame_of(heading.y as int),
        frame < SHEET_COLUMNS * SHEET_ROWS,
{
    if heading.y > 0 {
        MOVING_UP_FRAME
    } else {
        IDLE_FRAME
    }
}

} // verus!
