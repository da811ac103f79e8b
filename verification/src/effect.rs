//! Terminal effects. The core touches no terminal: where an operation calls
//! for the cursor to be moved, saved or reshaped, the core says so with a
//! list of effects, and the host carries them out in order.

use crate::types::CursorDirection;
use vstd::prelude::*;

verus! {

/// How the cursor is drawn.
#[derive(Debug, Clone, Copy, PartialEq, Eq, Structural)]
pub enum CursorShape {
    Line,
    Block,
}

/// One thing for the host to do to the terminal.
#[derive(Debug, Clone, Copy, PartialEq, Eq, Structural)]
pub enum Effect {
    /// Remember where the cursor is.
    SaveCursor,
    /// Put the cursor back where it was last remembered.
    RestoreCursor,
    /// Draw the cursor in this shape.
    SetCursorShape(CursorShape),
    /// Put the cursor on the bottom row, where the status line is.
    MoveToStatusRow,
    /// Step the cursor that many cells.
    MoveCursor(CursorDirection, u16),
    /// Put the cursor at the start of the line that many lines down.
    MoveToNextLine(u16),
    /// Put the cursor at the start of the line that many lines up.
    MoveToPreviousLine(u16),
    /// Scroll the page up by that many lines.
    ScrollUp(u16),
    /// Scroll the page down by that many lines.
    ScrollDown(u16),
}

} // verus!
