use vstd::prelude::*;

verus! {

/// Shape in which the renderer draws the cursor.
#[derive(Debug, Default, Eq, PartialEq, Structural, Copy, Clone, Hash)]
pub enum CursorShape {
    /// Cursor is a block.
    Block,
    /// Cursor is an underscore.
    Underline,
    /// Cursor is a vertical bar.
    Beam,
    /// Cursor is not drawn.
    #[default]
    Hidden,
}

/// Which part of the screen an erase-in-display sequence blanks.
#[derive(Debug, Eq, PartialEq, Structural, Copy, Clone)]
pub enum ClearMode {
    /// Clear below cursor.
    Below,
    /// Clear above cursor.
    Above,
    /// Clear entire terminal.
    All,
    /// Clear 'saved' lines (scrollback).
    Saved,
}

/// Which tab stops a tabulation-clear sequence removes.
#[derive(Debug, Eq, PartialEq, Structural, Copy, Clone)]
pub enum TabulationClearMode {
    /// Clear stop under cursor.
    Current,
    /// Clear all stops.
    All,
}

/// Which part of the cursor's line an erase-in-line sequence blanks.
#[derive(Debug, Eq, PartialEq, Structural, Copy, Clone)]
pub enum LineClearMode {
    /// Clear right of cursor.
    Right,
    /// Clear left of cursor.
    Left,
    /// Clear entire line.
    All,
}

} // verus!
