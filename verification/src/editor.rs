//! What the renderer reads of the editor's state.

use vstd::prelude::*;

verus! {

#[derive(Clone, Copy, Debug, PartialEq, Eq, Structural)]
pub enum CursorShape {
    Block,
    Horizontal,
    Vertical,
}

/// The cursor as the editor describes it for one frame.
#[derive(Clone, Copy, Debug, PartialEq, Eq)]
pub struct Cursor {
    /// Grid column and row.
    pub position: (u64, u64),
    pub shape: CursorShape,
    /// How much of the cell a bar covers, in percent.
    pub cell_percentage: Option<u64>,
    /// Milliseconds before blinking starts.
    pub blinkwait: Option<u64>,
    /// Milliseconds for which a blinking cursor is shown.
    pub blinkon: Option<u64>,
    /// Milliseconds for which a blinking cursor is hidden.
    pub blinkoff: Option<u64>,
    pub enabled: bool,
}

impl Cursor {
    /// Whether the cursor is told not to blink: one of its three delays is
    /// zero.
    pub open spec fn never_blinks(self) -> bool {
        self.blinkwait == Some(0u64) || self.blinkoff == Some(0u64) || self.blinkon == Some(0u64)
    }

    /// Whether two descriptions are the same.
    pub fn same_as(&self, other: &Cursor) -> (same: bool)
        ensures
            same == (*self == *other),
    {
        self.position.0 == other.position.0 && self.position.1 == other.position.1 && self.shape
            == other.shape && self.cell_percentage == other.cell_percentage && self.blinkwait
            == other.blinkwait && self.blinkon == other.blinkon && self.blinkoff == other.blinkoff
            && self.enabled == other.enabled
    }
}

} // verus!
