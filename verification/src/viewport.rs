//! The visible window over the layout.

use vstd::prelude::*;

verus! {

/// The window of display lines currently shown, with an anchor byte that
/// lets the viewport re-locate itself after a full re-layout.
#[derive(Debug, Clone, Copy, PartialEq, Eq, Structural)]
pub struct Viewport {
    /// Index of the first visible display line.
    pub top_view_line: usize,
    /// Source byte the viewport tracks across re-layouts.
    pub anchor_byte: usize,
    /// Width of the viewport in cells.
    pub width: u16,
    /// Height of the viewport in rows.
    pub height: u16,
}

impl Viewport {
    /// How many display lines the viewport can show.
    pub fn visible_line_count(&self) -> (r: usize)
        ensures
            r == self.height as usize,
    {
        self.height as usize
    }
}

} // verus!
