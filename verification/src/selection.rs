//! A selection in view coordinates: a start and an end position.
//!
//! A selection is not ordered by construction; selecting backward leaves
//! the start after the end, and `normalized` reorders on demand.

use vstd::prelude::*;

use crate::cursor::ViewPosition;

verus! {

/// Line width assumed when approximating a multi-line selection's length.
pub const ASSUMED_LINE_WIDTH: usize = 80;

/// A selection in view coordinates (start and end positions).
#[derive(Debug, Clone, Copy)]
pub struct Selection {
    /// Where the selection began.
    pub start: ViewPosition,
    /// Where the selection ends; may precede `start`.
    pub end: ViewPosition,
}

impl PartialEq for Selection {
    fn eq(&self, other: &Selection) -> (r: bool) {
        self.start == other.start && self.end == other.end
    }
}

impl Eq for Selection {

}

impl vstd::std_specs::cmp::PartialEqSpecImpl for Selection {
    open spec fn obeys_eq_spec() -> bool {
        true
    }

    open spec fn eq_spec(&self, other: &Selection) -> bool {
        self.start == other.start && self.end == other.end
    }
}

/// The approximate length of a selection: zero when a view coordinate is
/// unresolved; the column distance on a single line; and, across lines, a
/// line count times an assumed width plus the end column. The multi-line
/// figure is a UI metric, not a character count.
pub open spec fn spec_selection_len(s: Selection) -> int {
    if !(s.start.view_resolved() && s.end.view_resolved()) {
        0
    } else {
        let start_line = crate::mapping::opt_or(s.start.view_line, 0) as int;
        let start_col = crate::mapping::opt_or(s.start.column, 0) as int;
        let end_line = crate::mapping::opt_or(s.end.view_line, 0) as int;
        let end_col = crate::mapping::opt_or(s.end.column, 0) as int;
        if start_line == end_line {
            if end_col >= start_col {
                end_col - start_col
            } else {
                0
            }
        } else {
            let line_diff = if end_line >= start_line {
                end_line - start_line
            } else {
                0
            };
            let approx = line_diff * (ASSUMED_LINE_WIDTH as int) + end_col;
            if approx > usize::MAX {
                usize::MAX as int
            } else {
                approx
            }
        }
    }
}

impl Selection {
    /// Create a new selection.
    pub fn new(start: ViewPosition, end: ViewPosition) -> (r: Selection)
        ensures
            r.start == start,
            r.end == end,
    {
        Selection { start, end }
    }

    /// Create from a pair of positions.
    pub fn from_tuple(tuple: (ViewPosition, ViewPosition)) -> (r: Selection)
        ensures
            r.start == tuple.0,
            r.end == tuple.1,
    {
        Selection { start: tuple.0, end: tuple.1 }
    }

    /// Convert to a pair of positions.
    pub fn to_tuple(self) -> (r: (ViewPosition, ViewPosition))
        ensures
            r.0 == self.start,
            r.1 == self.end,
    {
        (self.start, self.end)
    }

    /// Return a selection with the two endpoints in order, under the
    /// lexicographic order on (line, column, byte).
    pub fn normalized(&self) -> (r: Selection)
        ensures
            self.start.spec_le(self.end) ==> r == *self,
            !self.start.spec_le(self.end) ==> r == (Selection {
                start: self.end,
                end: self.start,
            }),
            r.start.spec_le(r.end),
    {
        if self.start.le(&self.end) {
            *self
        } else {
            Selection { start: self.end, end: self.start }
        }
    }

    /// Whether the selection is empty: both endpoints coincide.
    pub fn is_empty(&self) -> (r: bool)
        ensures
            r == (self.start == self.end),
    {
        self.start == self.end
    }

    /// The selection's length in view coordinates, approximated across
    /// lines; zero when either endpoint lacks resolved view coordinates.
    pub fn len(&self) -> (r: usize)
        ensures
            r == spec_selection_len(*self),
    {
        let (start_line, start_col) = match (self.start.view_line, self.start.column) {
            (Option::Some(l), Option::Some(c)) => (l, c),
            _ => {
                return 0;
            },
        };
        let (end_line, end_col) = match (self.end.view_line, self.end.column) {
            (Option::Some(l), Option::Some(c)) => (l, c),
            _ => {
                return 0;
            },
        };
        if start_line == end_line {
            if end_col >= start_col {
                end_col - start_col
            } else {
                0
            }
        } else {
            // Multi-line: approximate with a fixed assumed line width.
            let line_diff = if end_line >= start_line {
                end_line - start_line
            } else {
                0
            };
            let scaled = match line_diff.checked_mul(ASSUMED_LINE_WIDTH) {
                Option::Some(v) => v,
                Option::None => usize::MAX,
            };
            scaled.saturating_add(end_col)
        }
    }
}

} // verus!
