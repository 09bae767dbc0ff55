//! Cursor positions in view coordinates.
//!
//! A cursor may be only partially resolved: it can know its source byte
//! without knowing where that byte lands on screen, or know its screen
//! coordinates inside a synthetic buffer that maps to no source byte.
//! The three fields are therefore each independently optional.

use vstd::prelude::*;

verus! {

/// A position in view coordinates, each coordinate independently optional.
#[derive(Debug, Clone, Copy)]
pub struct ViewPosition {
    /// Index of the display line, when resolved.
    pub view_line: Option<usize>,
    /// Column within the display line, when resolved.
    pub column: Option<usize>,
    /// Byte offset in the source document, when resolved.
    pub source_byte: Option<usize>,
}

impl ViewPosition {
    /// A position that only knows its source byte.
    pub fn from_source_byte(byte: usize) -> (r: ViewPosition)
        ensures
            r.view_line is None,
            r.column is None,
            r.source_byte == Some(byte),
    {
        ViewPosition { view_line: None, column: None, source_byte: Some(byte) }
    }

    /// Whether both screen coordinates are resolved.
    pub open spec fn view_resolved(self) -> bool {
        self.view_line is Some && self.column is Some
    }
}

impl PartialEq for ViewPosition {
    fn eq(&self, other: &ViewPosition) -> (r: bool) {
        self.view_line == other.view_line && self.column == other.column && self.source_byte
            == other.source_byte
    }
}

impl Eq for ViewPosition {

}

impl vstd::std_specs::cmp::PartialEqSpecImpl for ViewPosition {
    open spec fn obeys_eq_spec() -> bool {
        true
    }

    open spec fn eq_spec(&self, other: &ViewPosition) -> bool {
        self.view_line == other.view_line && self.column == other.column && self.source_byte
            == other.source_byte
    }
}

/// Order on optional coordinates: an unresolved coordinate sorts before
/// any resolved one, mirroring the ordering derived for `Option`.
pub open spec fn spec_opt_le(a: Option<usize>, b: Option<usize>) -> bool {
    match (a, b) {
        (Option::None, _) => true,
        (Option::Some(_), Option::None) => false,
        (Option::Some(x), Option::Some(y)) => x <= y,
    }
}

impl ViewPosition {
    /// Lexicographic order over (view_line, column, source_byte).
    pub open spec fn spec_le(self, other: ViewPosition) -> bool {
        if self.view_line != other.view_line {
            spec_opt_le(self.view_line, other.view_line)
        } else if self.column != other.column {
            spec_opt_le(self.column, other.column)
        } else {
            spec_opt_le(self.source_byte, other.source_byte)
        }
    }

    /// Compare two positions lexicographically by line, column, then byte.
    pub fn le(&self, other: &ViewPosition) -> (r: bool)
        ensures
            r == self.spec_le(*other),
    {
        if self.view_line != other.view_line {
            opt_le(self.view_line, other.view_line)
        } else if self.column != other.column {
            opt_le(self.column, other.column)
        } else {
            opt_le(self.source_byte, other.source_byte)
        }
    }
}

fn opt_le(a: Option<usize>, b: Option<usize>) -> (r: bool)
    ensures
        r == spec_opt_le(a, b),
{
    match (a, b) {
        (Option::None, _) => true,
        (Option::Some(_), Option::None) => false,
        (Option::Some(x), Option::Some(y)) => x <= y,
    }
}

} // verus!
