//! Wrap-aware projection of a byte range of the document into display lines.
//!
//! A `Layout` is built by the surrounding view pipeline as an immutable
//! snapshot over one tree version; this module defines its data and its
//! pure query functions. Each display line keeps, per character slot, the
//! source byte it was rendered from, so positions convert both ways.

use std::ops::Range;
use vstd::prelude::*;

verus! {

/// Whether a display line starts a hard line or continues a wrapped one.
#[derive(Debug, Clone, Copy, PartialEq, Eq, Structural)]
pub enum LineStart {
    /// The line begins at a hard line start in the document.
    Beginning,
    /// The line continues a line wrapped above it.
    WrapContinuation,
}

/// One row of wrapped, on-screen text.
#[derive(Debug, Clone)]
pub struct ViewLine {
    /// The rendered text of the row.
    pub text: String,
    /// One entry per character slot: the source byte it maps to, or `None`
    /// for slots with no direct source byte, such as a wrap marker.
    pub char_mappings: Vec<Option<usize>>,
    /// Whether the row starts a hard line or continues a wrapped one.
    pub line_start: LineStart,
    /// Whether the row ends with a real newline of the document.
    pub ends_with_newline: bool,
}

/// A materialized projection of a byte range into display lines.
#[derive(Debug, Clone)]
pub struct Layout {
    /// The display lines, in order.
    pub lines: Vec<ViewLine>,
    /// The byte range of the document this layout covers.
    pub covered: Range<usize>,
}

/// First column at or after `from` in `m` that maps to `byte`.
pub open spec fn col_match(m: Seq<Option<usize>>, byte: usize, from: int) -> Option<int>
    decreases m.len() - from,
{
    if from < 0 || from >= m.len() {
        Option::None
    } else if m[from] == Some(byte) {
        Option::Some(from)
    } else {
        col_match(m, byte, from + 1)
    }
}

/// First `(line, column)` at or after line `from` that maps to `byte`.
pub open spec fn line_match(lines: Seq<ViewLine>, byte: usize, from: int) -> Option<(int, int)>
    decreases lines.len() - from,
{
    if from < 0 || from >= lines.len() {
        Option::None
    } else {
        match col_match(lines[from].char_mappings@, byte, 0) {
            Option::Some(c) => Option::Some((from, c)),
            Option::None => line_match(lines, byte, from + 1),
        }
    }
}

/// First mapped source byte at or after column `from` of a line.
pub open spec fn first_mapped(m: Seq<Option<usize>>, from: int) -> Option<usize>
    decreases m.len() - from,
{
    if from < 0 || from >= m.len() {
        Option::None
    } else {
        match m[from] {
            Option::Some(b) => Option::Some(b),
            Option::None => first_mapped(m, from + 1),
        }
    }
}

impl Layout {
    /// Package display lines covering the given byte range.
    pub fn new(lines: Vec<ViewLine>, covered: Range<usize>) -> (r: Layout)
        ensures
            r.lines == lines,
            r.covered.start == covered.start,
            r.covered.end == covered.end,
    {
        Layout { lines, covered }
    }

    /// The source byte a view position maps to, if the position is within
    /// the layout and its slot carries one.
    pub open spec fn spec_source_at(self, line: int, col: int) -> Option<usize> {
        if 0 <= line < self.lines@.len() && 0 <= col < self.lines@[line].char_mappings@.len() {
            self.lines@[line].char_mappings@[col]
        } else {
            Option::None
        }
    }

    /// The first `(line, column)` whose slot maps exactly to `byte`.
    pub open spec fn spec_byte_to_view(self, byte: usize) -> Option<(int, int)> {
        line_match(self.lines@, byte, 0)
    }

    /// Character slots of line `line`, zero for a line out of range.
    pub open spec fn spec_line_len(self, line: int) -> int {
        if 0 <= line < self.lines@.len() {
            self.lines@[line].char_mappings@.len() as int
        } else {
            0
        }
    }

    /// Look up the source byte for a `(view_line, column)` slot.
    pub fn view_position_to_source_byte(&self, view_line: usize, column: usize) -> (r: Option<
        usize,
    >)
        ensures
            r == self.spec_source_at(view_line as int, column as int),
    {
        if view_line < self.lines.len() {
            let mappings = &self.lines[view_line].char_mappings;
            if column < mappings.len() {
                mappings[column]
            } else {
                Option::None
            }
        } else {
            Option::None
        }
    }

    /// Find the first `(view_line, column)` that maps exactly to `byte`.
    pub fn source_byte_to_view_position(&self, byte: usize) -> (r: Option<(usize, usize)>)
        ensures
            match self.spec_byte_to_view(byte) {
                Option::None => r is None,
                Option::Some((l, c)) => r == Some((l as usize, c as usize)),
            },
    {
        let n = self.lines.len();
        let mut line: usize = 0;
        while line < n
            invariant
                n == self.lines@.len(),
                line <= n,
                line_match(self.lines@, byte, 0) == line_match(self.lines@, byte, line as int),
            decreases n - line,
        {
            let mappings = &self.lines[line].char_mappings;
            let m = mappings.len();
            let mut col: usize = 0;
            while col < m
                invariant
                    n == self.lines@.len(),
                    line < n,
                    mappings@ == self.lines@[line as int].char_mappings@,
                    m == mappings@.len(),
                    col <= m,
                    line_match(self.lines@, byte, 0) == line_match(self.lines@, byte, line as int),
                    col_match(mappings@, byte, 0) == col_match(mappings@, byte, col as int),
                decreases m - col,
            {
                match mappings[col] {
                    Option::Some(b) if b == byte => {
                        proof {
                            assert(mappings@[col as int] == Some(byte));
                            assert(col_match(mappings@, byte, col as int) == Some(col as int));
                        }
                        return Option::Some((line, col));
                    },
                    _ => {},
                }
                col += 1;
            }
            proof {
                assert(col_match(self.lines@[line as int].char_mappings@, byte, m as int)
                    is None);
            }
            line += 1;
        }
        Option::None
    }

    /// The first source byte mapped on the given view line, if any.
    pub fn get_source_byte_for_line(&self, view_line: usize) -> (r: Option<usize>)
        ensures
            view_line < self.lines@.len() ==> r == first_mapped(
                self.lines@[view_line as int].char_mappings@,
                0,
            ),
            view_line >= self.lines@.len() ==> r is None,
    {
        if view_line >= self.lines.len() {
            return Option::None;
        }
        let mappings = &self.lines[view_line].char_mappings;
        let m = mappings.len();
        let mut col: usize = 0;
        while col < m
            invariant
                view_line < self.lines@.len(),
                mappings@ == self.lines@[view_line as int].char_mappings@,
                m == mappings@.len(),
                col <= m,
                first_mapped(mappings@, 0) == first_mapped(mappings@, col as int),
            decreases m - col,
        {
            match mappings[col] {
                Option::Some(b) => {
                    proof {
                        assert(mappings@[col as int] == Some(b));
                    }
                    return Option::Some(b);
                },
                Option::None => {},
            }
            col += 1;
        }
        Option::None
    }

    /// Highest top line that still fills a viewport of the given height:
    /// the view never scrolls past showing the last lines.
    pub fn max_top_line(&self, visible_line_count: usize) -> (r: usize)
        ensures
            r == if self.lines@.len() > visible_line_count {
                self.lines@.len() - visible_line_count
            } else {
                0int
            },
    {
        if self.lines.len() > visible_line_count {
            self.lines.len() - visible_line_count
        } else {
            0
        }
    }
}

} // verus!
