//! Conversions between view positions and source bytes over a layout.

use vstd::prelude::*;

use crate::cursor::ViewPosition;
use crate::view_layout::Layout;

verus! {

/// The coordinate a partially resolved one falls back to.
pub open spec fn opt_or(o: Option<usize>, d: usize) -> usize {
    match o {
        Option::Some(v) => v,
        Option::None => d,
    }
}

/// Convert a view position to a source byte, which requires both view
/// coordinates resolved; otherwise no byte is returned.
pub fn view_pos_to_source(layout: &Layout, pos: &ViewPosition) -> (r: Option<usize>)
    ensures
        pos.view_resolved() ==> r == layout.spec_source_at(
            opt_or(pos.view_line, 0) as int,
            opt_or(pos.column, 0) as int,
        ),
        !pos.view_resolved() ==> r is None,
{
    let view_line = match pos.view_line {
        Option::Some(l) => l,
        Option::None => {
            return Option::None;
        },
    };
    let column = match pos.column {
        Option::Some(c) => c,
        Option::None => {
            return Option::None;
        },
    };
    layout.view_position_to_source_byte(view_line, column)
}

/// Convert a source byte to the nearest view position, falling back to the
/// layout origin when the byte cannot be resolved, and overriding the
/// column with `preferred_col` when one is supplied. The returned position
/// always carries the source byte it was asked about.
pub fn source_to_view_pos(layout: &Layout, source_byte: usize, preferred_col: Option<usize>) -> (r:
    ViewPosition)
    ensures
        ({
            let (l, c): (int, int) = match layout.spec_byte_to_view(source_byte) {
                Option::Some((l, c)) => (l, c),
                Option::None => (0int, 0int),
            };
            &&& r.view_line == Some(l as usize)
            &&& r.column == Some(opt_or(preferred_col, c as usize))
            &&& r.source_byte == Some(source_byte)
        }),
{
    let (line, col) = match layout.source_byte_to_view_position(source_byte) {
        Option::Some(lc) => lc,
        Option::None => (0, 0),
    };
    let col = match preferred_col {
        Option::Some(p) => p,
        Option::None => col,
    };
    ViewPosition { view_line: Option::Some(line), column: Option::Some(col), source_byte: Option::Some(source_byte) }
}

/// Round trip: a byte the layout resolves to some view position is exactly
/// the byte that position's slot maps back to, so converting a resolvable
/// byte to a view position and back yields the byte again.
pub proof fn lemma_byte_view_round_trip(layout: Layout, byte: usize)
    ensures
        layout.spec_byte_to_view(byte) matches Some((l, c)) ==> layout.spec_source_at(l, c)
            == Some(byte),
{
    lemma_line_match_sound(layout.lines@, byte, 0);
}

proof fn lemma_col_match_sound(m: Seq<Option<usize>>, byte: usize, from: int)
    ensures
        crate::view_layout::col_match(m, byte, from) matches Some(c) ==> from <= c < m.len()
            && m[c] == Some(byte),
    decreases m.len() - from,
{
    if 0 <= from && from < m.len() && m[from] != Some(byte) {
        lemma_col_match_sound(m, byte, from + 1);
    }
}

proof fn lemma_line_match_sound(lines: Seq<crate::view_layout::ViewLine>, byte: usize, from: int)
    ensures
        crate::view_layout::line_match(lines, byte, from) matches Some((l, c)) ==> {
            &&& from <= l < lines.len()
            &&& 0 <= c < lines[l].char_mappings@.len()
            &&& lines[l].char_mappings@[c] == Some(byte)
        },
    decreases lines.len() - from,
{
    if 0 <= from && from < lines.len() {
        lemma_col_match_sound(lines[from].char_mappings@, byte, 0);
        lemma_line_match_sound(lines, byte, from + 1);
    }
}

} // verus!
