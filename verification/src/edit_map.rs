//! Mapping of view positions to document byte ranges for editing.

use std::ops::Range;
use vstd::prelude::*;

use crate::cursor::ViewPosition;
use crate::mapping::opt_or;
use crate::view_layout::Layout;

verus! {

/// Map a view-position range to a normalized buffer byte range; defined
/// only when both endpoints already carry a resolved source byte.
pub fn view_range_to_buffer_range(layout: &Layout, start: &ViewPosition, end: &ViewPosition) -> (r:
    Option<Range<usize>>)
    ensures
        start.source_byte is Some && end.source_byte is Some ==> {
            let s = opt_or(start.source_byte, 0);
            let e = opt_or(end.source_byte, 0);
            &&& r matches Some(range)
            &&& range.start == if s <= e {
                s
            } else {
                e
            }
            &&& range.end == if s <= e {
                e
            } else {
                s
            }
        },
        !(start.source_byte is Some && end.source_byte is Some) ==> r is None,
{
    match (start.source_byte, end.source_byte) {
        (Option::Some(s), Option::Some(e)) => {
            if s <= e {
                Option::Some(Range { start: s, end: e })
            } else {
                Option::Some(Range { start: e, end: s })
            }
        },
        _ => Option::None,
    }
}

/// Map a single view position to a buffer byte: an already resolved source
/// byte is preferred; otherwise the layout resolves the view coordinates.
pub fn view_pos_to_buffer_byte(layout: &Layout, pos: &ViewPosition) -> (r: Option<usize>)
    ensures
        pos.source_byte is Some ==> r == pos.source_byte,
        pos.source_byte is None && pos.view_resolved() ==> r == layout.spec_source_at(
            opt_or(pos.view_line, 0) as int,
            opt_or(pos.column, 0) as int,
        ),
        pos.source_byte is None && !pos.view_resolved() ==> r is None,
{
    match pos.source_byte {
        Option::Some(b) => Option::Some(b),
        Option::None => crate::mapping::view_pos_to_source(layout, pos),
    }
}

} // verus!
