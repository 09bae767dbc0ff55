//! Pure cursor and viewport movement in view coordinates over a layout.
//!
//! Every function tolerates partially resolved cursors: when the input has
//! no resolved view line, it is returned unchanged rather than guessed at.

use vstd::prelude::*;

use crate::cursor::ViewPosition;
use crate::mapping::opt_or;
use crate::view_layout::{first_mapped, Layout};
use crate::viewport::Viewport;

verus! {

/// The highest valid line index of a layout; zero when it has no lines.
pub open spec fn spec_last_line(layout: Layout) -> int {
    if layout.lines@.len() == 0 {
        0
    } else {
        layout.lines@.len() - 1
    }
}

/// A target line clamped into the layout's valid range.
pub open spec fn spec_clamp_line(layout: Layout, t: int) -> int {
    if t < 0 {
        0
    } else if t > spec_last_line(layout) {
        spec_last_line(layout)
    } else {
        t
    }
}

/// The position `move_vertical` returns for a cursor with resolved view
/// coordinates: the line moves by `direction` and is clamped into range,
/// the column is the preferred one when supplied and is deliberately not
/// clamped to the destination line, and the source byte is looked up for
/// the resulting slot.
pub open spec fn spec_move_vertical(
    layout: Layout,
    cursor: ViewPosition,
    preferred_col: Option<usize>,
    direction: int,
) -> ViewPosition {
    let target = spec_clamp_line(layout, opt_or(cursor.view_line, 0) + direction);
    let target_col = opt_or(preferred_col, opt_or(cursor.column, 0));
    ViewPosition {
        view_line: Some(target as usize),
        column: Some(target_col),
        source_byte: layout.spec_source_at(target, target_col as int),
    }
}

/// Saturating magnitude of a downward step.
fn negative_magnitude(direction: isize) -> (r: usize)
    requires
        direction < 0,
    ensures
        r == -(direction as int),
{
    if direction == isize::MIN {
        (isize::MAX as usize) + 1
    } else {
        (-direction) as usize
    }
}

/// Clamp a saturating offset from `base` into the layout's line range.
fn clamped_target(layout: &Layout, base: usize, direction: isize, magnitude: usize) -> (r: usize)
    requires
        direction >= 0 ==> magnitude == direction as int,
        direction < 0 ==> magnitude == -(direction as int),
    ensures
        r == spec_clamp_line(*layout, base + direction as int),
{
    let last = if layout.lines.len() == 0 {
        0
    } else {
        layout.lines.len() - 1
    };
    if direction >= 0 {
        let raw = base.saturating_add(magnitude);
        if raw > last {
            last
        } else {
            raw
        }
    } else {
        let raw = base.saturating_sub(magnitude);
        if raw > last {
            last
        } else {
            raw
        }
    }
}

/// Move vertically by view lines, preserving the preferred column when one
/// is provided; a cursor without resolved view coordinates is unchanged.
pub fn move_vertical(
    layout: &Layout,
    cursor: &ViewPosition,
    preferred_col: Option<usize>,
    direction: isize,
) -> (r: ViewPosition)
    ensures
        cursor.view_line is None ==> r == *cursor,
        cursor.view_line is Some ==> r == spec_move_vertical(
            *layout,
            *cursor,
            preferred_col,
            direction as int,
        ),
        cursor.view_line is Some && layout.lines@.len() > 0 ==> (r.view_line matches Some(l)
            && l < layout.lines@.len()),
{
    let current_line = match cursor.view_line {
        Option::Some(l) => l,
        Option::None => {
            return *cursor;
        },
    };
    let current_col = match cursor.column {
        Option::Some(c) => c,
        Option::None => 0,
    };
    let magnitude = if direction >= 0 {
        direction as usize
    } else {
        negative_magnitude(direction)
    };
    let target_line = clamped_target(layout, current_line, direction, magnitude);
    let target_col = match preferred_col {
        Option::Some(p) => p,
        Option::None => current_col,
    };
    ViewPosition {
        view_line: Option::Some(target_line),
        column: Option::Some(target_col),
        source_byte: layout.view_position_to_source_byte(target_line, target_col),
    }
}

/// The position `move_horizontal` returns for a cursor with resolved view
/// coordinates: within the current line the column moves by `direction`
/// and is clamped to the line's slot count (which includes the slot of an
/// embedded newline); moving right past the end crosses to the start of
/// the next line, and moving left from column zero crosses to the end of
/// the previous one.
pub open spec fn spec_move_horizontal(
    layout: Layout,
    cursor: ViewPosition,
    direction: int,
) -> ViewPosition {
    let current_col = opt_or(cursor.column, 0);
    let line_idx = if opt_or(cursor.view_line, 0) > spec_last_line(layout) {
        spec_last_line(layout)
    } else {
        opt_or(cursor.view_line, 0) as int
    };
    let line_len = layout.spec_line_len(line_idx);
    let raw_col = if current_col + direction < 0 {
        0
    } else {
        current_col + direction
    };
    if direction > 0 && raw_col >= line_len && line_idx + 1 < layout.lines@.len() {
        ViewPosition {
            view_line: Some((line_idx + 1) as usize),
            column: Some(0usize),
            source_byte: layout.spec_source_at(line_idx + 1, 0),
        }
    } else if direction < 0 && current_col == 0 && line_idx > 0 {
        let prev_len = layout.spec_line_len(line_idx - 1);
        ViewPosition {
            view_line: Some((line_idx - 1) as usize),
            column: Some(prev_len as usize),
            source_byte: layout.spec_source_at(line_idx - 1, prev_len),
        }
    } else {
        let target_col = if raw_col > line_len {
            line_len
        } else {
            raw_col
        };
        ViewPosition {
            view_line: Some(line_idx as usize),
            column: Some(target_col as usize),
            source_byte: layout.spec_source_at(line_idx, target_col),
        }
    }
}

/// Move horizontally, crossing line boundaries when needed; a cursor
/// without resolved view coordinates is unchanged.
pub fn move_horizontal(layout: &Layout, cursor: &ViewPosition, direction: isize) -> (r:
    ViewPosition)
    ensures
        cursor.view_line is None ==> r == *cursor,
        cursor.view_line is Some ==> r == spec_move_horizontal(*layout, *cursor, direction as int),
        cursor.view_line is Some && layout.lines@.len() > 0 ==> (r.view_line matches Some(l)
            && l < layout.lines@.len()),
{
    let current_line = match cursor.view_line {
        Option::Some(l) => l,
        Option::None => {
            return *cursor;
        },
    };
    let current_col = match cursor.column {
        Option::Some(c) => c,
        Option::None => 0,
    };

    let last = if layout.lines.len() == 0 {
        0
    } else {
        layout.lines.len() - 1
    };
    let line_idx = if current_line > last {
        last
    } else {
        current_line
    };
    let line_len = if line_idx < layout.lines.len() {
        self_line_len(layout, line_idx)
    } else {
        0
    };
    let raw_col = if direction >= 0 {
        current_col.saturating_add(direction as usize)
    } else {
        current_col.saturating_sub(negative_magnitude(direction))
    };
    proof {
        // Saturation only happens beyond every bound the comparisons use.
        let sum = current_col as int + direction as int;
        let true_raw: int = if sum < 0 {
            0
        } else {
            sum
        };
        if true_raw > usize::MAX {
            assert(raw_col == usize::MAX);
        } else {
            assert(raw_col == true_raw);
        }
    }

    // Crossing to the next line: the slot count includes the newline, so
    // moving right past it leaves the line.
    if direction > 0 && raw_col >= line_len && line_idx + 1 < layout.lines.len() {
        let next_line_idx = line_idx + 1;
        return ViewPosition {
            view_line: Option::Some(next_line_idx),
            column: Option::Some(0),
            source_byte: layout.view_position_to_source_byte(next_line_idx, 0),
        };
    }

    // Crossing to the end of the previous line, newline slot included.
    if direction < 0 && current_col == 0 && line_idx > 0 {
        let prev_line_idx = line_idx - 1;
        let prev_line_len = self_line_len(layout, prev_line_idx);
        return ViewPosition {
            view_line: Option::Some(prev_line_idx),
            column: Option::Some(prev_line_len),
            source_byte: layout.view_position_to_source_byte(prev_line_idx, prev_line_len),
        };
    }

    let target_col = if raw_col > line_len {
        line_len
    } else {
        raw_col
    };
    ViewPosition {
        view_line: Option::Some(line_idx),
        column: Option::Some(target_col),
        source_byte: layout.view_position_to_source_byte(line_idx, target_col),
    }
}

/// Slot count of a line known to be in range.
fn self_line_len(layout: &Layout, line_idx: usize) -> (r: usize)
    requires
        line_idx < layout.lines@.len(),
    ensures
        r == layout.spec_line_len(line_idx as int),
{
    layout.lines[line_idx].char_mappings.len()
}

/// Move to the start of the current view line; the cursor is unchanged
/// when its view coordinates are not resolved.
pub fn move_line_start(layout: &Layout, cursor: &ViewPosition) -> (r: ViewPosition)
    ensures
        cursor.view_line is None ==> r == *cursor,
        cursor.view_line is Some ==> {
            let line_idx = if opt_or(cursor.view_line, 0) > spec_last_line(*layout) {
                spec_last_line(*layout)
            } else {
                opt_or(cursor.view_line, 0) as int
            };
            &&& r.view_line == Some(line_idx as usize)
            &&& r.column == Some(0usize)
            &&& r.source_byte == layout.spec_source_at(line_idx, 0)
        },
{
    let current_line = match cursor.view_line {
        Option::Some(l) => l,
        Option::None => {
            return *cursor;
        },
    };
    let last = if layout.lines.len() == 0 {
        0
    } else {
        layout.lines.len() - 1
    };
    let line_idx = if current_line > last {
        last
    } else {
        current_line
    };
    ViewPosition {
        view_line: Option::Some(line_idx),
        column: Option::Some(0),
        source_byte: layout.view_position_to_source_byte(line_idx, 0),
    }
}

/// Move to the end of the current view line: the column lands after the
/// last character slot, not on it, which is where end-of-line insertion
/// happens; the cursor is unchanged when its view coordinates are not
/// resolved.
pub fn move_line_end(layout: &Layout, cursor: &ViewPosition) -> (r: ViewPosition)
    ensures
        cursor.view_line is None ==> r == *cursor,
        cursor.view_line is Some ==> {
            let line_idx = if opt_or(cursor.view_line, 0) > spec_last_line(*layout) {
                spec_last_line(*layout)
            } else {
                opt_or(cursor.view_line, 0) as int
            };
            let line_len = layout.spec_line_len(line_idx);
            &&& r.view_line == Some(line_idx as usize)
            &&& r.column == Some(line_len as usize)
            &&& r.source_byte == layout.spec_source_at(line_idx, line_len)
        },
{
    let current_line = match cursor.view_line {
        Option::Some(l) => l,
        Option::None => {
            return *cursor;
        },
    };
    let last = if layout.lines.len() == 0 {
        0
    } else {
        layout.lines.len() - 1
    };
    let line_idx = if current_line > last {
        last
    } else {
        current_line
    };
    let line_len = if line_idx < layout.lines.len() {
        self_line_len(layout, line_idx)
    } else {
        0
    };
    ViewPosition {
        view_line: Option::Some(line_idx),
        column: Option::Some(line_len),
        source_byte: layout.view_position_to_source_byte(line_idx, line_len),
    }
}

/// Move by a page: one less than the viewport height, so one line of
/// context stays visible; the current column is carried as the preferred
/// one, so paging preserves it rather than an externally tracked sticky
/// column.
pub fn move_page(
    layout: &Layout,
    cursor: &ViewPosition,
    viewport: &Viewport,
    direction: isize,
) -> (r: ViewPosition)
    ensures
        cursor.view_line is None ==> r == *cursor,
        cursor.view_line is Some ==> r == spec_move_vertical(
            *layout,
            *cursor,
            cursor.column,
            (if viewport.height == 0 {
                0int
            } else {
                viewport.height as int - 1
            }) * direction as int,
        ),
        cursor.view_line is Some && layout.lines@.len() > 0 ==> (r.view_line matches Some(l)
            && l < layout.lines@.len()),
{
    let current_line = match cursor.view_line {
        Option::Some(l) => l,
        Option::None => {
            return *cursor;
        },
    };
    let current_col = match cursor.column {
        Option::Some(c) => c,
        Option::None => 0,
    };
    let page = viewport.visible_line_count().saturating_sub(1);
    let ghost delta = page as int * direction as int;
    let magnitude = match page.checked_mul(
        if direction >= 0 {
            direction as usize
        } else {
            negative_magnitude(direction)
        },
    ) {
        Option::Some(m) => m,
        Option::None => usize::MAX,
    };
    let last = if layout.lines.len() == 0 {
        0
    } else {
        layout.lines.len() - 1
    };
    let target_line = if direction >= 0 {
        let raw = current_line.saturating_add(magnitude);
        if raw > last {
            last
        } else {
            raw
        }
    } else {
        let raw = current_line.saturating_sub(magnitude);
        if raw > last {
            last
        } else {
            raw
        }
    };
    proof {
        lemma_page_clamp(
            *layout,
            current_line as int,
            page as int,
            direction as int,
            magnitude as int,
            target_line as int,
        );
    }
    ViewPosition {
        view_line: Option::Some(target_line),
        column: Option::Some(current_col),
        source_byte: layout.view_position_to_source_byte(target_line, current_col),
    }
}

proof fn lemma_page_clamp(
    layout: Layout,
    base: int,
    page: int,
    direction: int,
    magnitude: int,
    target: int,
)
    requires
        0 <= base <= usize::MAX,
        0 <= page,
        0 <= spec_last_line(layout) <= usize::MAX,
        magnitude == if page * (if direction >= 0 {
            direction
        } else {
            -direction
        }) > usize::MAX {
            usize::MAX as int
        } else {
            page * (if direction >= 0 {
                direction
            } else {
                -direction
            })
        },
        target == ({
            let raw = if direction >= 0 {
                if base + magnitude > usize::MAX {
                    usize::MAX as int
                } else {
                    base + magnitude
                }
            } else {
                if base - magnitude < 0 {
                    0int
                } else {
                    base - magnitude
                }
            };
            if raw > spec_last_line(layout) {
                spec_last_line(layout)
            } else {
                raw
            }
        }),
    ensures
        target == spec_clamp_line(layout, base + page * direction),
{
    let lastl = spec_last_line(layout);
    if direction >= 0 {
        assert(page * direction >= 0) by (nonlinear_arith)
            requires
                page >= 0,
                direction >= 0,
        ;
        let pd = page * direction;
        if pd > usize::MAX {
            assert(magnitude == usize::MAX as int);
            assert(base + pd > usize::MAX >= lastl);
            assert(target == lastl);
        } else {
            assert(magnitude == pd);
        }
    } else {
        assert(page * (-direction) >= 0 && page * direction == -(page * (-direction)))
            by (nonlinear_arith)
            requires
                page >= 0,
                direction < 0,
        ;
        let m = page * (-direction);
        if m > usize::MAX {
            assert(magnitude == usize::MAX as int);
            assert(base + page * direction == base - m < 0);
            assert(target == 0);
        } else {
            assert(magnitude == m);
        }
    }
}

/// Scroll the viewport by whole view lines: the top line is clamped so
/// the view never scrolls past the layout's last page, and the anchor
/// byte follows the new top line whenever the layout can resolve one.
pub fn scroll_view(layout: &Layout, viewport: &mut Viewport, line_offset: isize)
    ensures
        ({
            let max_top = if layout.lines@.len() > old(viewport).height as int {
                layout.lines@.len() - old(viewport).height as int
            } else {
                0int
            };
            let raw = old(viewport).top_view_line + line_offset as int;
            let target = if raw < 0 {
                0int
            } else if raw > max_top {
                max_top
            } else {
                raw
            };
            &&& final(viewport).top_view_line == target
            &&& final(viewport).anchor_byte == (if target < layout.lines@.len() && first_mapped(
                layout.lines@[target].char_mappings@,
                0,
            ) is Some {
                opt_or(first_mapped(layout.lines@[target].char_mappings@, 0), 0)
            } else {
                old(viewport).anchor_byte
            })
            &&& final(viewport).width == old(viewport).width
            &&& final(viewport).height == old(viewport).height
        }),
{
    let max_top = layout.max_top_line(viewport.visible_line_count());
    let raw = if line_offset >= 0 {
        viewport.top_view_line.saturating_add(line_offset as usize)
    } else {
        viewport.top_view_line.saturating_sub(negative_magnitude(line_offset))
    };
    let target = if raw > max_top {
        max_top
    } else {
        raw
    };
    viewport.top_view_line = target;
    match layout.get_source_byte_for_line(target) {
        Option::Some(byte) => {
            viewport.anchor_byte = byte;
        },
        Option::None => {},
    }
}

/// The word-boundary classifier the editor consumes: it finds word starts
/// over the layout and the underlying document. The classification itself
/// is a collaborator's responsibility; this crate only fixes the boundary.
pub trait WordNavigation {
    /// The view position of the previous word start from `cursor`.
    fn find_word_start_left_view(&self, layout: &Layout, cursor: &ViewPosition) -> ViewPosition;

    /// The view position of the next word start from `cursor`.
    fn find_word_start_right_view(&self, layout: &Layout, cursor: &ViewPosition) -> ViewPosition;
}

/// Move to the start of the previous word, as the buffer's word-boundary
/// classifier decides it.
pub fn move_word_left<B: WordNavigation>(
    layout: &Layout,
    cursor: &ViewPosition,
    buffer: &B,
) -> ViewPosition {
    buffer.find_word_start_left_view(layout, cursor)
}

/// Move to the start of the next word, as the buffer's word-boundary
/// classifier decides it.
pub fn move_word_right<B: WordNavigation>(
    layout: &Layout,
    cursor: &ViewPosition,
    buffer: &B,
) -> ViewPosition {
    buffer.find_word_start_right_view(layout, cursor)
}

} // verus!
