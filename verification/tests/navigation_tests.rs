use editor_core::cursor::ViewPosition;
use editor_core::edit_map::{view_pos_to_buffer_byte, view_range_to_buffer_range};
use editor_core::layout_nav::{
    move_horizontal, move_line_end, move_line_start, move_page, move_vertical, scroll_view,
};
use editor_core::mapping::{source_to_view_pos, view_pos_to_source};
use editor_core::view_layout::{Layout, LineStart, ViewLine};
use editor_core::viewport::Viewport;

/// Create a simple test layout with the given line contents.
fn make_test_layout(lines: &[&str]) -> Layout {
    let view_lines: Vec<ViewLine> = lines
        .iter()
        .enumerate()
        .map(|(idx, content)| {
            let has_newline = idx < lines.len() - 1; // All but last line have newlines
            let mut char_mappings: Vec<Option<usize>> = Vec::new();
            let mut byte_offset = lines[..idx].iter().map(|l| l.len() + 1).sum::<usize>(); // +1 for newlines

            for ch in content.chars() {
                char_mappings.push(Some(byte_offset));
                byte_offset += ch.len_utf8();
            }

            // Add newline mapping if line has newline
            if has_newline {
                char_mappings.push(Some(byte_offset));
            }

            ViewLine {
                text: if has_newline {
                    format!("{}\n", content)
                } else {
                    content.to_string()
                },
                char_mappings,
                line_start: LineStart::Beginning,
                ends_with_newline: has_newline,
            }
        })
        .collect();

    let total_bytes: usize =
        lines.iter().map(|l| l.len()).sum::<usize>() + lines.len().saturating_sub(1);
    Layout::new(view_lines, 0..total_bytes)
}

fn cursor_at(line: usize, column: usize) -> ViewPosition {
    ViewPosition {
        view_line: Some(line),
        column: Some(column),
        source_byte: None,
    }
}

// Unit test: move right from end of line crosses to next line
#[test]
fn test_move_horizontal_crosses_to_next_line() {
    let layout = make_test_layout(&["Hello", "World"]);
    // "Hello" has 5 chars + 1 newline = 6 char_mappings
    let line_len = layout.lines[0].char_mappings.len();
    assert_eq!(line_len, 6); // H, e, l, l, o, \n

    // Cursor at end of line 0 (at the newline position)
    let cursor = ViewPosition {
        view_line: Some(0),
        column: Some(5), // At '\n'
        source_byte: Some(5),
    };

    let result = move_horizontal(&layout, &cursor, 1);
    assert_eq!(result.view_line, Some(1), "Should cross to line 1");
    assert_eq!(result.column, Some(0), "Should be at start of line 1");
}

// Unit test: move left from start of line crosses to previous line
#[test]
fn test_move_horizontal_crosses_to_prev_line() {
    let layout = make_test_layout(&["Hello", "World"]);

    // Cursor at start of line 1
    let cursor = ViewPosition {
        view_line: Some(1),
        column: Some(0),
        source_byte: Some(6),
    };

    let result = move_horizontal(&layout, &cursor, -1);
    assert_eq!(result.view_line, Some(0), "Should cross to line 0");
    // Should be at end of line 0 (including newline)
    let expected_col = layout.lines[0].char_mappings.len();
    assert_eq!(result.column, Some(expected_col), "Should be at end of line 0");
}

// Unit test: move right stays on line when not at end
#[test]
fn test_move_horizontal_stays_on_line() {
    let layout = make_test_layout(&["Hello", "World"]);

    let cursor = ViewPosition {
        view_line: Some(0),
        column: Some(2), // At 'l'
        source_byte: Some(2),
    };

    let result = move_horizontal(&layout, &cursor, 1);
    assert_eq!(result.view_line, Some(0), "Should stay on line 0");
    assert_eq!(result.column, Some(3), "Should move to column 3");
}

// Unit test: move_line_end on multi-line layout
#[test]
fn test_move_line_end_multiline() {
    let layout = make_test_layout(&["Hello", "World!", "Test"]);

    // Line 1 has "World!" + newline = 7 chars
    let cursor = ViewPosition {
        view_line: Some(1),
        column: Some(0),
        source_byte: None,
    };

    let result = move_line_end(&layout, &cursor);
    assert_eq!(result.view_line, Some(1));
    assert_eq!(result.column, Some(layout.lines[1].char_mappings.len()));
}

#[test]
fn test_move_line_start_always_column_zero() {
    let layout = make_test_layout(&["Hello", "World", "Test"]);
    for line in 0..5usize {
        for column in [0usize, 3, 50] {
            let result = move_line_start(&layout, &cursor_at(line, column));
            assert_eq!(result.column, Some(0));
            assert!(result.view_line.unwrap() < layout.lines.len());
        }
    }
}

#[test]
fn test_move_line_end_column_is_line_len() {
    let layout = make_test_layout(&["Hello", "World", "Test"]);
    for line in 0..3usize {
        let result = move_line_end(&layout, &cursor_at(line, 99));
        let expected = layout.lines[result.view_line.unwrap()].char_mappings.len();
        assert_eq!(result.column, Some(expected));
    }
}

#[test]
fn test_move_vertical_clamps_to_valid_range() {
    let layout = make_test_layout(&["Line1", "Line2", "Line3"]);
    for line in [0usize, 1, 2, 50] {
        for direction in [-100isize, -1, 0, 1, 100] {
            let result = move_vertical(&layout, &cursor_at(line, 2), Some(2), direction);
            assert!(result.view_line.unwrap() < layout.lines.len());
        }
    }
}

#[test]
fn test_move_vertical_keeps_preferred_column() {
    let layout = make_test_layout(&["Hello", "Hi", "World"]);
    let result = move_vertical(&layout, &cursor_at(0, 4), Some(4), 1);
    assert_eq!(result.view_line, Some(1));
    // The column is not clamped to the destination line's length.
    assert_eq!(result.column, Some(4));
    // The source byte lookup fails off the end of the shorter line's slots...
    assert_eq!(result.source_byte, None);
    // ...but succeeds where the slot exists.
    let on_slot = move_vertical(&layout, &cursor_at(0, 1), Some(1), 1);
    assert_eq!(on_slot.source_byte, Some(7));
}

#[test]
fn test_move_horizontal_never_leaves_layout() {
    let layout = make_test_layout(&["Hello", "World", "Test"]);
    for line in 0..3usize {
        for column in 0..8usize {
            for direction in [-5isize, -1, 1, 5] {
                let result = move_horizontal(&layout, &cursor_at(line, column), direction);
                assert!(result.view_line.unwrap() < layout.lines.len());
            }
        }
    }
}

#[test]
fn test_unresolved_cursor_is_unchanged() {
    let layout = make_test_layout(&["Hello"]);
    let unresolved = ViewPosition {
        view_line: None,
        column: Some(3),
        source_byte: Some(3),
    };
    assert_eq!(move_vertical(&layout, &unresolved, None, 1), unresolved);
    assert_eq!(move_horizontal(&layout, &unresolved, 1), unresolved);
    assert_eq!(move_line_start(&layout, &unresolved), unresolved);
    assert_eq!(move_line_end(&layout, &unresolved), unresolved);
}

// Scenario: "Hello" occupies 6 char-mapping slots including its newline.
#[test]
fn test_hello_world_crossings() {
    let layout = make_test_layout(&["Hello", "World"]);
    assert_eq!(layout.lines[0].char_mappings.len(), 6);

    let right = move_horizontal(&layout, &cursor_at(0, 5), 1);
    assert_eq!((right.view_line, right.column), (Some(1), Some(0)));

    let left = move_horizontal(&layout, &cursor_at(1, 0), -1);
    assert_eq!((left.view_line, left.column), (Some(0), Some(6)));
}

#[test]
fn test_round_trip_byte_to_view_and_back() {
    let layout = make_test_layout(&["Hello", "World", "Test"]);
    // Every byte of the covered range maps to a view position whose slot
    // maps straight back to the byte.
    for byte in 0..16usize {
        let pos = source_to_view_pos(&layout, byte, None);
        assert_eq!(pos.source_byte, Some(byte));
        assert_eq!(view_pos_to_source(&layout, &pos), Some(byte));
    }
}

#[test]
fn test_source_to_view_pos_fallback_and_preferred_column() {
    let layout = make_test_layout(&["Hello", "World"]);
    // A byte outside the layout falls back to the origin.
    let fallback = source_to_view_pos(&layout, 999, None);
    assert_eq!(fallback.view_line, Some(0));
    assert_eq!(fallback.column, Some(0));
    assert_eq!(fallback.source_byte, Some(999));
    // A preferred column overrides the resolved one.
    let preferred = source_to_view_pos(&layout, 7, Some(4));
    assert_eq!(preferred.view_line, Some(1));
    assert_eq!(preferred.column, Some(4));
}

#[test]
fn test_view_pos_to_buffer_byte_prefers_resolved_byte() {
    let layout = make_test_layout(&["Hello", "World"]);
    let pos = ViewPosition {
        view_line: Some(1),
        column: Some(0),
        source_byte: Some(42),
    };
    assert_eq!(view_pos_to_buffer_byte(&layout, &pos), Some(42));

    let unresolved_byte = ViewPosition {
        view_line: Some(1),
        column: Some(0),
        source_byte: None,
    };
    assert_eq!(view_pos_to_buffer_byte(&layout, &unresolved_byte), Some(6));
}

#[test]
fn test_view_range_to_buffer_range_normalizes() {
    let layout = make_test_layout(&["Hello", "World"]);
    let a = ViewPosition {
        view_line: Some(1),
        column: Some(0),
        source_byte: Some(9),
    };
    let b = ViewPosition {
        view_line: Some(0),
        column: Some(2),
        source_byte: Some(2),
    };
    assert_eq!(view_range_to_buffer_range(&layout, &a, &b), Some(2..9));
    assert_eq!(view_range_to_buffer_range(&layout, &b, &a), Some(2..9));

    let unresolved = ViewPosition {
        view_line: Some(0),
        column: Some(0),
        source_byte: None,
    };
    assert_eq!(view_range_to_buffer_range(&layout, &a, &unresolved), None);
}

#[test]
fn test_move_page_uses_viewport_height() {
    let layout = make_test_layout(&["L0", "L1", "L2", "L3", "L4", "L5", "L6", "L7"]);
    let viewport = Viewport {
        top_view_line: 0,
        anchor_byte: 0,
        width: 80,
        height: 4,
    };
    let down = move_page(&layout, &cursor_at(0, 1), &viewport, 1);
    assert_eq!(down.view_line, Some(3)); // height - 1 lines per page

    let up = move_page(&layout, &down, &viewport, -1);
    assert_eq!(up.view_line, Some(0));

    let far = move_page(&layout, &cursor_at(0, 0), &viewport, 100);
    assert_eq!(far.view_line, Some(7)); // clamped to the last line
}

#[test]
fn test_scroll_view_clamps_and_anchors() {
    let layout = make_test_layout(&["L0", "L1", "L2", "L3", "L4", "L5"]);
    let mut viewport = Viewport {
        top_view_line: 0,
        anchor_byte: 0,
        width: 80,
        height: 2,
    };
    scroll_view(&layout, &mut viewport, 3);
    assert_eq!(viewport.top_view_line, 3);
    assert_eq!(viewport.anchor_byte, 9); // first byte of line 3

    scroll_view(&layout, &mut viewport, 100);
    assert_eq!(viewport.top_view_line, 4); // len - height

    scroll_view(&layout, &mut viewport, -100);
    assert_eq!(viewport.top_view_line, 0);
    assert_eq!(viewport.anchor_byte, 0);
}

#[test]
fn test_max_top_line() {
    let layout = make_test_layout(&["L0", "L1", "L2", "L3"]);
    assert_eq!(layout.max_top_line(2), 2);
    assert_eq!(layout.max_top_line(4), 0);
    assert_eq!(layout.max_top_line(10), 0);
}
