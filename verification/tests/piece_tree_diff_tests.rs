use std::sync::Arc;

use editor_core::piece_tree::{BufferLocation, LeafData, PieceTreeNode};
use editor_core::piece_tree_diff::{diff_piece_trees, sum_bytes, sum_line_feeds};

fn leaf(loc: BufferLocation, offset: usize, bytes: usize, lfs: Option<usize>) -> LeafData {
    LeafData::new(loc, offset, bytes, lfs)
}

// Minimal balanced builder for tests.
fn build(leaves: &[LeafData]) -> Arc<PieceTreeNode> {
    if leaves.is_empty() {
        return Arc::new(PieceTreeNode::Leaf {
            location: BufferLocation::Stored(0),
            offset: 0,
            bytes: 0,
            line_feed_cnt: Some(0),
        });
    }
    if leaves.len() == 1 {
        let l = leaves[0];
        return Arc::new(PieceTreeNode::Leaf {
            location: l.location,
            offset: l.offset,
            bytes: l.bytes,
            line_feed_cnt: l.line_feed_cnt,
        });
    }

    let mid = leaves.len() / 2;
    let left = build(&leaves[..mid]);
    let right = build(&leaves[mid..]);

    Arc::new(PieceTreeNode::Internal {
        left_bytes: sum_bytes(&leaves[..mid]),
        lf_left: sum_line_feeds(&leaves[..mid]),
        left,
        right,
    })
}

#[test]
fn detects_identical_trees() {
    let leaves = vec![leaf(BufferLocation::Stored(0), 0, 10, Some(0))];
    let before = build(&leaves);
    let after = build(&leaves);

    let diff = diff_piece_trees(&before, &after);
    assert!(diff.equal);
    assert_eq!(diff.byte_range, 0..0);
    assert_eq!(diff.line_range, Some(0..0));
}

#[test]
fn detects_single_line_change() {
    let before = build(&[leaf(BufferLocation::Stored(0), 0, 5, Some(0))]);
    let after = build(&[leaf(BufferLocation::Added(1), 0, 5, Some(0))]);

    let diff = diff_piece_trees(&before, &after);
    assert!(!diff.equal);
    assert_eq!(diff.byte_range, 0..5);
    assert_eq!(diff.line_range, Some(0..1)); // same line, different content
}

#[test]
fn tracks_newlines_in_changed_span() {
    let before = build(&[leaf(BufferLocation::Stored(0), 0, 6, Some(0))]);
    let after = build(&[leaf(BufferLocation::Added(1), 0, 6, Some(1))]); // introduces a newline

    let diff = diff_piece_trees(&before, &after);
    assert!(!diff.equal);
    assert_eq!(diff.byte_range, 0..6);
    assert_eq!(diff.line_range, Some(0..2)); // spans two lines after change
}

#[test]
fn handles_deletion_by_marking_anchor_line() {
    let before = build(&[
        leaf(BufferLocation::Stored(0), 0, 6, Some(1)), // two lines
        leaf(BufferLocation::Stored(0), 6, 4, Some(0)), // trailing text
    ]);
    let after = build(&[leaf(BufferLocation::Stored(0), 0, 6, Some(1))]);

    let diff = diff_piece_trees(&before, &after);
    assert!(!diff.equal);
    assert_eq!(diff.byte_range, 6..6); // no bytes remain at the change site
    assert_eq!(diff.line_range, Some(1..2)); // anchor on the line after the removed span
}

#[test]
fn reports_exact_changed_span_for_middle_replacement() {
    // Leaves [A, B, C] against [A, X, C]: only the middle leaf changed, so
    // the reported bytes cover exactly the replacing leaf in the after tree.
    let a = leaf(BufferLocation::Stored(0), 0, 5, Some(0));
    let b = leaf(BufferLocation::Stored(0), 5, 7, Some(1));
    let x = leaf(BufferLocation::Added(0), 0, 9, Some(2));
    let c = leaf(BufferLocation::Stored(0), 12, 3, Some(0));

    let before = build(&[a, b, c]);
    let after = build(&[a, x, c]);

    let diff = diff_piece_trees(&before, &after);
    assert!(!diff.equal);
    assert_eq!(diff.byte_range, 5..14);
    assert_eq!(diff.line_range, Some(0..3));
}

#[test]
fn unknown_newline_count_poisons_line_range() {
    let a = leaf(BufferLocation::Stored(0), 0, 5, None); // unscanned prefix
    let before = build(&[a, leaf(BufferLocation::Stored(0), 5, 2, Some(0))]);
    let after = build(&[a, leaf(BufferLocation::Added(0), 0, 2, Some(0))]);

    let diff = diff_piece_trees(&before, &after);
    assert!(!diff.equal);
    assert_eq!(diff.byte_range, 5..7);
    assert_eq!(diff.line_range, None);
}

#[test]
fn diff_summary_clones_intact() {
    let before = build(&[leaf(BufferLocation::Stored(0), 0, 5, Some(0))]);
    let after = build(&[leaf(BufferLocation::Added(1), 0, 5, Some(0))]);
    let diff = diff_piece_trees(&before, &after);
    let copy = diff.clone();
    assert_eq!(copy, diff);
    assert_eq!(copy.byte_range, 0..5);
}

#[test]
fn pure_insertion_at_end_is_localized() {
    let a = leaf(BufferLocation::Stored(0), 0, 8, Some(0));
    let b = leaf(BufferLocation::Added(0), 0, 4, Some(1));

    let before = build(&[a]);
    let after = build(&[a, b]);

    let diff = diff_piece_trees(&before, &after);
    assert!(!diff.equal);
    assert_eq!(diff.byte_range, 8..12);
    assert_eq!(diff.line_range, Some(0..2));
}
