//! Persistent piece tree: the document as an ordered sequence of pieces.
//!
//! A tree is never mutated in place; edits build new nodes along the path
//! to the edit and share every untouched subtree by reference counting,
//! so older roots stay valid and readable while newer ones exist.

use std::sync::Arc;
use vstd::prelude::*;

verus! {

/// Which immutable backing buffer a piece reads from.
#[derive(Debug, Clone, Copy, PartialEq, Eq, Structural)]
pub enum BufferLocation {
    /// Original content as loaded from disk, by buffer index.
    Stored(usize),
    /// Content accumulated from edits, by buffer index.
    Added(usize),
}

/// Summary of one leaf piece: a contiguous span of one backing buffer.
#[derive(Debug, Clone, Copy)]
pub struct LeafData {
    /// Backing buffer the piece reads from.
    pub location: BufferLocation,
    /// Start offset within that backing buffer.
    pub offset: usize,
    /// Length of the span in bytes.
    pub bytes: usize,
    /// Newline count within the span; `None` when not yet scanned.
    pub line_feed_cnt: Option<usize>,
}

impl LeafData {
    /// Package the four fields of a leaf summary.
    pub fn new(
        location: BufferLocation,
        offset: usize,
        bytes: usize,
        line_feed_cnt: Option<usize>,
    ) -> (r: LeafData)
        ensures
            r == (LeafData { location, offset, bytes, line_feed_cnt }),
    {
        LeafData { location, offset, bytes, line_feed_cnt }
    }
}

/// A node of the persistent piece tree.
pub enum PieceTreeNode {
    /// Interior node: cached byte and newline counts of the left subtree.
    Internal {
        /// Total bytes over all leaves of `left`.
        left_bytes: usize,
        /// Total newlines over all leaves of `left`, `None` when unknown.
        lf_left: Option<usize>,
        /// Left subtree, shared between tree versions.
        left: Arc<PieceTreeNode>,
        /// Right subtree, shared between tree versions.
        right: Arc<PieceTreeNode>,
    },
    /// Leaf node: one piece of one backing buffer.
    Leaf {
        /// Backing buffer the piece reads from.
        location: BufferLocation,
        /// Start offset within that backing buffer.
        offset: usize,
        /// Length of the span in bytes.
        bytes: usize,
        /// Newline count within the span; `None` when not yet scanned.
        line_feed_cnt: Option<usize>,
    },
}

impl PieceTreeNode {
    /// The leaf summaries of the tree, in reading order.
    pub open spec fn leaves(self) -> Seq<LeafData>
        decreases self,
    {
        match self {
            PieceTreeNode::Internal { left, right, .. } => left.leaves() + right.leaves(),
            PieceTreeNode::Leaf { location, offset, bytes, line_feed_cnt } => seq![
                LeafData { location, offset, bytes, line_feed_cnt },
            ],
        }
    }
}

/// Append the leaf summaries of `node`, in reading order, to `out`.
pub fn collect_leaves(node: &Arc<PieceTreeNode>, out: &mut Vec<LeafData>)
    ensures
        final(out)@ == old(out)@ + node.leaves(),
    decreases **node,
{
    match &**node {
        PieceTreeNode::Internal { left, right, .. } => {
            collect_leaves(left, out);
            collect_leaves(right, out);
            assert(out@ =~= old(out)@ + node.leaves());
        },
        PieceTreeNode::Leaf { location, offset, bytes, line_feed_cnt } => {
            out.push(
                LeafData {
                    location: *location,
                    offset: *offset,
                    bytes: *bytes,
                    line_feed_cnt: *line_feed_cnt,
                },
            );
        },
    }
}

} // verus!
