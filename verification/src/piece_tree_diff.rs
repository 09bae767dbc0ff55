//! Shallow diff of two piece tree roots.
//!
//! Two tree versions share untouched subtrees, so comparing their leaf
//! sequences finds the minimal contiguous run of leaves that changed.
//! Equality of leaves is by backing-buffer identity (location, offset and
//! length), not by decoded text: two pieces that happen to render the same
//! bytes from different provenance are not considered equal.

use std::ops::Range;
use std::sync::Arc;
use vstd::prelude::*;
use vstd::slice::slice_subrange;

use crate::piece_tree::{collect_leaves, LeafData, PieceTreeNode};

verus! {

/// Relies on the standard library's derived `Clone` for `Range`, which
/// clones the two endpoints; stated here because vstd does not cover it.
pub assume_specification<Idx: Clone>[ <Range<Idx> as Clone>::clone ](r: &Range<Idx>) -> (res: Range<
    Idx,
>)
    ensures
        vstd::pervasive::cloned::<Idx>(r.start, res.start),
        vstd::pervasive::cloned::<Idx>(r.end, res.end),
;

/// Summary of differences between two piece tree roots.
#[derive(Debug, Clone, PartialEq, Eq)]
pub struct PieceTreeDiff {
    /// Whether the two trees represent identical piece sequences.
    pub equal: bool,
    /// Changed byte range in the "after" tree (exclusive end). Empty when `equal` is true.
    pub byte_range: Range<usize>,
    /// Changed line range in the "after" tree (exclusive end). `None` when line counts are unknown.
    pub line_range: Option<Range<usize>>,
}

/// Leaf equality by backing-buffer identity: location, offset and length.
pub open spec fn spec_leaves_equal(a: LeafData, b: LeafData) -> bool {
    a.location == b.location && a.offset == b.offset && a.bytes == b.bytes
}

/// Element-wise equality of two leaf sequences.
pub open spec fn spec_slices_equal(a: Seq<LeafData>, b: Seq<LeafData>) -> bool {
    a.len() == b.len() && forall|i: int| 0 <= i < a.len() ==> spec_leaves_equal(a[i], b[i])
}

/// Total byte count over a run of leaves.
pub open spec fn total_bytes(s: Seq<LeafData>) -> int
    decreases s.len(),
{
    if s.len() == 0 {
        0
    } else {
        s[0].bytes + total_bytes(s.drop_first())
    }
}

/// Newline count over a run of leaves; `None` as soon as one leaf is unscanned.
pub open spec fn lf_sum(s: Seq<LeafData>) -> Option<int>
    decreases s.len(),
{
    if s.len() == 0 {
        Some(0int)
    } else {
        match s[0].line_feed_cnt {
            Option::None => Option::None,
            Option::Some(n) => match lf_sum(s.drop_first()) {
                Option::None => Option::None,
                Option::Some(t) => Option::Some(n + t),
            },
        }
    }
}

/// Upper bound on any partial newline sum: unknown counts weigh nothing.
pub open spec fn lf_upper(s: Seq<LeafData>) -> int
    decreases s.len(),
{
    if s.len() == 0 {
        0
    } else {
        (match s[0].line_feed_cnt {
            Option::None => 0int,
            Option::Some(n) => n as int,
        }) + lf_upper(s.drop_first())
    }
}

/// Index of the first mismatch at or after `i`, capped at the shorter length.
pub open spec fn prefix_len_from(b: Seq<LeafData>, a: Seq<LeafData>, i: int) -> int
    decreases b.len() + a.len() - 2 * i,
{
    if 0 <= i && i < b.len() && i < a.len() && spec_leaves_equal(b[i], a[i]) {
        prefix_len_from(b, a, i + 1)
    } else {
        i
    }
}

/// Length of the longest common leaf prefix of the two sequences.
pub open spec fn common_prefix_len(b: Seq<LeafData>, a: Seq<LeafData>) -> int {
    prefix_len_from(b, a, 0)
}

/// Common suffix length grown from `j`, kept from overlapping the prefix `p`.
pub open spec fn suffix_len_from(b: Seq<LeafData>, a: Seq<LeafData>, p: int, j: int) -> int
    decreases b.len() + a.len() - 2 * j,
{
    if 0 <= j && 0 <= p && p + j < b.len() && p + j < a.len() && spec_leaves_equal(
        b[b.len() - 1 - j],
        a[a.len() - 1 - j],
    ) {
        suffix_len_from(b, a, p, j + 1)
    } else {
        j
    }
}

/// Length of the longest common leaf suffix that does not overlap the prefix.
pub open spec fn common_suffix_len(b: Seq<LeafData>, a: Seq<LeafData>, p: int) -> int {
    suffix_len_from(b, a, p, 0)
}

/// The changed run of leaves in the "after" sequence.
pub open spec fn spec_changed_span(b: Seq<LeafData>, a: Seq<LeafData>) -> Seq<LeafData> {
    let p = common_prefix_len(b, a);
    let s = common_suffix_len(b, a, p);
    a.subrange(p, a.len() - s)
}

/// The line range reported for two unequal leaf sequences: newlines before
/// the change, then newlines inside it plus one, with a single anchor line
/// forced for a pure deletion; `None` once any needed count is unknown.
pub open spec fn spec_line_range(b: Seq<LeafData>, a: Seq<LeafData>) -> Option<(int, int)> {
    let p = common_prefix_len(b, a);
    let changed = spec_changed_span(b, a);
    match lf_sum(a.take(p)) {
        Option::None => Option::None,
        Option::Some(lines_before) => {
            if changed.len() == 0 {
                Option::Some((lines_before, lines_before + 1))
            } else {
                match lf_sum(changed) {
                    Option::None => Option::None,
                    Option::Some(in_changed) => Option::Some(
                        (lines_before, lines_before + in_changed + 1),
                    ),
                }
            }
        },
    }
}

proof fn lemma_total_bytes_nonneg(s: Seq<LeafData>)
    ensures
        total_bytes(s) >= 0,
    decreases s.len(),
{
    if s.len() > 0 {
        lemma_total_bytes_nonneg(s.drop_first());
    }
}

proof fn lemma_total_bytes_push(s: Seq<LeafData>, x: LeafData)
    ensures
        total_bytes(s.push(x)) == total_bytes(s) + x.bytes,
    decreases s.len(),
{
    if s.len() == 0 {
        assert(s.push(x).drop_first() =~= s);
    } else {
        assert(s.push(x).drop_first() =~= s.drop_first().push(x));
        lemma_total_bytes_push(s.drop_first(), x);
    }
}

proof fn lemma_total_bytes_split(s: Seq<LeafData>, k: int)
    requires
        0 <= k <= s.len(),
    ensures
        total_bytes(s) == total_bytes(s.take(k)) + total_bytes(s.skip(k)),
    decreases s.len() - k,
{
    if k == s.len() {
        assert(s.take(k) =~= s);
        assert(s.skip(k) =~= Seq::<LeafData>::empty());
    } else {
        lemma_total_bytes_split(s, k + 1);
        assert(s.take(k + 1) =~= s.take(k).push(s[k]));
        lemma_total_bytes_push(s.take(k), s[k]);
        assert(s.skip(k).drop_first() =~= s.skip(k + 1));
        assert(s.skip(k)[0] == s[k]);
    }
}

proof fn lemma_lf_push(s: Seq<LeafData>, x: LeafData)
    ensures
        lf_upper(s.push(x)) == lf_upper(s) + (match x.line_feed_cnt {
            Option::None => 0int,
            Option::Some(n) => n as int,
        }),
        lf_sum(s.push(x)) == (match (lf_sum(s), x.line_feed_cnt) {
            (Option::Some(t), Option::Some(n)) => Option::Some(t + n),
            _ => Option::<int>::None,
        }),
    decreases s.len(),
{
    if s.len() == 0 {
        assert(s.push(x).drop_first() =~= s);
    } else {
        assert(s.push(x).drop_first() =~= s.drop_first().push(x));
        lemma_lf_push(s.drop_first(), x);
    }
}

proof fn lemma_lf_upper_nonneg(s: Seq<LeafData>)
    ensures
        lf_upper(s) >= 0,
    decreases s.len(),
{
    if s.len() > 0 {
        lemma_lf_upper_nonneg(s.drop_first());
    }
}

proof fn lemma_lf_sum_le_upper(s: Seq<LeafData>)
    ensures
        lf_sum(s) matches Option::Some(t) ==> 0 <= t <= lf_upper(s),
    decreases s.len(),
{
    if s.len() > 0 {
        lemma_lf_sum_le_upper(s.drop_first());
        lemma_lf_upper_nonneg(s.drop_first());
    }
}

proof fn lemma_lf_upper_split(s: Seq<LeafData>, k: int)
    requires
        0 <= k <= s.len(),
    ensures
        lf_upper(s) == lf_upper(s.take(k)) + lf_upper(s.skip(k)),
    decreases s.len() - k,
{
    if k == s.len() {
        assert(s.take(k) =~= s);
        assert(s.skip(k) =~= Seq::<LeafData>::empty());
    } else {
        lemma_lf_upper_split(s, k + 1);
        assert(s.take(k + 1) =~= s.take(k).push(s[k]));
        lemma_lf_push(s.take(k), s[k]);
        assert(s.skip(k).drop_first() =~= s.skip(k + 1));
        assert(s.skip(k)[0] == s[k]);
    }
}

proof fn lemma_prefix_le(b: Seq<LeafData>, a: Seq<LeafData>, i: int)
    requires
        0 <= i <= b.len(),
        i <= a.len(),
    ensures
        i <= prefix_len_from(b, a, i),
        prefix_len_from(b, a, i) <= b.len(),
        prefix_len_from(b, a, i) <= a.len(),
        forall|k: int|
            i <= k < prefix_len_from(b, a, i) ==> spec_leaves_equal(b[k], a[k]),
    decreases b.len() + a.len() - 2 * i,
{
    if i < b.len() && i < a.len() && spec_leaves_equal(b[i], a[i]) {
        lemma_prefix_le(b, a, i + 1);
    }
}

proof fn lemma_suffix_le(b: Seq<LeafData>, a: Seq<LeafData>, p: int, j: int)
    requires
        0 <= p,
        0 <= j,
        p + j <= b.len(),
        p + j <= a.len(),
    ensures
        j <= suffix_len_from(b, a, p, j),
        p + suffix_len_from(b, a, p, j) <= b.len(),
        p + suffix_len_from(b, a, p, j) <= a.len(),
        forall|k: int|
            j <= k < suffix_len_from(b, a, p, j) ==> spec_leaves_equal(
                #[trigger] b[b.len() - 1 - k],
                a[a.len() - 1 - k],
            ),
    decreases b.len() + a.len() - 2 * j,
{
    if p + j < b.len() && p + j < a.len() && spec_leaves_equal(
        b[b.len() - 1 - j],
        a[a.len() - 1 - j],
    ) {
        lemma_suffix_le(b, a, p, j + 1);
    }
}

/// Diff identity: every leaf sequence is element-wise equal to itself, so
/// by the contract of `diff_piece_trees`, diffing a tree against itself
/// reports `equal` with empty byte and line ranges.
pub proof fn lemma_diff_identity(t: PieceTreeNode)
    ensures
        spec_slices_equal(t.leaves(), t.leaves()),
{
}

/// Everything outside the reported changed run is unchanged: the prefix
/// and suffix windows never overlap, every leaf of the common prefix reads
/// the same piece in both versions, and so does every leaf of the common
/// suffix. Bytes of the "after" tree outside the reported byte range
/// therefore come from the very pieces the "before" tree read there.
pub proof fn lemma_diff_outside_unchanged(b: Seq<LeafData>, a: Seq<LeafData>)
    ensures
        ({
            let p = common_prefix_len(b, a);
            let s = common_suffix_len(b, a, p);
            &&& 0 <= p && 0 <= s
            &&& p + s <= a.len() && p + s <= b.len()
            &&& forall|i: int| 0 <= i < p ==> spec_leaves_equal(b[i], a[i])
            &&& forall|i: int|
                0 <= i < s ==> spec_leaves_equal(#[trigger] b[b.len() - 1 - i], a[a.len() - 1 - i])
        }),
{
    lemma_prefix_le(b, a, 0);
    lemma_suffix_le(b, a, common_prefix_len(b, a), 0);
}

proof fn lemma_prefix_exact(b: Seq<LeafData>, a: Seq<LeafData>, k: int, i: int)
    requires
        0 <= i <= k,
        k <= b.len(),
        k <= a.len(),
        forall|j: int| 0 <= j < k ==> spec_leaves_equal(b[j], a[j]),
        k == b.len() || k == a.len() || !spec_leaves_equal(b[k], a[k]),
    ensures
        prefix_len_from(b, a, i) == k,
    decreases k - i,
{
    if i < k {
        lemma_prefix_exact(b, a, k, i + 1);
    }
}

/// Diff locality: when the "after" sequence comes from replacing one
/// contiguous run of leaves by another, and the new run differs from the
/// old at both its first and its last leaf, the reported change is exactly
/// the replacing run: the byte range starts at the end of the kept prefix
/// and ends where the kept suffix begins, in "after" coordinates.
pub proof fn lemma_diff_locality(
    pre: Seq<LeafData>,
    mid_b: Seq<LeafData>,
    mid_a: Seq<LeafData>,
    suf: Seq<LeafData>,
)
    requires
        mid_b.len() > 0,
        mid_a.len() > 0,
        !spec_leaves_equal(mid_b[0], mid_a[0]),
        !spec_leaves_equal(mid_b.last(), mid_a.last()),
    ensures
        ({
            let b = pre + mid_b + suf;
            let a = pre + mid_a + suf;
            let p = common_prefix_len(b, a);
            let s = common_suffix_len(b, a, p);
            &&& p == pre.len()
            &&& s == suf.len()
            &&& total_bytes(a.take(p)) == total_bytes(pre)
            &&& total_bytes(a.take(a.len() - s)) == total_bytes(pre) + total_bytes(mid_a)
            &&& spec_changed_span(b, a) =~= mid_a
        }),
{
    let b = pre + mid_b + suf;
    let a = pre + mid_a + suf;
    let k = pre.len() as int;
    assert(b[k] == mid_b[0]);
    assert(a[k] == mid_a[0]);
    lemma_prefix_exact(b, a, k, 0);
    let p = common_prefix_len(b, a);
    lemma_suffix_exact(pre, mid_b, mid_a, suf, 0);
    let s = common_suffix_len(b, a, p);
    assert(a.take(p) =~= pre);
    assert(a.take(a.len() - s) =~= pre + mid_a);
    lemma_total_bytes_split(pre + mid_a, k);
    assert((pre + mid_a).take(k) =~= pre);
    assert((pre + mid_a).skip(k) =~= mid_a);
}

proof fn lemma_suffix_exact(
    pre: Seq<LeafData>,
    mid_b: Seq<LeafData>,
    mid_a: Seq<LeafData>,
    suf: Seq<LeafData>,
    j: int,
)
    requires
        mid_b.len() > 0,
        mid_a.len() > 0,
        !spec_leaves_equal(mid_b.last(), mid_a.last()),
        0 <= j <= suf.len(),
    ensures
        suffix_len_from(pre + mid_b + suf, pre + mid_a + suf, pre.len() as int, j) == suf.len(),
    decreases suf.len() - j,
{
    let b = pre + mid_b + suf;
    let a = pre + mid_a + suf;
    let p = pre.len() as int;
    if j < suf.len() {
        assert(b[b.len() - 1 - j] == suf[suf.len() - 1 - j]);
        assert(a[a.len() - 1 - j] == suf[suf.len() - 1 - j]);
        lemma_suffix_exact(pre, mid_b, mid_a, suf, j + 1);
    } else {
        assert(p + j < b.len());
        assert(p + j < a.len());
        assert(b[b.len() - 1 - j] == mid_b.last());
        assert(a[a.len() - 1 - j] == mid_a.last());
    }
}

/// Prefix and suffix trimming on a one-leaf replacement: with leaves
/// `[A, B, C]` before and `[A, X, C]` after, where only `B` and `X` differ,
/// the common prefix has length one, the common suffix has length one, and
/// the changed run is exactly `[X]`.
pub proof fn lemma_diff_prefix_suffix(a0: LeafData, b0: LeafData, x0: LeafData, c0: LeafData)
    requires
        !spec_leaves_equal(b0, x0),
    ensures
        ({
            let b = seq![a0, b0, c0];
            let a = seq![a0, x0, c0];
            &&& common_prefix_len(b, a) == 1
            &&& common_suffix_len(b, a, 1) == 1
            &&& spec_changed_span(b, a) =~= seq![x0]
        }),
{
    let b = seq![a0, b0, c0];
    let a = seq![a0, x0, c0];
    lemma_prefix_exact(b, a, 1, 0);
    assert(suffix_len_from(b, a, 1, 1) == 1);
    assert(suffix_len_from(b, a, 1, 0) == 1);
}

/// Deletion anchoring: when the "after" sequence is a strict prefix of the
/// "before" sequence, the whole of "after" is kept as common prefix, no
/// common suffix is taken, the changed run is empty, and the byte range
/// collapses to the point where the deleted leaves used to start; the line
/// range still spans the single line anchored there.
pub proof fn lemma_diff_deletion_anchor(b: Seq<LeafData>, k: int)
    requires
        0 <= k < b.len(),
    ensures
        ({
            let a = b.take(k);
            let p = common_prefix_len(b, a);
            let s = common_suffix_len(b, a, p);
            &&& p == k
            &&& s == 0
            &&& spec_changed_span(b, a).len() == 0
            &&& total_bytes(a.take(p)) == total_bytes(a)
            &&& total_bytes(a.take(a.len() - s)) == total_bytes(a)
            &&& !spec_slices_equal(b, a)
            &&& (lf_sum(a) matches Some(lb) ==> spec_line_range(b, a) == Some::<(int, int)>(
                (lb, lb + 1),
            ))
        }),
{
    let a = b.take(k);
    lemma_prefix_exact(b, a, k, 0);
    let p = common_prefix_len(b, a);
    assert(suffix_len_from(b, a, k, 0) == 0);
    assert(a.take(p) =~= a);
    assert(a.take(a.len() - 0) =~= a);
    assert(spec_changed_span(b, a) =~= Seq::<LeafData>::empty());
}

/// Whether one leaf equals another, by backing-buffer identity.
pub fn leaves_equal(a: &LeafData, b: &LeafData) -> (r: bool)
    ensures
        r == spec_leaves_equal(*a, *b),
{
    a.location == b.location && a.offset == b.offset && a.bytes == b.bytes
}

/// Whether two leaf runs are equal element-wise.
pub fn leaf_slices_equal(a: &[LeafData], b: &[LeafData]) -> (r: bool)
    ensures
        r == spec_slices_equal(a@, b@),
{
    if a.len() != b.len() {
        return false;
    }
    let n = a.len();
    let mut i: usize = 0;
    while i < n
        invariant
            n == a@.len() == b@.len(),
            i <= n,
            forall|k: int| 0 <= k < i ==> spec_leaves_equal(a@[k], b@[k]),
        decreases n - i,
    {
        if !leaves_equal(&a[i], &b[i]) {
            return false;
        }
        i += 1;
    }
    true
}

/// Total byte count over a run of leaves.
pub fn sum_bytes(leaves: &[LeafData]) -> (r: usize)
    requires
        total_bytes(leaves@) <= usize::MAX,
    ensures
        r == total_bytes(leaves@),
{
    let n = leaves.len();
    let mut total: usize = 0;
    let mut i: usize = 0;
    while i < n
        invariant
            n == leaves@.len(),
            i <= n,
            total_bytes(leaves@) <= usize::MAX,
            total == total_bytes(leaves@.take(i as int)),
        decreases n - i,
    {
        proof {
            assert(leaves@.take(i + 1) =~= leaves@.take(i as int).push(leaves@[i as int]));
            lemma_total_bytes_push(leaves@.take(i as int), leaves@[i as int]);
            lemma_total_bytes_split(leaves@, i + 1);
            lemma_total_bytes_nonneg(leaves@.skip(i + 1));
            assert(leaves@.take(i + 1).take(i as int) =~= leaves@.take(i as int));
        }
        total = total + leaves[i].bytes;
        i += 1;
    }
    proof {
        assert(leaves@.take(n as int) =~= leaves@);
    }
    total
}

/// Newline count over a run of leaves; `None` once a leaf is unscanned.
pub fn sum_line_feeds(leaves: &[LeafData]) -> (r: Option<usize>)
    requires
        lf_upper(leaves@) <= usize::MAX,
    ensures
        r is None <==> lf_sum(leaves@) is None,
        r matches Some(v) ==> lf_sum(leaves@) == Some(v as int),
{
    let n = leaves.len();
    let mut total: usize = 0;
    let mut i: usize = 0;
    while i < n
        invariant
            n == leaves@.len(),
            i <= n,
            lf_upper(leaves@) <= usize::MAX,
            lf_sum(leaves@.take(i as int)) == Some(total as int),
        decreases n - i,
    {
        proof {
            assert(leaves@.take(i + 1) =~= leaves@.take(i as int).push(leaves@[i as int]));
            lemma_lf_push(leaves@.take(i as int), leaves@[i as int]);
            lemma_lf_upper_split(leaves@, i + 1);
            lemma_lf_upper_nonneg(leaves@.skip(i + 1));
            assert(leaves@.take(i + 1).take(i as int) =~= leaves@.take(i as int));
            lemma_lf_sum_le_upper(leaves@.take(i + 1));
        }
        match leaves[i].line_feed_cnt {
            Option::Some(n_lf) => {
                total = total + n_lf;
            },
            Option::None => {
                proof {
                    lemma_lf_prefix_none(leaves@, i as int);
                }
                return Option::None;
            },
        }
        i += 1;
    }
    proof {
        assert(leaves@.take(n as int) =~= leaves@);
    }
    Option::Some(total)
}

proof fn lemma_lf_prefix_none(s: Seq<LeafData>, i: int)
    requires
        0 <= i < s.len(),
        s[i].line_feed_cnt is None,
    ensures
        lf_sum(s) is None,
    decreases i,
{
    if i > 0 {
        lemma_lf_prefix_none(s.drop_first(), i - 1);
    }
}

/// Line count of a run of leaves: its newlines plus one; zero when empty.
pub fn lines_in_slice(leaves: &[LeafData]) -> (r: Option<usize>)
    requires
        lf_upper(leaves@) + 1 <= usize::MAX,
    ensures
        leaves@.len() == 0 ==> r == Some(0usize),
        leaves@.len() > 0 ==> {
            &&& r is None <==> lf_sum(leaves@) is None
            &&& (r matches Some(v) ==> lf_sum(leaves@) == Some(v - 1))
        },
{
    if leaves.is_empty() {
        return Option::Some(0);
    }
    proof {
        lemma_lf_upper_nonneg(leaves@);
    }
    match sum_line_feeds(leaves) {
        Option::Some(line_feeds) => {
            proof {
                lemma_lf_sum_le_upper(leaves@);
            }
            Option::Some(line_feeds + 1)
        },
        Option::None => Option::None,
    }
}

/// Compute a shallow diff between two piece tree roots.
///
/// The result reports, in the coordinates of the `after` tree, the smallest
/// contiguous leaf run outside of which `after` still reads the very same
/// pieces as `before`; byte and line bounds of that run come with it.
pub fn diff_piece_trees(before: &Arc<PieceTreeNode>, after: &Arc<PieceTreeNode>) -> (r:
    PieceTreeDiff)
    requires
        total_bytes(after.leaves()) <= usize::MAX,
        lf_upper(after.leaves()) + 1 <= usize::MAX,
    ensures
        ({
            let b = before.leaves();
            let a = after.leaves();
            let p = common_prefix_len(b, a);
            let s = common_suffix_len(b, a, p);
            &&& r.equal == spec_slices_equal(b, a)
            &&& r.equal ==> r.byte_range.start == 0 && r.byte_range.end == 0 && (
            r.line_range matches Some(lr) && lr.start == 0 && lr.end == 0)
            &&& !r.equal ==> {
                &&& r.byte_range.start == total_bytes(a.take(p))
                &&& r.byte_range.end == total_bytes(a.take(a.len() - s))
                &&& match spec_line_range(b, a) {
                    Option::None => r.line_range is None,
                    Option::Some((ls, le)) => r.line_range matches Some(lr) && lr.start == ls
                        && lr.end == le,
                }
            }
        }),
{
    let mut before_leaves: Vec<LeafData> = Vec::new();
    collect_leaves(before, &mut before_leaves);

    let mut after_leaves: Vec<LeafData> = Vec::new();
    collect_leaves(after, &mut after_leaves);

    let ghost b = before_leaves@;
    let ghost a = after_leaves@;

    // Fast path: identical leaf sequences.
    if leaf_slices_equal(before_leaves.as_slice(), after_leaves.as_slice()) {
        return PieceTreeDiff {
            equal: true,
            byte_range: Range { start: 0, end: 0 },
            line_range: Option::Some(Range { start: 0, end: 0 }),
        };
    }

    // Longest common prefix.
    let b_len = before_leaves.len();
    let a_len = after_leaves.len();
    let mut prefix: usize = 0;
    while prefix < b_len && prefix < a_len && leaves_equal(
        &before_leaves[prefix],
        &after_leaves[prefix],
    )
        invariant
            b_len == b.len(),
            a_len == a.len(),
            before_leaves@ == b,
            after_leaves@ == a,
            prefix <= b_len,
            prefix <= a_len,
            common_prefix_len(b, a) == prefix_len_from(b, a, prefix as int),
        decreases b_len + a_len - 2 * prefix,
    {
        proof {
            assert(prefix_len_from(b, a, prefix as int) == prefix_len_from(
                b,
                a,
                prefix as int + 1,
            ));
        }
        prefix += 1;
    }
    proof {
        assert(common_prefix_len(b, a) == prefix as int);
    }

    // Longest common suffix, kept from overlapping the prefix.
    let mut suffix: usize = 0;
    while suffix + prefix < b_len && suffix + prefix < a_len && leaves_equal(
        &before_leaves[b_len - 1 - suffix],
        &after_leaves[a_len - 1 - suffix],
    )
        invariant
            b_len == b.len(),
            a_len == a.len(),
            before_leaves@ == b,
            after_leaves@ == a,
            prefix + suffix <= b_len,
            prefix + suffix <= a_len,
            common_suffix_len(b, a, prefix as int) == suffix_len_from(
                b,
                a,
                prefix as int,
                suffix as int,
            ),
        decreases b_len + a_len - 2 * suffix,
    {
        proof {
            assert(suffix_len_from(b, a, prefix as int, suffix as int) == suffix_len_from(
                b,
                a,
                prefix as int,
                suffix as int + 1,
            ));
        }
        suffix += 1;
    }
    proof {
        assert(common_suffix_len(b, a, prefix as int) == suffix as int);
    }

    let changed_end = a_len - suffix;
    let after_changed = slice_subrange(after_leaves.as_slice(), prefix, changed_end);

    // Byte offsets are measured in the "after" tree.
    let after_prefix = slice_subrange(after_leaves.as_slice(), 0, prefix);
    proof {
        assert(a.subrange(0, prefix as int) =~= a.take(prefix as int));
        lemma_total_bytes_split(a, prefix as int);
        lemma_total_bytes_nonneg(a.take(prefix as int));
        lemma_total_bytes_nonneg(a.skip(prefix as int));
        lemma_total_bytes_split(a.take(changed_end as int), prefix as int);
        assert(a.take(changed_end as int).take(prefix as int) =~= a.take(prefix as int));
        assert(a.take(changed_end as int).skip(prefix as int) =~= a.subrange(
            prefix as int,
            changed_end as int,
        ));
        lemma_total_bytes_split(a, changed_end as int);
        lemma_total_bytes_nonneg(a.skip(changed_end as int));
        lemma_total_bytes_nonneg(a.subrange(prefix as int, changed_end as int));
    }
    let start_byte = sum_bytes(after_prefix);
    let end_byte = start_byte + sum_bytes(after_changed);

    // Line offsets are also relative to the "after" tree.
    proof {
        lemma_lf_upper_split(a, prefix as int);
        lemma_lf_upper_nonneg(a.take(prefix as int));
        lemma_lf_upper_nonneg(a.skip(prefix as int));
        lemma_lf_upper_split(a.take(changed_end as int), prefix as int);
        lemma_lf_upper_split(a, changed_end as int);
        lemma_lf_upper_nonneg(a.skip(changed_end as int));
        lemma_lf_upper_nonneg(a.subrange(prefix as int, changed_end as int));
    }
    let line_range: Option<Range<usize>> = match sum_line_feeds(after_prefix) {
        Option::Some(lines_before) => {
            // A pure deletion leaves no changed bytes; still mark a single
            // line so callers have a location to attach to.
            let lines_in_changed: Option<usize> = if after_changed.is_empty() {
                Option::Some(1)
            } else {
                lines_in_slice(after_changed)
            };
            proof {
                lemma_lf_sum_le_upper(a.take(prefix as int));
                lemma_lf_sum_le_upper(a.subrange(prefix as int, changed_end as int));
            }
            match lines_in_changed {
                Option::Some(n_lines) => Option::Some(
                    Range { start: lines_before, end: lines_before + n_lines },
                ),
                Option::None => Option::None,
            }
        },
        Option::None => Option::None,
    };

    PieceTreeDiff { equal: false, byte_range: Range { start: start_byte, end: end_byte }, line_range }
}

} // verus!
