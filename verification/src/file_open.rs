//! File open dialog state and logic.
//!
//! A plugin-free file browser for the open-file command: a filtered,
//! sortable directory listing with navigation shortcuts, driven entirely
//! by plain state transitions so the surrounding editor can render it.

use core::cmp::Ordering;
use vstd::prelude::*;

use crate::host_dirs;
use crate::path_util::{extension_of, parent_of, spec_extension_of, spec_parent_of};
use crate::text::{
    dec_str, digit_char, lemma_lex_cmp_flip, lemma_lex_cmp_trans, lex_cmp, lowercase_of,
    spec_contains, str_contains, str_lex_cmp, to_lowercase, u64_to_decimal,
};

verus! {

use vstd::multiset::Multiset;
use vstd::string::StrSliceExecFns;
use vstd::string::StringExecFns;

/// The kind of a filesystem entry.
#[derive(Debug, Clone, Copy, PartialEq, Eq, Structural)]
pub enum FsEntryType {
    /// A regular file.
    File,
    /// A directory.
    Directory,
    /// A symbolic link.
    Symlink,
}

/// Metadata of a filesystem entry, with the modification time modeled as
/// seconds since the epoch.
#[derive(Debug, Clone, Copy)]
pub struct FsMetadata {
    /// Size in bytes, when known.
    pub size: Option<u64>,
    /// Modification time in seconds since the epoch, when known.
    pub modified: Option<u64>,
    /// Whether the platform marks the entry hidden.
    pub is_hidden: bool,
    /// Whether the entry is read-only.
    pub is_readonly: bool,
}

/// A filesystem entry as the directory loader reports it.
#[derive(Debug)]
pub struct FsEntry {
    /// Full path of the entry.
    pub path: String,
    /// Bare file name of the entry.
    pub name: String,
    /// Kind of the entry.
    pub entry_type: FsEntryType,
    /// Metadata, when the loader could read it.
    pub metadata: Option<FsMetadata>,
}

impl FsEntry {
    /// Whether this entry is a directory.
    pub fn is_dir(&self) -> (r: bool)
        ensures
            r == (self.entry_type == FsEntryType::Directory),
    {
        match self.entry_type {
            FsEntryType::Directory => true,
            _ => false,
        }
    }
}

impl Clone for FsEntry {
    /// Clone the entry, field for field.
    fn clone(&self) -> (r: FsEntry)
        ensures
            r == *self,
    {
        FsEntry {
            path: self.path.clone(),
            name: self.name.clone(),
            entry_type: self.entry_type,
            metadata: self.metadata,
        }
    }
}

/// A file entry in the browser with its filter match state.
#[derive(Debug)]
pub struct FileOpenEntry {
    /// The filesystem entry.
    pub fs_entry: FsEntry,
    /// Whether this entry matches the current filter.
    pub matches_filter: bool,
}

impl Clone for FileOpenEntry {
    /// Clone the entry, field for field.
    fn clone(&self) -> (r: FileOpenEntry)
        ensures
            r == *self,
    {
        FileOpenEntry { fs_entry: self.fs_entry.clone(), matches_filter: self.matches_filter }
    }
}

/// Sort mode for the file list.
#[derive(Debug, Clone, Copy, PartialEq, Eq, Structural, Default)]
pub enum SortMode {
    /// By name, case folded.
    #[default]
    Name,
    /// By size in bytes.
    Size,
    /// By modification time.
    Modified,
    /// By file extension, case folded.
    Type,
}

/// Which section of the file browser is active.
#[derive(Debug, Clone, Copy, PartialEq, Eq, Structural, Default)]
pub enum FileOpenSection {
    /// The navigation shortcuts: parent, root, home.
    Navigation,
    /// The main file list.
    #[default]
    Files,
}

/// A navigation shortcut entry.
#[derive(Debug)]
pub struct NavigationShortcut {
    /// Display label, such as ".." or "~".
    pub label: String,
    /// Full path to navigate to.
    pub path: String,
    /// Description, such as "Home directory".
    pub description: String,
}

impl Clone for NavigationShortcut {
    /// Clone the shortcut, field for field.
    fn clone(&self) -> (r: NavigationShortcut)
        ensures
            r == *self,
    {
        NavigationShortcut {
            label: self.label.clone(),
            path: self.path.clone(),
            description: self.description.clone(),
        }
    }
}

/// Rows the list scroller assumes visible until the renderer reports one.
pub const DEFAULT_VISIBLE_ROWS: usize = 15;

/// State of the file open dialog.
#[derive(Debug)]
pub struct FileOpenState {
    /// The directory being browsed.
    pub current_dir: String,
    /// Directory entries with metadata.
    pub entries: Vec<FileOpenEntry>,
    /// Whether the directory is still loading.
    pub loading: bool,
    /// Error message when the directory load failed.
    pub error: Option<String>,
    /// Current sort mode.
    pub sort_mode: SortMode,
    /// Sort direction; ascending when true.
    pub sort_ascending: bool,
    /// Selected index in the file list.
    pub selected_index: usize,
    /// Scroll offset of the file list.
    pub scroll_offset: usize,
    /// Which section is active.
    pub active_section: FileOpenSection,
    /// Filter text from the prompt input.
    pub filter: String,
    /// Navigation shortcuts.
    pub shortcuts: Vec<NavigationShortcut>,
    /// Selected shortcut index, for the navigation section.
    pub selected_shortcut: usize,
    /// Whether hidden files are shown.
    pub show_hidden: bool,
}

/// Whether a file name is hidden: it starts with a dot.
pub open spec fn spec_is_hidden(name: Seq<char>) -> bool {
    name.len() > 0 && name[0] == '.'
}

/// Whether a name matches a filter: an empty filter matches everything,
/// any other is sought case folded within the case-folded name.
pub open spec fn spec_matches(name: Seq<char>, filter: Seq<char>) -> bool {
    filter.len() == 0 || spec_contains(lowercase_of(name), lowercase_of(filter))
}

/// The opposite ordering.
pub open spec fn ord_reverse(o: Ordering) -> Ordering {
    match o {
        Ordering::Less => Ordering::Greater,
        Ordering::Equal => Ordering::Equal,
        Ordering::Greater => Ordering::Less,
    }
}

/// How two integers order.
pub open spec fn int_cmp(a: int, b: int) -> Ordering {
    if a < b {
        Ordering::Less
    } else if a > b {
        Ordering::Greater
    } else {
        Ordering::Equal
    }
}

/// The size key an entry sorts by: its byte size, zero when unknown.
pub open spec fn size_key(e: FileOpenEntry) -> int {
    match e.fs_entry.metadata {
        Option::Some(m) => match m.size {
            Option::Some(s) => s as int,
            Option::None => 0,
        },
        Option::None => 0,
    }
}

/// The modification key an entry sorts by, when known.
pub open spec fn modified_key(e: FileOpenEntry) -> Option<int> {
    match e.fs_entry.metadata {
        Option::Some(m) => match m.modified {
            Option::Some(t) => Option::Some(t as int),
            Option::None => Option::None,
        },
        Option::None => Option::None,
    }
}

/// How two optional modification times order: known times order by value
/// and come before unknown ones.
pub open spec fn opt_time_cmp(a: Option<int>, b: Option<int>) -> Ordering {
    match (a, b) {
        (Option::Some(x), Option::Some(y)) => int_cmp(x, y),
        (Option::Some(_), Option::None) => Ordering::Less,
        (Option::None, Option::Some(_)) => Ordering::Greater,
        (Option::None, Option::None) => Ordering::Equal,
    }
}

/// How two entries order under a sort mode, before filter and directory
/// grouping and before the sort direction is applied.
pub open spec fn spec_mode_cmp(a: FileOpenEntry, b: FileOpenEntry, mode: SortMode) -> Ordering {
    match mode {
        SortMode::Name => lex_cmp(lowercase_of(a.fs_entry.name@), lowercase_of(b.fs_entry.name@)),
        SortMode::Size => int_cmp(size_key(a), size_key(b)),
        SortMode::Modified => opt_time_cmp(modified_key(a), modified_key(b)),
        SortMode::Type => lex_cmp(
            lowercase_of(spec_extension_of(a.fs_entry.name@)),
            lowercase_of(spec_extension_of(b.fs_entry.name@)),
        ),
    }
}

/// How two entries order in the list: entries matching the filter come
/// first, directories come before files, and within a group the sort mode
/// decides, reversed when sorting descends.
pub open spec fn spec_entry_cmp(
    a: FileOpenEntry,
    b: FileOpenEntry,
    mode: SortMode,
    ascending: bool,
) -> Ordering {
    if a.matches_filter && !b.matches_filter {
        Ordering::Less
    } else if !a.matches_filter && b.matches_filter {
        Ordering::Greater
    } else if a.fs_entry.entry_type == FsEntryType::Directory && b.fs_entry.entry_type
        != FsEntryType::Directory {
        Ordering::Less
    } else if a.fs_entry.entry_type != FsEntryType::Directory && b.fs_entry.entry_type
        == FsEntryType::Directory {
        Ordering::Greater
    } else if ascending {
        spec_mode_cmp(a, b, mode)
    } else {
        ord_reverse(spec_mode_cmp(a, b, mode))
    }
}

/// Whether one entry may stand before another in the sorted list.
pub open spec fn entry_le(a: FileOpenEntry, b: FileOpenEntry, mode: SortMode, asc: bool) -> bool {
    spec_entry_cmp(a, b, mode, asc) != Ordering::Greater
}

/// Whether a run of entries is sorted under the given mode and direction.
pub open spec fn sorted_by(s: Seq<FileOpenEntry>, mode: SortMode, asc: bool) -> bool {
    forall|i: int, j: int| 0 <= i < j < s.len() ==> entry_le(#[trigger] s[i], #[trigger] s[j], mode, asc)
}

proof fn lemma_mode_cmp_flip(a: FileOpenEntry, b: FileOpenEntry, mode: SortMode)
    ensures
        spec_mode_cmp(a, b, mode) == Ordering::Less <==> spec_mode_cmp(b, a, mode)
            == Ordering::Greater,
        spec_mode_cmp(a, b, mode) == Ordering::Equal <==> spec_mode_cmp(b, a, mode)
            == Ordering::Equal,
{
    match mode {
        SortMode::Name => {
            lemma_lex_cmp_flip(lowercase_of(a.fs_entry.name@), lowercase_of(b.fs_entry.name@));
        },
        SortMode::Type => {
            lemma_lex_cmp_flip(
                lowercase_of(spec_extension_of(a.fs_entry.name@)),
                lowercase_of(spec_extension_of(b.fs_entry.name@)),
            );
        },
        SortMode::Size => {
        },
        SortMode::Modified => {
        },
    }
}

proof fn lemma_mode_cmp_trans(a: FileOpenEntry, b: FileOpenEntry, c: FileOpenEntry, mode: SortMode)
    requires
        spec_mode_cmp(a, b, mode) != Ordering::Greater,
        spec_mode_cmp(b, c, mode) != Ordering::Greater,
    ensures
        spec_mode_cmp(a, c, mode) != Ordering::Greater,
{
    match mode {
        SortMode::Name => {
            lemma_lex_cmp_trans(
                lowercase_of(a.fs_entry.name@),
                lowercase_of(b.fs_entry.name@),
                lowercase_of(c.fs_entry.name@),
            );
        },
        SortMode::Type => {
            lemma_lex_cmp_trans(
                lowercase_of(spec_extension_of(a.fs_entry.name@)),
                lowercase_of(spec_extension_of(b.fs_entry.name@)),
                lowercase_of(spec_extension_of(c.fs_entry.name@)),
            );
        },
        SortMode::Size => {
        },
        SortMode::Modified => {
        },
    }
}

/// The list order is total: of any two entries, one may stand before the
/// other.
pub proof fn lemma_entry_le_total(a: FileOpenEntry, b: FileOpenEntry, mode: SortMode, asc: bool)
    ensures
        entry_le(a, b, mode, asc) || entry_le(b, a, mode, asc),
{
    lemma_mode_cmp_flip(a, b, mode);
}

/// The list order is transitive.
pub proof fn lemma_entry_le_trans(
    a: FileOpenEntry,
    b: FileOpenEntry,
    c: FileOpenEntry,
    mode: SortMode,
    asc: bool,
)
    requires
        entry_le(a, b, mode, asc),
        entry_le(b, c, mode, asc),
    ensures
        entry_le(a, c, mode, asc),
{
    lemma_mode_cmp_flip(a, b, mode);
    lemma_mode_cmp_flip(b, c, mode);
    lemma_mode_cmp_flip(a, c, mode);
    if spec_mode_cmp(a, b, mode) != Ordering::Greater && spec_mode_cmp(b, c, mode)
        != Ordering::Greater {
        lemma_mode_cmp_trans(a, b, c, mode);
    }
    if spec_mode_cmp(c, b, mode) != Ordering::Greater && spec_mode_cmp(b, a, mode)
        != Ordering::Greater {
        lemma_mode_cmp_trans(c, b, a, mode);
    }
}

/// Compare two entries for the list order.
fn entry_cmp(a: &FileOpenEntry, b: &FileOpenEntry, mode: SortMode, ascending: bool) -> (r:
    Ordering)
    ensures
        r == spec_entry_cmp(*a, *b, mode, ascending),
{
    // Matching entries first.
    match (a.matches_filter, b.matches_filter) {
        (true, false) => {
            return Ordering::Less;
        },
        (false, true) => {
            return Ordering::Greater;
        },
        _ => {},
    }
    // Directories before files.
    match (a.fs_entry.is_dir(), b.fs_entry.is_dir()) {
        (true, false) => {
            return Ordering::Less;
        },
        (false, true) => {
            return Ordering::Greater;
        },
        _ => {},
    }
    let ord = match mode {
        SortMode::Name => {
            let la = to_lowercase(a.fs_entry.name.as_str());
            let lb = to_lowercase(b.fs_entry.name.as_str());
            str_lex_cmp(la.as_str(), lb.as_str())
        },
        SortMode::Size => {
            let sa = match a.fs_entry.metadata {
                Option::Some(m) => match m.size {
                    Option::Some(s) => s,
                    Option::None => 0,
                },
                Option::None => 0,
            };
            let sb = match b.fs_entry.metadata {
                Option::Some(m) => match m.size {
                    Option::Some(s) => s,
                    Option::None => 0,
                },
                Option::None => 0,
            };
            if sa < sb {
                Ordering::Less
            } else if sa > sb {
                Ordering::Greater
            } else {
                Ordering::Equal
            }
        },
        SortMode::Modified => {
            let ma = match a.fs_entry.metadata {
                Option::Some(m) => m.modified,
                Option::None => Option::None,
            };
            let mb = match b.fs_entry.metadata {
                Option::Some(m) => m.modified,
                Option::None => Option::None,
            };
            match (ma, mb) {
                (Option::Some(x), Option::Some(y)) => {
                    if x < y {
                        Ordering::Less
                    } else if x > y {
                        Ordering::Greater
                    } else {
                        Ordering::Equal
                    }
                },
                (Option::Some(_), Option::None) => Ordering::Less,
                (Option::None, Option::Some(_)) => Ordering::Greater,
                (Option::None, Option::None) => Ordering::Equal,
            }
        },
        SortMode::Type => {
            let ea = extension_of(a.fs_entry.name.as_str());
            let eb = extension_of(b.fs_entry.name.as_str());
            let la = to_lowercase(ea.as_str());
            let lb = to_lowercase(eb.as_str());
            str_lex_cmp(la.as_str(), lb.as_str())
        },
    };
    if ascending {
        ord
    } else {
        match ord {
            Ordering::Less => Ordering::Greater,
            Ordering::Equal => Ordering::Equal,
            Ordering::Greater => Ordering::Less,
        }
    }
}

/// The first position in a sorted run whose entry must come after `x`.
fn find_insert_pos(
    sorted_vec: &Vec<FileOpenEntry>,
    x: &FileOpenEntry,
    mode: SortMode,
    ascending: bool,
) -> (pos: usize)
    ensures
        pos <= sorted_vec@.len(),
        forall|k: int|
            0 <= k < pos ==> spec_entry_cmp(#[trigger] sorted_vec@[k], *x, mode, ascending)
                != Ordering::Greater,
        pos < sorted_vec@.len() ==> spec_entry_cmp(sorted_vec@[pos as int], *x, mode, ascending)
            == Ordering::Greater,
{
    let n = sorted_vec.len();
    let mut pos: usize = 0;
    while pos < n
        invariant
            n == sorted_vec@.len(),
            pos <= n,
            forall|k: int|
                0 <= k < pos ==> spec_entry_cmp(#[trigger] sorted_vec@[k], *x, mode, ascending)
                    != Ordering::Greater,
        decreases n - pos,
    {
        match entry_cmp(&sorted_vec[pos], x, mode, ascending) {
            Ordering::Greater => {
                return pos;
            },
            _ => {},
        }
        pos += 1;
    }
    pos
}

/// The sorted run with `x` inserted before the first entry that must come
/// after it, so entries `x` ties with stay ahead of it.
pub open spec fn spec_insert_sorted(
    sorted: Seq<FileOpenEntry>,
    x: FileOpenEntry,
    mode: SortMode,
    asc: bool,
) -> Seq<FileOpenEntry>
    decreases sorted.len(),
{
    if sorted.len() == 0 {
        seq![x]
    } else if spec_entry_cmp(sorted[0], x, mode, asc) == Ordering::Greater {
        seq![x] + sorted
    } else {
        seq![sorted[0]] + spec_insert_sorted(sorted.drop_first(), x, mode, asc)
    }
}

/// The run stably sorted into the list order: each entry, in input order,
/// is inserted after every entry it ties with, so entries with equal keys
/// keep their input order.
pub open spec fn spec_stable_sort(s: Seq<FileOpenEntry>, mode: SortMode, asc: bool) -> Seq<
    FileOpenEntry,
>
    decreases s.len(),
{
    if s.len() == 0 {
        Seq::empty()
    } else {
        spec_insert_sorted(spec_stable_sort(s.drop_last(), mode, asc), s.last(), mode, asc)
    }
}

proof fn lemma_insert_sorted_at(
    sorted: Seq<FileOpenEntry>,
    x: FileOpenEntry,
    mode: SortMode,
    asc: bool,
    pos: int,
)
    requires
        0 <= pos <= sorted.len(),
        forall|k: int|
            0 <= k < pos ==> spec_entry_cmp(#[trigger] sorted[k], x, mode, asc)
                != Ordering::Greater,
        pos < sorted.len() ==> spec_entry_cmp(sorted[pos], x, mode, asc) == Ordering::Greater,
    ensures
        spec_insert_sorted(sorted, x, mode, asc) == sorted.insert(pos, x),
    decreases pos,
{
    if sorted.len() == 0 {
        assert(spec_insert_sorted(sorted, x, mode, asc) =~= sorted.insert(0, x));
    } else if pos == 0 {
        assert(seq![x] + sorted =~= sorted.insert(0, x));
    } else {
        let rest = sorted.drop_first();
        assert forall|k: int|
            0 <= k < pos - 1 implies spec_entry_cmp(#[trigger] rest[k], x, mode, asc)
            != Ordering::Greater by {
            assert(rest[k] == sorted[k + 1]);
        }
        assert(pos - 1 < rest.len() ==> rest[pos - 1] == sorted[pos as int]);
        lemma_insert_sorted_at(rest, x, mode, asc, pos - 1);
        assert(seq![sorted[0]] + rest.insert(pos - 1, x) =~= sorted.insert(pos, x));
    }
}

/// Sort entries stably into the list order by insertion: the result is
/// exactly the stable insertion sort of the input, so entries with equal
/// keys keep their input order.
fn sort_entry_vec(entries: &mut Vec<FileOpenEntry>, mode: SortMode, ascending: bool)
    ensures
        final(entries)@ == spec_stable_sort(old(entries)@, mode, ascending),
        final(entries)@.to_multiset() == old(entries)@.to_multiset(),
        sorted_by(final(entries)@, mode, ascending),
{
    broadcast use vstd::seq_lib::group_to_multiset_ensures;

    let ghost orig = entries@;
    let mut sorted_vec: Vec<FileOpenEntry> = Vec::new();
    let n = entries.len();
    let mut i: usize = 0;
    while i < n
        invariant
            n == entries@.len(),
            entries@ == orig,
            i <= n,
            sorted_vec@ == spec_stable_sort(orig.take(i as int), mode, ascending),
            sorted_by(sorted_vec@, mode, ascending),
            sorted_vec@.to_multiset() == orig.take(i as int).to_multiset(),
        decreases n - i,
    {
        let next = entries[i].clone();
        let pos = find_insert_pos(&sorted_vec, &next, mode, ascending);
        let ghost before = sorted_vec@;
        sorted_vec.insert(pos, next);
        proof {
            broadcast use vstd::seq_lib::group_to_multiset_ensures;
            broadcast use vstd::multiset::group_multiset_axioms;

            let s = sorted_vec@;
            assert(s == before.insert(pos as int, next));

            // The exec insertion point is exactly where the stable sort
            // puts the next entry.
            lemma_insert_sorted_at(before, next, mode, ascending, pos as int);
            assert(orig.take(i + 1).drop_last() =~= orig.take(i as int));
            assert(orig.take(i + 1).last() == orig[i as int]);
            assert(s == spec_stable_sort(orig.take(i + 1), mode, ascending));

            // One more entry in the multiset.
            assert(before.insert(pos as int, next).to_multiset() == before.to_multiset().insert(
                next,
            ));
            assert(orig.take(i + 1) =~= orig.take(i as int).push(orig[i as int]));
            assert(orig.take(i as int).push(orig[i as int]).to_multiset() =~= orig.take(
                i as int,
            ).to_multiset().insert(next));

            // Still sorted around the insertion point.
            assert forall|ii: int, jj: int| 0 <= ii < jj < s.len() implies entry_le(
                #[trigger] s[ii],
                #[trigger] s[jj],
                mode,
                ascending,
            ) by {
                if jj < pos {
                } else if ii < pos && jj == pos {
                } else if ii < pos && jj > pos {
                    assert(s[jj] == before[jj - 1]);
                } else if ii == pos && jj > pos {
                    assert(s[jj] == before[jj - 1]);
                    lemma_entry_le_total(next, before[pos as int], mode, ascending);
                    if jj - 1 > pos {
                        lemma_entry_le_trans(
                            next,
                            before[pos as int],
                            before[jj - 1],
                            mode,
                            ascending,
                        );
                    }
                } else {
                    assert(s[ii] == before[ii - 1]);
                    assert(s[jj] == before[jj - 1]);
                }
            }
        }
        i += 1;
    }
    proof {
        assert(orig.take(n as int) =~= orig);
    }
    entries.clear();
    let ghost done = sorted_vec@;
    entries.append(&mut sorted_vec);
    proof {
        assert(entries@ =~= done);
    }
}

/// The entry as the filter leaves it: the same file, with its match flag
/// recomputed against the filter.
pub open spec fn with_match(e: FileOpenEntry, filter: Seq<char>) -> FileOpenEntry {
    FileOpenEntry { fs_entry: e.fs_entry, matches_filter: spec_matches(e.fs_entry.name@, filter) }
}

/// A run of entries with every match flag recomputed against the filter.
pub open spec fn refiltered(s: Seq<FileOpenEntry>, filter: Seq<char>) -> Seq<FileOpenEntry> {
    s.map_values(|e: FileOpenEntry| with_match(e, filter))
}

/// The entries kept from a directory listing: hidden names drop out unless
/// hidden files are shown, and each kept entry carries its match flag.
pub open spec fn kept_entries(v: Seq<FsEntry>, show_hidden: bool, filter: Seq<char>) -> Seq<
    FileOpenEntry,
>
    decreases v.len(),
{
    if v.len() == 0 {
        Seq::empty()
    } else {
        let rest = kept_entries(v.drop_last(), show_hidden, filter);
        let e = v.last();
        if show_hidden || !spec_is_hidden(e.name@) {
            rest.push(FileOpenEntry { fs_entry: e, matches_filter: spec_matches(e.name@, filter) })
        } else {
            rest
        }
    }
}

/// Index of the first entry at or after `i` that matches the filter.
pub open spec fn first_match_from(s: Seq<FileOpenEntry>, i: int) -> Option<int>
    decreases s.len() - i,
{
    if i < 0 || i >= s.len() {
        Option::None
    } else if s[i].matches_filter {
        Option::Some(i)
    } else {
        first_match_from(s, i + 1)
    }
}

/// How many entries of a run match the filter.
pub open spec fn count_matches(s: Seq<FileOpenEntry>) -> int
    decreases s.len(),
{
    if s.len() == 0 {
        0
    } else {
        count_matches(s.drop_last()) + if s.last().matches_filter {
            1int
        } else {
            0int
        }
    }
}

/// The scroll offset that keeps the selection visible in a window of
/// `rows` lines starting at `scroll`.
pub open spec fn spec_scrolled(selected: int, scroll: int, rows: int) -> int {
    if selected < scroll {
        selected
    } else if selected >= scroll + rows {
        selected - (rows - 1)
    } else {
        scroll
    }
}

/// Whether a file name counts as hidden: it starts with a dot.
fn is_hidden(name: &str) -> (r: bool)
    ensures
        r == spec_is_hidden(name@),
{
    if name.unicode_len() == 0 {
        false
    } else {
        name.get_char(0) == '.'
    }
}

/// Whether a name matches the filter, both case folded.
fn matches_filter_text(name: &str, filter: &str) -> (r: bool)
    ensures
        r == spec_matches(name@, filter@),
{
    if filter.unicode_len() == 0 {
        return true;
    }
    let name_lower = to_lowercase(name);
    let filter_lower = to_lowercase(filter);
    str_contains(name_lower.as_str(), filter_lower.as_str())
}

/// Build navigation shortcuts for the given directory: its parent when it
/// has one, the root, and whichever of the home, documents and downloads
/// directories the host environment reports.
fn build_shortcuts(current_dir: &String) -> (r: Vec<NavigationShortcut>)
    ensures
        ({
            let base: int = match spec_parent_of(current_dir@) {
                Option::Some(_) => 1,
                Option::None => 0,
            };
            &&& r@.len() >= base + 1
            &&& (spec_parent_of(current_dir@) matches Some(p) ==> r@[0].label@ == ".."@
                && r@[0].path@ == p)
            &&& r@[base].label@ == "/"@
            &&& r@[base].path@ == "/"@
        }),
{
    let mut shortcuts: Vec<NavigationShortcut> = Vec::new();

    // Parent directory.
    match parent_of(current_dir.as_str()) {
        Option::Some(parent) => {
            shortcuts.push(
                NavigationShortcut {
                    label: String::from_str(".."),
                    path: parent,
                    description: String::from_str("Parent directory"),
                },
            );
        },
        Option::None => {},
    }

    // Root directory.
    shortcuts.push(
        NavigationShortcut {
            label: String::from_str("/"),
            path: String::from_str("/"),
            description: String::from_str("Root directory"),
        },
    );

    // Home directory.
    match host_dirs::home_dir() {
        Option::Some(home) => {
            shortcuts.push(
                NavigationShortcut {
                    label: String::from_str("~"),
                    path: home,
                    description: String::from_str("Home directory"),
                },
            );
        },
        Option::None => {},
    }

    // Documents directory.
    match host_dirs::document_dir() {
        Option::Some(docs) => {
            shortcuts.push(
                NavigationShortcut {
                    label: String::from_str("Documents"),
                    path: docs,
                    description: String::from_str("Documents folder"),
                },
            );
        },
        Option::None => {},
    }

    // Downloads directory.
    match host_dirs::download_dir() {
        Option::Some(downloads) => {
            shortcuts.push(
                NavigationShortcut {
                    label: String::from_str("Downloads"),
                    path: downloads,
                    description: String::from_str("Downloads folder"),
                },
            );
        },
        Option::None => {},
    }

    shortcuts
}

/// The state with the selection moved to `sel` and the scroll pulled along
/// just enough to keep it visible.
pub open spec fn spec_with_selection(s: FileOpenState, sel: usize) -> FileOpenState {
FileOpenState {
    selected_index: sel,
    scroll_offset: spec_scrolled(
        sel as int,
        s.scroll_offset as int,
        DEFAULT_VISIBLE_ROWS as int,
    ) as usize,
    ..s
}
}

/// The state after moving the selection up one entry.
pub open spec fn spec_select_prev(s: FileOpenState) -> FileOpenState {
match s.active_section {
    FileOpenSection::Navigation => {
        if s.selected_shortcut > 0 {
            FileOpenState { selected_shortcut: (s.selected_shortcut - 1) as usize, ..s }
        } else {
            s
        }
    },
    FileOpenSection::Files => {
        if s.selected_index > 0 {
            spec_with_selection(s, (s.selected_index - 1) as usize)
        } else {
            s
        }
    },
}
}

/// The state after moving the selection down one entry.
pub open spec fn spec_select_next(s: FileOpenState) -> FileOpenState {
match s.active_section {
    FileOpenSection::Navigation => {
        if s.selected_shortcut + 1 < s.shortcuts@.len() {
            FileOpenState { selected_shortcut: (s.selected_shortcut + 1) as usize, ..s }
        } else {
            s
        }
    },
    FileOpenSection::Files => {
        if s.selected_index + 1 < s.entries@.len() {
            spec_with_selection(s, (s.selected_index + 1) as usize)
        } else {
            s
        }
    },
}
}

/// The state after paging the file list up.
pub open spec fn spec_page_up(s: FileOpenState, page_size: usize) -> FileOpenState {
if s.active_section == FileOpenSection::Files {
    spec_with_selection(
        s,
        (if s.selected_index >= page_size {
            s.selected_index - page_size
        } else {
            0int
        }) as usize,
    )
} else {
    s
}
}

/// The state after paging the file list down, stopping at the last entry.
pub open spec fn spec_page_down(s: FileOpenState, page_size: usize) -> FileOpenState {
if s.active_section == FileOpenSection::Files {
    let last = if s.entries@.len() == 0 {
        0int
    } else {
        s.entries@.len() - 1
    };
    let target = if s.selected_index + page_size > last {
        last
    } else {
        s.selected_index + page_size
    };
    spec_with_selection(s, target as usize)
} else {
    s
}
}

/// The state after jumping to the first entry of the active section.
pub open spec fn spec_select_first(s: FileOpenState) -> FileOpenState {
match s.active_section {
    FileOpenSection::Navigation => FileOpenState { selected_shortcut: 0, ..s },
    FileOpenSection::Files => FileOpenState { selected_index: 0, scroll_offset: 0, ..s },
}
}

/// The state after jumping to the last entry of the active section.
pub open spec fn spec_select_last(s: FileOpenState) -> FileOpenState {
match s.active_section {
    FileOpenSection::Navigation => FileOpenState {
        selected_shortcut: (if s.shortcuts@.len() == 0 {
            0int
        } else {
            s.shortcuts@.len() - 1
        }) as usize,
        ..s
    },
    FileOpenSection::Files => spec_with_selection(
        s,
        (if s.entries@.len() == 0 {
            0int
        } else {
            s.entries@.len() - 1
        }) as usize,
    ),
}
}

/// The state with the other section active.
pub open spec fn spec_switch_section(s: FileOpenState) -> FileOpenState {
FileOpenState {
    active_section: if s.active_section == FileOpenSection::Navigation {
        FileOpenSection::Files
    } else {
        FileOpenSection::Navigation
    },
    ..s
}
}


/// How applying filter text changes the dialog state: every entry's match
/// flag is recomputed, the list is re-sorted so matches come first, and
/// the selection jumps to the first matching entry when it stopped
/// matching; nothing else moves.
pub open spec fn filter_applied(pre: FileOpenState, post: FileOpenState, filter: Seq<char>) -> bool {
    &&& post.filter@ == filter
    &&& post.entries@ == spec_stable_sort(
        refiltered(pre.entries@, filter),
        pre.sort_mode,
        pre.sort_ascending,
    )
    &&& post.entries@.to_multiset() == refiltered(pre.entries@, filter).to_multiset()
    &&& sorted_by(post.entries@, pre.sort_mode, pre.sort_ascending)
    &&& ({
        let s = post.entries@;
        let sel = pre.selected_index as int;
        if s.len() > 0 && sel < s.len() && !s[sel].matches_filter && first_match_from(s, 0)
            is Some {
            &&& post.selected_index as int == first_match_from(s, 0)->0
            &&& post.scroll_offset == spec_scrolled(
                post.selected_index as int,
                pre.scroll_offset as int,
                DEFAULT_VISIBLE_ROWS as int,
            )
        } else {
            &&& post.selected_index == pre.selected_index
            &&& post.scroll_offset == pre.scroll_offset
        }
    })
    &&& post.current_dir == pre.current_dir
    &&& post.loading == pre.loading
    &&& post.error == pre.error
    &&& post.sort_mode == pre.sort_mode
    &&& post.sort_ascending == pre.sort_ascending
    &&& post.active_section == pre.active_section
    &&& post.shortcuts == pre.shortcuts
    &&& post.selected_shortcut == pre.selected_shortcut
    &&& post.show_hidden == pre.show_hidden
}

/// How choosing a sort mode changes the dialog state: choosing the current
/// mode flips the direction, choosing another sorts ascending by it, and
/// the entries are re-sorted without gaining or losing any.
pub open spec fn sort_mode_set(pre: FileOpenState, post: FileOpenState, mode: SortMode) -> bool {
    &&& post.sort_mode == mode
    &&& post.sort_ascending == (if pre.sort_mode == mode {
        !pre.sort_ascending
    } else {
        true
    })
    &&& post.entries@ == spec_stable_sort(pre.entries@, mode, post.sort_ascending)
    &&& post.entries@.to_multiset() == pre.entries@.to_multiset()
    &&& sorted_by(post.entries@, mode, post.sort_ascending)
    &&& post.current_dir == pre.current_dir
    &&& post.loading == pre.loading
    &&& post.error == pre.error
    &&& post.selected_index == pre.selected_index
    &&& post.scroll_offset == pre.scroll_offset
    &&& post.active_section == pre.active_section
    &&& post.filter == pre.filter
    &&& post.shortcuts == pre.shortcuts
    &&& post.selected_shortcut == pre.selected_shortcut
    &&& post.show_hidden == pre.show_hidden
}

impl FileOpenState {
    /// Create a new file open state for the given directory, loading, with
    /// nothing listed yet, sorted ascending by name, and with the file
    /// list section active.
    pub fn new(dir: String) -> (r: FileOpenState)
        ensures
            r.current_dir == dir,
            r.entries@.len() == 0,
            r.loading,
            r.error is None,
            r.sort_mode == SortMode::Name,
            r.sort_ascending,
            r.selected_index == 0,
            r.scroll_offset == 0,
            r.active_section == FileOpenSection::Files,
            r.filter@.len() == 0,
            r.selected_shortcut == 0,
            !r.show_hidden,
            ({
                let base: int = match spec_parent_of(dir@) {
                    Option::Some(_) => 1,
                    Option::None => 0,
                };
                &&& r.shortcuts@.len() >= base + 1
                &&& (spec_parent_of(dir@) matches Some(p) ==> r.shortcuts@[0].label@ == ".."@
                    && r.shortcuts@[0].path@ == p)
                &&& r.shortcuts@[base].label@ == "/"@
            }),
    {
        let shortcuts = build_shortcuts(&dir);
        FileOpenState {
            current_dir: dir,
            entries: Vec::new(),
            loading: true,
            error: Option::None,
            sort_mode: SortMode::Name,
            sort_ascending: true,
            selected_index: 0,
            scroll_offset: 0,
            active_section: FileOpenSection::Files,
            filter: String::new(),
            shortcuts,
            selected_shortcut: 0,
            show_hidden: false,
        }
    }

    /// Rebuild the shortcuts after the directory changed and reset the
    /// shortcut selection.
    pub fn update_shortcuts(&mut self)
        ensures
            final(self).selected_shortcut == 0,
            ({
                let base: int = match spec_parent_of(old(self).current_dir@) {
                    Option::Some(_) => 1,
                    Option::None => 0,
                };
                &&& final(self).shortcuts@.len() >= base + 1
                &&& (spec_parent_of(old(self).current_dir@) matches Some(p) ==> final(self).shortcuts@[0].label@ == ".."@ && final(self).shortcuts@[0].path@ == p)
                &&& final(self).shortcuts@[base].label@ == "/"@
            }),
            final(self).current_dir == old(self).current_dir,
            final(self).entries == old(self).entries,
            final(self).loading == old(self).loading,
            final(self).error == old(self).error,
            final(self).sort_mode == old(self).sort_mode,
            final(self).sort_ascending == old(self).sort_ascending,
            final(self).selected_index == old(self).selected_index,
            final(self).scroll_offset == old(self).scroll_offset,
            final(self).active_section == old(self).active_section,
            final(self).filter == old(self).filter,
            final(self).show_hidden == old(self).show_hidden,
    {
        let shortcuts = build_shortcuts(&self.current_dir);
        self.shortcuts = shortcuts;
        self.selected_shortcut = 0;
    }

    /// Take the entries the directory loader produced: hidden names drop
    /// out unless hidden files are shown, the filter marks each survivor,
    /// the list is sorted, and the selection returns to the top.
    pub fn set_entries(&mut self, entries: Vec<FsEntry>)
        ensures
            final(self).entries@ == spec_stable_sort(
                kept_entries(entries@, old(self).show_hidden, old(self).filter@),
                old(self).sort_mode,
                old(self).sort_ascending,
            ),
            final(self).entries@.to_multiset() == kept_entries(
                entries@,
                old(self).show_hidden,
                old(self).filter@,
            ).to_multiset(),
            sorted_by(final(self).entries@, old(self).sort_mode, old(self).sort_ascending),
            !final(self).loading,
            final(self).error is None,
            final(self).selected_index == 0,
            final(self).scroll_offset == 0,
            final(self).current_dir == old(self).current_dir,
            final(self).sort_mode == old(self).sort_mode,
            final(self).sort_ascending == old(self).sort_ascending,
            final(self).active_section == old(self).active_section,
            final(self).filter == old(self).filter,
            final(self).shortcuts == old(self).shortcuts,
            final(self).selected_shortcut == old(self).selected_shortcut,
            final(self).show_hidden == old(self).show_hidden,
    {
        let n = entries.len();
        let mut kept: Vec<FileOpenEntry> = Vec::new();
        let mut i: usize = 0;
        while i < n
            invariant
                n == entries@.len(),
                i <= n,
                kept@ == kept_entries(entries@.take(i as int), self.show_hidden, self.filter@),
                self == old(self),
            decreases n - i,
        {
            let e = entries[i].clone();
            proof {
                assert(entries@.take(i + 1).drop_last() =~= entries@.take(i as int));
                assert(entries@.take(i + 1).last() == entries@[i as int]);
            }
            if self.show_hidden || !is_hidden(e.name.as_str()) {
                let m = matches_filter_text(e.name.as_str(), self.filter.as_str());
                kept.push(FileOpenEntry { fs_entry: e, matches_filter: m });
            }
            i += 1;
        }
        proof {
            assert(entries@.take(n as int) =~= entries@);
        }
        self.entries = kept;
        self.loading = false;
        self.error = Option::None;
        let mode = self.sort_mode;
        let ascending = self.sort_ascending;
        sort_entry_vec(&mut self.entries, mode, ascending);
        self.selected_index = 0;
        self.scroll_offset = 0;
    }

    /// Record a directory load failure: the list empties and the message
    /// is kept for rendering.
    pub fn set_error(&mut self, error: String)
        ensures
            !final(self).loading,
            final(self).error == Some(error),
            final(self).entries@.len() == 0,
            final(self).current_dir == old(self).current_dir,
            final(self).sort_mode == old(self).sort_mode,
            final(self).sort_ascending == old(self).sort_ascending,
            final(self).selected_index == old(self).selected_index,
            final(self).scroll_offset == old(self).scroll_offset,
            final(self).active_section == old(self).active_section,
            final(self).filter == old(self).filter,
            final(self).shortcuts == old(self).shortcuts,
            final(self).selected_shortcut == old(self).selected_shortcut,
            final(self).show_hidden == old(self).show_hidden,
    {
        self.loading = false;
        self.error = Option::Some(error);
        self.entries.clear();
    }

    /// Recompute every entry's match flag against the current filter.
    fn apply_filter_internal(&mut self)
        ensures
            final(self).entries@ == refiltered(old(self).entries@, old(self).filter@),
            final(self).current_dir == old(self).current_dir,
            final(self).loading == old(self).loading,
            final(self).error == old(self).error,
            final(self).sort_mode == old(self).sort_mode,
            final(self).sort_ascending == old(self).sort_ascending,
            final(self).selected_index == old(self).selected_index,
            final(self).scroll_offset == old(self).scroll_offset,
            final(self).active_section == old(self).active_section,
            final(self).filter == old(self).filter,
            final(self).shortcuts == old(self).shortcuts,
            final(self).selected_shortcut == old(self).selected_shortcut,
            final(self).show_hidden == old(self).show_hidden,
    {
        let n = self.entries.len();
        let mut remarked: Vec<FileOpenEntry> = Vec::new();
        let mut i: usize = 0;
        while i < n
            invariant
                n == self.entries@.len(),
                i <= n,
                remarked@.len() == i,
                forall|k: int|
                    0 <= k < i ==> remarked@[k] == with_match(
                        #[trigger] self.entries@[k],
                        self.filter@,
                    ),
                self == old(self),
            decreases n - i,
        {
            let e = self.entries[i].clone();
            let m = matches_filter_text(e.fs_entry.name.as_str(), self.filter.as_str());
            remarked.push(FileOpenEntry { fs_entry: e.fs_entry, matches_filter: m });
            i += 1;
        }
        proof {
            assert(remarked@ =~= refiltered(self.entries@, self.filter@));
        }
        self.entries = remarked;
    }

    /// Apply filter text to the entries: every match flag is recomputed,
    /// the list is re-sorted so matches come first, and the selection
    /// jumps to the first matching entry when it stopped matching.
    pub fn apply_filter(&mut self, filter: &str)
        ensures
            filter_applied(*old(self), *final(self), filter@),
    {
        self.filter = filter.to_owned();
        self.apply_filter_internal();
        self.sort_entries();

        // Keep the selection on a matching entry when possible.
        if self.entries.len() > 0 && self.selected_index < self.entries.len()
            && !self.entries[self.selected_index].matches_filter {
            match self.position_of_first_match() {
                Option::Some(first_match) => {
                    self.selected_index = first_match;
                    self.ensure_selected_visible();
                },
                Option::None => {},
            }
        }
    }

    /// Index of the first entry matching the filter, if any does.
    fn position_of_first_match(&self) -> (r: Option<usize>)
        ensures
            match first_match_from(self.entries@, 0) {
                Option::Some(i) => 0 <= i < self.entries@.len() && r == Some(i as usize),
                Option::None => r is None,
            },
    {
        let n = self.entries.len();
        let mut i: usize = 0;
        while i < n
            invariant
                n == self.entries@.len(),
                i <= n,
                first_match_from(self.entries@, 0) == first_match_from(self.entries@, i as int),
            decreases n - i,
        {
            if self.entries[i].matches_filter {
                return Option::Some(i);
            }
            i += 1;
        }
        Option::None
    }

    /// Sort the entries stably into the list order: matching entries
    /// first, then directories, then the sort mode's key in the current
    /// direction; entries with equal keys keep their order.
    pub fn sort_entries(&mut self)
        ensures
            final(self).entries@ == spec_stable_sort(
                old(self).entries@,
                old(self).sort_mode,
                old(self).sort_ascending,
            ),
            final(self).entries@.to_multiset() == old(self).entries@.to_multiset(),
            sorted_by(final(self).entries@, old(self).sort_mode, old(self).sort_ascending),
            final(self).current_dir == old(self).current_dir,
            final(self).loading == old(self).loading,
            final(self).error == old(self).error,
            final(self).sort_mode == old(self).sort_mode,
            final(self).sort_ascending == old(self).sort_ascending,
            final(self).selected_index == old(self).selected_index,
            final(self).scroll_offset == old(self).scroll_offset,
            final(self).active_section == old(self).active_section,
            final(self).filter == old(self).filter,
            final(self).shortcuts == old(self).shortcuts,
            final(self).selected_shortcut == old(self).selected_shortcut,
            final(self).show_hidden == old(self).show_hidden,
    {
        let mode = self.sort_mode;
        let ascending = self.sort_ascending;
        sort_entry_vec(&mut self.entries, mode, ascending);
    }

    /// Choose a sort mode: choosing the current one flips the direction,
    /// choosing another sorts ascending by it; the list is re-sorted.
    pub fn set_sort_mode(&mut self, mode: SortMode)
        ensures
            sort_mode_set(*old(self), *final(self), mode),
    {
        if self.sort_mode == mode {
            // The same mode again flips the direction.
            self.sort_ascending = !self.sort_ascending;
        } else {
            self.sort_mode = mode;
            self.sort_ascending = true;
        }
        self.sort_entries();
    }

    /// Flip whether hidden files are shown; the caller reloads the
    /// directory to make the change take effect.
    pub fn toggle_hidden(&mut self)
        ensures
            final(self).show_hidden == !old(self).show_hidden,
            *final(self) == (FileOpenState { show_hidden: !old(self).show_hidden, ..*old(self) }),
    {
        self.show_hidden = !self.show_hidden;
    }


    /// Move the selection up one entry in the active section.
    pub fn select_prev(&mut self)
        ensures
            *final(self) == spec_select_prev(*old(self)),
    {
        match self.active_section {
            FileOpenSection::Navigation => {
                if self.selected_shortcut > 0 {
                    self.selected_shortcut = self.selected_shortcut - 1;
                }
            },
            FileOpenSection::Files => {
                if self.selected_index > 0 {
                    self.selected_index = self.selected_index - 1;
                    self.ensure_selected_visible();
                }
            },
        }
    }

    /// Move the selection down one entry in the active section.
    pub fn select_next(&mut self)
        ensures
            *final(self) == spec_select_next(*old(self)),
    {
        match self.active_section {
            FileOpenSection::Navigation => {
                let len = self.shortcuts.len();
                if len > 0 && self.selected_shortcut < len - 1 {
                    self.selected_shortcut = self.selected_shortcut + 1;
                }
            },
            FileOpenSection::Files => {
                let len = self.entries.len();
                if len > 0 && self.selected_index < len - 1 {
                    self.selected_index = self.selected_index + 1;
                    self.ensure_selected_visible();
                }
            },
        }
    }

    /// Move the selection up by a page in the file list.
    pub fn page_up(&mut self, page_size: usize)
        ensures
            *final(self) == spec_page_up(*old(self), page_size),
    {
        if self.active_section == FileOpenSection::Files {
            self.selected_index = self.selected_index.saturating_sub(page_size);
            self.ensure_selected_visible();
        }
    }

    /// Move the selection down by a page in the file list, stopping at the
    /// last entry.
    pub fn page_down(&mut self, page_size: usize)
        ensures
            *final(self) == spec_page_down(*old(self), page_size),
    {
        if self.active_section == FileOpenSection::Files {
            let last = if self.entries.len() == 0 {
                0
            } else {
                self.entries.len() - 1
            };
            let target = self.selected_index.saturating_add(page_size);
            self.selected_index = if target > last {
                last
            } else {
                target
            };
            self.ensure_selected_visible();
        }
    }

    /// Jump to the first entry of the active section.
    pub fn select_first(&mut self)
        ensures
            *final(self) == spec_select_first(*old(self)),
    {
        match self.active_section {
            FileOpenSection::Navigation => {
                self.selected_shortcut = 0;
            },
            FileOpenSection::Files => {
                self.selected_index = 0;
                self.scroll_offset = 0;
            },
        }
    }

    /// Jump to the last entry of the active section.
    pub fn select_last(&mut self)
        ensures
            *final(self) == spec_select_last(*old(self)),
    {
        match self.active_section {
            FileOpenSection::Navigation => {
                self.selected_shortcut = self.shortcuts.len().saturating_sub(1);
            },
            FileOpenSection::Files => {
                self.selected_index = self.entries.len().saturating_sub(1);
                self.ensure_selected_visible();
            },
        }
    }

    /// Scroll just enough to keep the selection visible, assuming the
    /// default number of visible rows until the renderer reports one.
    fn ensure_selected_visible(&mut self)
        ensures
            *final(self) == (FileOpenState {
                scroll_offset: spec_scrolled(
                    old(self).selected_index as int,
                    old(self).scroll_offset as int,
                    DEFAULT_VISIBLE_ROWS as int,
                ) as usize,
                ..*old(self)
            }),
    {
        if self.selected_index < self.scroll_offset {
            self.scroll_offset = self.selected_index;
        } else if self.selected_index >= self.scroll_offset
            && self.selected_index - self.scroll_offset >= DEFAULT_VISIBLE_ROWS {
            self.scroll_offset = self.selected_index - (DEFAULT_VISIBLE_ROWS - 1);
        }
    }

    /// Scroll just enough to keep the selection visible in the given
    /// number of rows.
    pub fn update_scroll_for_visible_rows(&mut self, visible_rows: usize)
        requires
            visible_rows >= 1,
        ensures
            *final(self) == (FileOpenState {
                scroll_offset: spec_scrolled(
                    old(self).selected_index as int,
                    old(self).scroll_offset as int,
                    visible_rows as int,
                ) as usize,
                ..*old(self)
            }),
    {
        if self.selected_index < self.scroll_offset {
            self.scroll_offset = self.selected_index;
        } else if self.selected_index >= self.scroll_offset
            && self.selected_index - self.scroll_offset >= visible_rows {
            self.scroll_offset = self.selected_index - (visible_rows - 1);
        }
    }

    /// Switch between the navigation and file list sections.
    pub fn switch_section(&mut self)
        ensures
            *final(self) == spec_switch_section(*old(self)),
    {
        self.active_section = match self.active_section {
            FileOpenSection::Navigation => FileOpenSection::Files,
            FileOpenSection::Files => FileOpenSection::Navigation,
        };
    }

    /// The selected file entry, when the file list is active and the
    /// selection is in range.
    pub fn selected_entry(&self) -> (r: Option<&FileOpenEntry>)
        ensures
            (self.active_section == FileOpenSection::Files && self.selected_index
                < self.entries@.len()) ==> (r matches Some(e) && *e == self.entries@[self.selected_index as int]),
            !(self.active_section == FileOpenSection::Files && self.selected_index
                < self.entries@.len()) ==> r is None,
    {
        if self.active_section == FileOpenSection::Files && self.selected_index
            < self.entries.len() {
            Option::Some(&self.entries[self.selected_index])
        } else {
            Option::None
        }
    }

    /// The selected shortcut, when the navigation section is active and
    /// the selection is in range.
    pub fn selected_shortcut_entry(&self) -> (r: Option<&NavigationShortcut>)
        ensures
            (self.active_section == FileOpenSection::Navigation && self.selected_shortcut
                < self.shortcuts@.len()) ==> (r matches Some(e) && *e == self.shortcuts@[self.selected_shortcut as int]),
            !(self.active_section == FileOpenSection::Navigation && self.selected_shortcut
                < self.shortcuts@.len()) ==> r is None,
    {
        if self.active_section == FileOpenSection::Navigation && self.selected_shortcut
            < self.shortcuts.len() {
            Option::Some(&self.shortcuts[self.selected_shortcut])
        } else {
            Option::None
        }
    }

    /// The path to open or navigate to for the current selection.
    pub fn get_selected_path(&self) -> (r: Option<String>)
        ensures
            self.active_section == FileOpenSection::Navigation ==> {
                if self.selected_shortcut < self.shortcuts@.len() {
                    r matches Some(p) && p == self.shortcuts@[self.selected_shortcut as int].path
                } else {
                    r is None
                }
            },
            self.active_section == FileOpenSection::Files ==> {
                if self.selected_index < self.entries@.len() {
                    r matches Some(p) && p == self.entries@[self.selected_index as int].fs_entry.path
                } else {
                    r is None
                }
            },
    {
        match self.active_section {
            FileOpenSection::Navigation => {
                if self.selected_shortcut < self.shortcuts.len() {
                    Option::Some(self.shortcuts[self.selected_shortcut].path.clone())
                } else {
                    Option::None
                }
            },
            FileOpenSection::Files => {
                if self.selected_index < self.entries.len() {
                    Option::Some(self.entries[self.selected_index].fs_entry.path.clone())
                } else {
                    Option::None
                }
            },
        }
    }

    /// Whether the current selection is a directory; shortcuts always are.
    pub fn selected_is_dir(&self) -> (r: bool)
        ensures
            self.active_section == FileOpenSection::Navigation ==> r,
            self.active_section == FileOpenSection::Files ==> r == (self.selected_index
                < self.entries@.len() && self.entries@[self.selected_index as int].fs_entry.entry_type == FsEntryType::Directory),
    {
        match self.active_section {
            FileOpenSection::Navigation => true,
            FileOpenSection::Files => {
                if self.selected_index < self.entries.len() {
                    self.entries[self.selected_index].fs_entry.is_dir()
                } else {
                    false
                }
            },
        }
    }

    /// How many entries match the current filter.
    pub fn matching_count(&self) -> (r: usize)
        ensures
            r == count_matches(self.entries@),
    {
        let n = self.entries.len();
        let mut count: usize = 0;
        let mut i: usize = 0;
        while i < n
            invariant
                n == self.entries@.len(),
                i <= n,
                count == count_matches(self.entries@.take(i as int)),
                count <= i,
            decreases n - i,
        {
            proof {
                assert(self.entries@.take(i + 1).drop_last() =~= self.entries@.take(i as int));
                assert(self.entries@.take(i + 1).last() == self.entries@[i as int]);
            }
            if self.entries[i].matches_filter {
                count += 1;
            }
            i += 1;
        }
        proof {
            assert(self.entries@.take(n as int) =~= self.entries@);
        }
        count
    }

    /// The slice of entries a renderer shows: at most `max_rows` entries
    /// from the scroll offset on.
    pub fn visible_entries(&self, max_rows: usize) -> (r: &[FileOpenEntry])
        ensures
            ({
                let len = self.entries@.len() as int;
                let start = if self.scroll_offset as int > len {
                    len
                } else {
                    self.scroll_offset as int
                };
                let end = if start + max_rows > len {
                    len
                } else {
                    start + max_rows
                };
                r@ == self.entries@.subrange(start, end)
            }),
    {
        let len = self.entries.len();
        let start = if self.scroll_offset > len {
            len
        } else {
            self.scroll_offset
        };
        let end = if max_rows > len - start {
            len
        } else {
            start + max_rows
        };
        vstd::slice::slice_subrange(self.entries.as_slice(), start, end)
    }
}

/// One binary kilobyte.
pub const KB: u64 = 1024;

/// One binary megabyte.
pub const MB: u64 = KB * 1024;

/// One binary gigabyte.
pub const GB: u64 = MB * 1024;

/// A size scaled by a unit, in tenths, rounded to nearest with ties going
/// to the even tenth.
pub open spec fn spec_size_tenths(size: int, unit: int) -> int
    recommends
        unit >= 1,
{
    let whole = size / unit;
    let rest = size % unit;
    let tenth = (rest * 10) / unit;
    let rem = (rest * 10) % unit;
    let q = whole * 10 + tenth;
    if 2 * rem > unit {
        q + 1
    } else if 2 * rem == unit && q % 2 == 1 {
        q + 1
    } else {
        q
    }
}

/// A tenths count written as a decimal with one fractional digit.
pub open spec fn spec_one_decimal(tenths: int) -> Seq<char> {
    dec_str(tenths / 10) + "."@ + seq![digit_char(tenths % 10)]
}

/// A size written for people: whole bytes below a kilobyte, and above it
/// one fractional digit in the largest unit the size reaches.
pub open spec fn spec_format_size(size: int) -> Seq<char> {
    if size >= GB {
        spec_one_decimal(spec_size_tenths(size, GB as int)) + " GB"@
    } else if size >= MB {
        spec_one_decimal(spec_size_tenths(size, MB as int)) + " MB"@
    } else if size >= KB {
        spec_one_decimal(spec_size_tenths(size, KB as int)) + " KB"@
    } else {
        dec_str(size) + " B"@
    }
}

/// The decimal with one fractional digit, followed by the unit's suffix.
fn one_decimal_with(tenths: u64, suffix: &str) -> (r: String)
    ensures
        r@ == spec_one_decimal(tenths as int) + suffix@,
{
    let mut s = u64_to_decimal(tenths / 10);
    s.append(".");
    s.append(crate::text::digit_str(tenths % 10));
    s.append(suffix);
    s
}

/// Format a file size in human-readable form.
pub fn format_size(size: u64) -> (r: String)
    ensures
        r@ == spec_format_size(size as int),
{
    if size >= GB {
        let whole = size / GB;
        let rest = size % GB;
        let tenth = (rest * 10) / GB;
        let rem = (rest * 10) % GB;
        let q = whole * 10 + tenth;
        let t = if 2 * rem > GB {
            q + 1
        } else if 2 * rem == GB && q % 2 == 1 {
            q + 1
        } else {
            q
        };
        one_decimal_with(t, " GB")
    } else if size >= MB {
        let whole = size / MB;
        let rest = size % MB;
        let tenth = (rest * 10) / MB;
        let rem = (rest * 10) % MB;
        let q = whole * 10 + tenth;
        let t = if 2 * rem > MB {
            q + 1
        } else if 2 * rem == MB && q % 2 == 1 {
            q + 1
        } else {
            q
        };
        one_decimal_with(t, " MB")
    } else if size >= KB {
        let whole = size / KB;
        let rest = size % KB;
        let tenth = (rest * 10) / KB;
        let rem = (rest * 10) % KB;
        let q = whole * 10 + tenth;
        let t = if 2 * rem > KB {
            q + 1
        } else if 2 * rem == KB && q % 2 == 1 {
            q + 1
        } else {
            q
        };
        one_decimal_with(t, " KB")
    } else {
        let mut s = u64_to_decimal(size);
        s.append(" B");
        s
    }
}

/// The relative age a modification time is written as, when it is recent
/// enough; older times fall back to a calendar date.
pub open spec fn spec_format_age(age: int) -> Option<Seq<char>> {
    if age < 60 {
        Option::Some("just now"@)
    } else if age < 3600 {
        Option::Some(dec_str(age / 60) + " min ago"@)
    } else if age < 86400 {
        Option::Some(dec_str(age / 3600) + " hr ago"@)
    } else if age < 604800 {
        Option::Some(dec_str(age / 86400) + " days ago"@)
    } else {
        Option::None
    }
}

/// Relies on chrono's timestamp conversion and formatting: writes the
/// moment `secs` after the epoch as a calendar date in the machine's local
/// time zone, which this crate cannot predict, so nothing is promised.
#[verifier::external_body]
fn format_date_ymd(secs: u64) -> (r: String) {
    match chrono::DateTime::from_timestamp(i64::try_from(secs).unwrap_or(i64::MAX), 0) {
        Some(moment) => moment.with_timezone(&chrono::Local).format("%Y-%m-%d").to_string(),
        None => String::new(),
    }
}

/// Format a modification time relative to now: recent times in relative
/// words, anything a week old or in the future as a calendar date.
pub fn format_modified(now_secs: u64, modified_secs: u64) -> (r: String)
    ensures
        now_secs >= modified_secs ==> match spec_format_age(now_secs - modified_secs) {
            Option::Some(text) => r@ == text,
            Option::None => true,
        },
{
    if now_secs >= modified_secs {
        let age = now_secs - modified_secs;
        if age < 60 {
            String::from_str("just now")
        } else if age < 3600 {
            let mut s = u64_to_decimal(age / 60);
            s.append(" min ago");
            s
        } else if age < 86400 {
            let mut s = u64_to_decimal(age / 3600);
            s.append(" hr ago");
            s
        } else if age < 604800 {
            let mut s = u64_to_decimal(age / 86400);
            s.append(" days ago");
            s
        } else {
            format_date_ymd(modified_secs)
        }
    } else {
        // The time lies in the future; write it as a date.
        format_date_ymd(modified_secs)
    }
}

} // verus!
