use editor_core::file_open::{
    format_modified, format_size, FileOpenSection, FileOpenState, FsEntry, FsEntryType, FsMetadata,
    SortMode,
};

fn make_entry(name: &str, is_dir: bool) -> FsEntry {
    FsEntry {
        path: format!("/test/{}", name),
        name: name.to_string(),
        entry_type: if is_dir {
            FsEntryType::Directory
        } else {
            FsEntryType::File
        },
        metadata: None,
    }
}

fn make_entry_with_size(name: &str, size: u64) -> FsEntry {
    let mut entry = make_entry(name, false);
    entry.metadata = Some(FsMetadata {
        size: Some(size),
        modified: None,
        is_hidden: false,
        is_readonly: false,
    });
    entry
}

fn make_entry_with_modified(name: &str, modified: Option<u64>) -> FsEntry {
    let mut entry = make_entry(name, false);
    entry.metadata = Some(FsMetadata {
        size: None,
        modified,
        is_hidden: false,
        is_readonly: false,
    });
    entry
}

#[test]
fn test_sort_by_name() {
    let mut state = FileOpenState::new(String::from("/test"));
    state.set_entries(vec![
        make_entry("zebra.txt", false),
        make_entry("alpha.txt", false),
        make_entry("beta", true),
    ]);

    assert_eq!(state.entries[0].fs_entry.name, "beta"); // Dir first
    assert_eq!(state.entries[1].fs_entry.name, "alpha.txt");
    assert_eq!(state.entries[2].fs_entry.name, "zebra.txt");
}

#[test]
fn test_sort_by_size() {
    let mut state = FileOpenState::new(String::from("/test"));
    state.sort_mode = SortMode::Size;
    state.set_entries(vec![
        make_entry_with_size("big.txt", 1000),
        make_entry_with_size("small.txt", 100),
        make_entry_with_size("medium.txt", 500),
    ]);

    assert_eq!(state.entries[0].fs_entry.name, "small.txt");
    assert_eq!(state.entries[1].fs_entry.name, "medium.txt");
    assert_eq!(state.entries[2].fs_entry.name, "big.txt");
}

#[test]
fn test_filter() {
    let mut state = FileOpenState::new(String::from("/test"));
    state.set_entries(vec![
        make_entry("foo.txt", false),
        make_entry("bar.txt", false),
        make_entry("foobar.txt", false),
    ]);

    state.apply_filter("foo");

    // Matching entries should come first
    assert!(state.entries[0].matches_filter);
    assert!(state.entries[1].matches_filter);
    assert!(!state.entries[2].matches_filter);

    assert_eq!(state.matching_count(), 2);
}

#[test]
fn test_filter_case_insensitive() {
    let mut state = FileOpenState::new(String::from("/test"));
    state.set_entries(vec![
        make_entry("README.md", false),
        make_entry("readme.txt", false),
        make_entry("other.txt", false),
    ]);

    state.apply_filter("readme");

    assert!(state.entries[0].matches_filter);
    assert!(state.entries[1].matches_filter);
    assert!(!state.entries[2].matches_filter);
}

#[test]
fn test_hidden_files() {
    let mut state = FileOpenState::new(String::from("/test"));
    state.show_hidden = false;
    state.set_entries(vec![
        make_entry(".hidden", false),
        make_entry("visible.txt", false),
    ]);

    // Hidden file should be filtered out
    assert_eq!(state.entries.len(), 1);
    assert_eq!(state.entries[0].fs_entry.name, "visible.txt");
}

#[test]
fn test_sort_is_stable() {
    // The two entries share the case-folded name key "same.txt"; sorting
    // keeps their input order, and re-sorting keeps it again.
    let mut state = FileOpenState::new(String::from("/test"));
    state.set_entries(vec![
        make_entry("zz.txt", false),
        make_entry("Same.txt", false),
        make_entry("same.TXT", false),
    ]);

    assert_eq!(state.entries[0].fs_entry.name, "Same.txt");
    assert_eq!(state.entries[1].fs_entry.name, "same.TXT");
    assert_eq!(state.entries[2].fs_entry.name, "zz.txt");

    state.sort_entries();
    assert_eq!(state.entries[0].fs_entry.name, "Same.txt");
    assert_eq!(state.entries[1].fs_entry.name, "same.TXT");

    // Equal size keys as well: input order survives a size sort.
    let mut by_size = FileOpenState::new(String::from("/test"));
    by_size.sort_mode = SortMode::Size;
    by_size.set_entries(vec![
        make_entry_with_size("first.txt", 10),
        make_entry_with_size("second.txt", 10),
        make_entry_with_size("third.txt", 10),
    ]);
    assert_eq!(by_size.entries[0].fs_entry.name, "first.txt");
    assert_eq!(by_size.entries[1].fs_entry.name, "second.txt");
    assert_eq!(by_size.entries[2].fs_entry.name, "third.txt");
}

#[test]
fn test_format_size() {
    assert_eq!(format_size(500), "500 B");
    assert_eq!(format_size(1024), "1.0 KB");
    assert_eq!(format_size(1536), "1.5 KB");
    assert_eq!(format_size(1048576), "1.0 MB");
    assert_eq!(format_size(1073741824), "1.0 GB");
}

#[test]
fn test_navigation() {
    let mut state = FileOpenState::new(String::from("/test"));
    state.set_entries(vec![
        make_entry("a.txt", false),
        make_entry("b.txt", false),
        make_entry("c.txt", false),
    ]);

    assert_eq!(state.selected_index, 0);

    state.select_next();
    assert_eq!(state.selected_index, 1);

    state.select_next();
    assert_eq!(state.selected_index, 2);

    state.select_next(); // Should stay at last
    assert_eq!(state.selected_index, 2);

    state.select_prev();
    assert_eq!(state.selected_index, 1);

    state.select_first();
    assert_eq!(state.selected_index, 0);

    state.select_last();
    assert_eq!(state.selected_index, 2);
}

#[test]
fn test_sort_by_type_groups_extensions() {
    let mut state = FileOpenState::new(String::from("/test"));
    state.sort_mode = SortMode::Type;
    state.set_entries(vec![
        make_entry("notes.TXT", false),
        make_entry("main.rs", false),
        make_entry("readme.md", false),
    ]);

    assert_eq!(state.entries[0].fs_entry.name, "readme.md");
    assert_eq!(state.entries[1].fs_entry.name, "main.rs");
    assert_eq!(state.entries[2].fs_entry.name, "notes.TXT");
}

#[test]
fn test_sort_by_modified_unknown_last() {
    let mut state = FileOpenState::new(String::from("/test"));
    state.sort_mode = SortMode::Modified;
    state.set_entries(vec![
        make_entry_with_modified("newest.txt", Some(300)),
        make_entry_with_modified("unknown.txt", None),
        make_entry_with_modified("oldest.txt", Some(100)),
    ]);

    assert_eq!(state.entries[0].fs_entry.name, "oldest.txt");
    assert_eq!(state.entries[1].fs_entry.name, "newest.txt");
    assert_eq!(state.entries[2].fs_entry.name, "unknown.txt");
}

#[test]
fn test_toggle_sort_mode_flips_direction() {
    let mut state = FileOpenState::new(String::from("/test"));
    state.set_entries(vec![make_entry("a.txt", false), make_entry("b.txt", false)]);

    assert!(state.sort_ascending);
    state.set_sort_mode(SortMode::Name);
    assert!(!state.sort_ascending);
    assert_eq!(state.entries[0].fs_entry.name, "b.txt");
    assert_eq!(state.entries[1].fs_entry.name, "a.txt");

    state.set_sort_mode(SortMode::Size);
    assert_eq!(state.sort_mode, SortMode::Size);
    assert!(state.sort_ascending);
}

#[test]
fn test_page_and_scroll() {
    let mut state = FileOpenState::new(String::from("/test"));
    let entries: Vec<FsEntry> = (0..40)
        .map(|i| make_entry(&format!("file{:02}.txt", i), false))
        .collect();
    state.set_entries(entries);

    state.page_down(10);
    assert_eq!(state.selected_index, 10);

    state.page_down(100); // Clamps to the last entry
    assert_eq!(state.selected_index, 39);
    // The scroll keeps the selection within the default 15 visible rows.
    assert_eq!(state.scroll_offset, 39 - 14);

    state.page_up(100);
    assert_eq!(state.selected_index, 0);
    assert_eq!(state.scroll_offset, 0);
}

#[test]
fn test_switch_section_and_selection() {
    let mut state = FileOpenState::new(String::from("/test"));
    state.set_entries(vec![make_entry("dir", true), make_entry("file.txt", false)]);

    assert_eq!(state.active_section, FileOpenSection::Files);
    assert!(state.selected_is_dir()); // Directory sorts first and is selected
    assert_eq!(
        state.get_selected_path(),
        Some(String::from("/test/dir"))
    );

    state.switch_section();
    assert_eq!(state.active_section, FileOpenSection::Navigation);
    assert!(state.selected_is_dir()); // Shortcuts are always directories
    assert!(state.selected_shortcut_entry().is_some());
    assert_eq!(state.shortcuts[0].label, "..");
    assert_eq!(state.shortcuts[0].path, "/");
}

#[test]
fn test_set_error_clears_entries() {
    let mut state = FileOpenState::new(String::from("/test"));
    state.set_entries(vec![make_entry("a.txt", false)]);
    assert_eq!(state.entries.len(), 1);

    state.set_error(String::from("permission denied"));
    assert!(!state.loading);
    assert_eq!(state.error, Some(String::from("permission denied")));
    assert!(state.entries.is_empty());
}

#[test]
fn test_visible_entries_window() {
    let mut state = FileOpenState::new(String::from("/test"));
    let entries: Vec<FsEntry> = (0..30)
        .map(|i| make_entry(&format!("file{:02}.txt", i), false))
        .collect();
    state.set_entries(entries);
    state.scroll_offset = 5;

    let visible = state.visible_entries(10);
    assert_eq!(visible.len(), 10);
    assert_eq!(visible[0].fs_entry.name, "file05.txt");
    assert_eq!(visible[9].fs_entry.name, "file14.txt");
}

#[test]
fn test_format_size_rounding() {
    assert_eq!(format_size(0), "0 B");
    assert_eq!(format_size(1023), "1023 B");
    assert_eq!(format_size(1075), "1.0 KB");
    assert_eq!(format_size(1127), "1.1 KB");
    assert_eq!(format_size(10 * 1024 * 1024), "10.0 MB");
}

#[test]
fn test_format_modified_relative() {
    assert_eq!(format_modified(1000, 990), "just now");
    assert_eq!(format_modified(1000, 1000), "just now");
    assert_eq!(format_modified(10_000, 9_000), "16 min ago");
    assert_eq!(format_modified(100_000, 90_000), "2 hr ago");
    assert_eq!(format_modified(1_000_000, 700_000), "3 days ago");
}
