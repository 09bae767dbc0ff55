use std::cmp::Ordering;

use editor_core::cursor::ViewPosition;
use editor_core::path_util::{extension_of, parent_of};
use editor_core::selection::Selection;
use editor_core::settings::humanize_name;
use editor_core::text::{parse_usize_chars, str_contains, str_lex_cmp, trim_spaces, u64_to_decimal};

fn pos(line: usize, column: usize) -> ViewPosition {
    ViewPosition {
        view_line: Some(line),
        column: Some(column),
        source_byte: None,
    }
}

#[test]
fn test_humanize_name() {
    assert_eq!(humanize_name("tab_size"), "Tab Size");
    assert_eq!(humanize_name("line_numbers"), "Line Numbers");
    assert_eq!(humanize_name("check_for_updates"), "Check For Updates");
    assert_eq!(humanize_name("lsp"), "Lsp");
}

#[test]
fn test_selection_normalized() {
    let forward = Selection::new(pos(0, 1), pos(2, 0));
    assert_eq!(forward.normalized(), forward);

    let backward = Selection::new(pos(2, 0), pos(0, 1));
    let normalized = backward.normalized();
    assert_eq!(normalized.start, pos(0, 1));
    assert_eq!(normalized.end, pos(2, 0));
}

#[test]
fn test_selection_is_empty() {
    assert!(Selection::new(pos(1, 2), pos(1, 2)).is_empty());
    assert!(!Selection::new(pos(1, 2), pos(1, 3)).is_empty());
}

#[test]
fn test_selection_len() {
    // Same line: exact column distance.
    assert_eq!(Selection::new(pos(0, 2), pos(0, 7)).len(), 5);
    // Backward on one line saturates at zero.
    assert_eq!(Selection::new(pos(0, 7), pos(0, 2)).len(), 0);
    // Across lines: the assumed-width approximation.
    assert_eq!(Selection::new(pos(0, 3), pos(2, 4)).len(), 2 * 80 + 4);
    // Unresolved coordinates yield zero.
    let unresolved = ViewPosition {
        view_line: None,
        column: Some(1),
        source_byte: None,
    };
    assert_eq!(Selection::new(unresolved, pos(0, 5)).len(), 0);
}

#[test]
fn test_selection_tuple_round_trip() {
    let s = Selection::from_tuple((pos(1, 1), pos(2, 2)));
    assert_eq!(s.to_tuple(), (pos(1, 1), pos(2, 2)));
}

#[test]
fn test_str_contains() {
    assert!(str_contains("foobar", "oba"));
    assert!(str_contains("foobar", ""));
    assert!(str_contains("foobar", "foobar"));
    assert!(!str_contains("foobar", "baz"));
    assert!(!str_contains("fo", "foo"));
}

#[test]
fn test_str_lex_cmp() {
    assert_eq!(str_lex_cmp("apple", "apple"), Ordering::Equal);
    assert_eq!(str_lex_cmp("apple", "banana"), Ordering::Less);
    assert_eq!(str_lex_cmp("banana", "apple"), Ordering::Greater);
    assert_eq!(str_lex_cmp("app", "apple"), Ordering::Less);
}

#[test]
fn test_u64_to_decimal() {
    assert_eq!(u64_to_decimal(0), "0");
    assert_eq!(u64_to_decimal(7), "7");
    assert_eq!(u64_to_decimal(1024), "1024");
    assert_eq!(u64_to_decimal(18446744073709551615), "18446744073709551615");
}

#[test]
fn test_parse_usize_chars() {
    assert_eq!(parse_usize_chars("42"), Some(42));
    assert_eq!(parse_usize_chars("+42"), Some(42));
    assert_eq!(parse_usize_chars("0"), Some(0));
    assert_eq!(parse_usize_chars(""), None);
    assert_eq!(parse_usize_chars("+"), None);
    assert_eq!(parse_usize_chars("4a"), None);
    assert_eq!(parse_usize_chars("-4"), None);
    assert_eq!(parse_usize_chars("99999999999999999999999999"), None);
}

#[test]
fn test_trim_spaces() {
    assert_eq!(trim_spaces("  42  "), "42");
    assert_eq!(trim_spaces("\t7\n"), "7");
    assert_eq!(trim_spaces("x"), "x");
    assert_eq!(trim_spaces("   "), "");
    assert_eq!(trim_spaces(""), "");
    // The full Unicode White_Space set is stripped, as str::trim does.
    assert_eq!(trim_spaces("\u{00A0}8\u{3000}"), "8");
    assert_eq!(trim_spaces("\u{2028}9\u{2029}"), "9");
    assert_eq!("\u{00A0}8\u{3000}".trim(), trim_spaces("\u{00A0}8\u{3000}"));
}

#[test]
fn test_parent_of() {
    assert_eq!(parent_of("/test/sub"), Some(String::from("/test")));
    assert_eq!(parent_of("/test"), Some(String::from("/")));
    assert_eq!(parent_of("/test/"), Some(String::from("/")));
    assert_eq!(parent_of("/"), None);
    assert_eq!(parent_of(""), None);
    assert_eq!(parent_of("name"), Some(String::new()));
}

#[test]
fn test_extension_of() {
    assert_eq!(extension_of("notes.txt"), "txt");
    assert_eq!(extension_of("archive.tar.gz"), "gz");
    assert_eq!(extension_of("Makefile"), "");
    assert_eq!(extension_of(".hidden"), "");
    assert_eq!(extension_of("trailing."), "");
}
