use editor_core::editor::{
    Action, CellRect, Editor, EditorEffect, FileBrowserLayout, GotoTarget, KeyContext, Prompt,
    PromptType,
};
use editor_core::file_open::{FileOpenSection, FileOpenState, FsEntry, FsEntryType, SortMode};
use editor_core::view_layout::{Layout, LineStart, ViewLine};

fn make_entry(name: &str, is_dir: bool) -> FsEntry {
    FsEntry {
        path: format!("/test/{}", name),
        name: name.to_string(),
        entry_type: if is_dir {
            FsEntryType::Directory
        } else {
            FsEntryType::File
        },
        metadata: None,
    }
}

fn editor_with_file_open() -> Editor {
    let mut ed = Editor::new();
    ed.prompt = Some(Prompt::new(String::from("Open file: "), PromptType::OpenFile));
    let mut state = FileOpenState::new(String::from("/test/sub"));
    state.set_entries(vec![
        make_entry("dir", true),
        make_entry("a.txt", false),
        make_entry("b.txt", false),
    ]);
    ed.file_open_state = Some(state);
    ed
}

fn simple_layout() -> Layout {
    let chars: Vec<Option<usize>> = (0..5).map(Some).collect();
    let line = ViewLine {
        text: String::from("Hello"),
        char_mappings: chars,
        line_start: LineStart::Beginning,
        ends_with_newline: false,
    };
    Layout::new(vec![line], 0..5)
}

#[test]
fn test_quit_action_sets_flag() {
    let mut ed = Editor::new();
    assert!(!ed.should_quit);
    ed.handle_action(Action::Quit);
    assert!(ed.should_quit);
}

#[test]
fn test_goto_line_action_opens_prompt() {
    let mut ed = Editor::new();
    ed.handle_action(Action::GotoLine);
    let prompt = ed.prompt.as_ref().expect("prompt should open");
    assert_eq!(prompt.prompt_type, PromptType::GotoLine);
    assert_eq!(prompt.message, "Go to line: ");
    assert_eq!(prompt.input, "");
}

#[test]
fn test_edit_actions_become_effects() {
    let mut ed = Editor::new();
    ed.handle_action(Action::InsertChar('x'));
    ed.handle_action(Action::Save);
    let effects = ed.take_effects();
    assert_eq!(effects.len(), 2);
    assert!(matches!(
        &effects[0],
        EditorEffect::RequestEdit(Action::InsertChar('x'))
    ));
    assert!(matches!(&effects[1], EditorEffect::Save));
    assert!(ed.take_effects().is_empty());
}

#[test]
fn test_key_context_priorities() {
    let mut ed = Editor::new();
    assert_eq!(ed.get_key_context(), KeyContext::Normal);
    ed.popups_visible = true;
    assert_eq!(ed.get_key_context(), KeyContext::Popup);
    ed.prompt = Some(Prompt::new(String::from("? "), PromptType::Command));
    assert_eq!(ed.get_key_context(), KeyContext::Prompt);
    ed.menu_active = true;
    assert_eq!(ed.get_key_context(), KeyContext::Menu);
}

#[test]
fn test_prompt_editing() {
    let mut ed = Editor::new();
    let mut prompt = Prompt::new(String::from("Go to line: "), PromptType::GotoLine);
    prompt.input = String::from("123");
    prompt.cursor_pos = 3;
    ed.prompt = Some(prompt);

    ed.handle_prompt_action(Action::PromptBackspace);
    assert_eq!(ed.prompt.as_ref().unwrap().input, "12");
    assert_eq!(ed.prompt.as_ref().unwrap().cursor_pos, 2);

    ed.handle_prompt_action(Action::PromptMoveStart);
    ed.handle_prompt_action(Action::PromptDelete);
    assert_eq!(ed.prompt.as_ref().unwrap().input, "2");
    assert_eq!(ed.prompt.as_ref().unwrap().cursor_pos, 0);

    ed.handle_prompt_action(Action::PromptMoveRight);
    assert_eq!(ed.prompt.as_ref().unwrap().cursor_pos, 1);
    ed.handle_prompt_action(Action::PromptMoveLeft);
    assert_eq!(ed.prompt.as_ref().unwrap().cursor_pos, 0);

    ed.handle_prompt_action(Action::PromptCancel);
    assert!(ed.prompt.is_none());
}

#[test]
fn test_prompt_selection_delete() {
    let mut prompt = Prompt::new(String::from("? "), PromptType::Search);
    prompt.input = String::from("abcdef");
    prompt.cursor_pos = 6;
    prompt.selection = Some((4, 1)); // backward selection
    prompt.delete_selection();
    assert_eq!(prompt.input, "aef");
    assert_eq!(prompt.cursor_pos, 1);
    assert_eq!(prompt.selection, None);
}

#[test]
fn test_prompt_confirm_goto_line_requests_jump() {
    let mut ed = Editor::new();
    let mut prompt = Prompt::new(String::from("Go to line: "), PromptType::GotoLine);
    prompt.input = String::from("12");
    ed.prompt = Some(prompt);

    ed.handle_action(Action::PromptConfirm);
    assert!(ed.prompt.is_none());
    let effects = ed.take_effects();
    assert_eq!(effects.len(), 1);
    match &effects[0] {
        EditorEffect::PerformGotoLine(input) => assert_eq!(input, "12"),
        other => panic!("unexpected effect {:?}", other),
    }
}

#[test]
fn test_file_open_action_navigation_keys() {
    let mut ed = editor_with_file_open();
    assert!(ed.is_file_open_active());

    assert!(ed.handle_file_open_action(&Action::PromptSelectNext));
    assert_eq!(ed.file_open_state.as_ref().unwrap().selected_index, 1);
    assert!(ed.handle_file_open_action(&Action::PromptSelectPrev));
    assert_eq!(ed.file_open_state.as_ref().unwrap().selected_index, 0);
    assert!(ed.handle_file_open_action(&Action::PromptMoveEnd));
    assert_eq!(ed.file_open_state.as_ref().unwrap().selected_index, 2);
    assert!(ed.handle_file_open_action(&Action::PromptMoveStart));
    assert_eq!(ed.file_open_state.as_ref().unwrap().selected_index, 0);

    // Unhandled actions fall through to ordinary prompt handling.
    assert!(!ed.handle_file_open_action(&Action::MoveLeft));
}

#[test]
fn test_file_open_confirm_directory_navigates() {
    let mut ed = editor_with_file_open();
    // The directory sorts first and is selected.
    assert!(ed.handle_file_open_action(&Action::PromptConfirm));
    let state = ed.file_open_state.as_ref().unwrap();
    assert_eq!(state.current_dir, "/test/dir");
    assert!(state.loading);
    let effects = ed.take_effects();
    assert!(matches!(&effects[..], [EditorEffect::LoadDirectory(d)] if d == "/test/dir"));
}

#[test]
fn test_file_open_confirm_file_opens() {
    let mut ed = editor_with_file_open();
    ed.handle_file_open_action(&Action::PromptSelectNext); // a.txt
    assert!(ed.handle_file_open_action(&Action::PromptConfirm));
    assert!(ed.file_open_state.is_none());
    assert!(ed.prompt.is_none());
    let effects = ed.take_effects();
    assert!(matches!(&effects[..], [EditorEffect::OpenPath(p)] if p == "/test/a.txt"));
}

#[test]
fn test_file_open_backspace_goes_to_parent() {
    let mut ed = editor_with_file_open();
    assert!(ed.handle_file_open_action(&Action::PromptBackspace));
    let state = ed.file_open_state.as_ref().unwrap();
    assert_eq!(state.current_dir, "/test");
    let effects = ed.take_effects();
    assert!(matches!(&effects[..], [EditorEffect::LoadDirectory(d)] if d == "/test"));

    // With filter text present, backspace is left to the prompt.
    let mut ed2 = editor_with_file_open();
    ed2.prompt.as_mut().unwrap().input = String::from("a");
    assert!(!ed2.handle_file_open_action(&Action::PromptBackspace));
}

#[test]
fn test_file_open_cancel_closes_dialog() {
    let mut ed = editor_with_file_open();
    assert!(ed.handle_file_open_action(&Action::PromptCancel));
    assert!(ed.prompt.is_none());
    assert!(ed.file_open_state.is_none());
}

#[test]
fn test_update_file_open_filter() {
    let mut ed = editor_with_file_open();
    ed.prompt.as_mut().unwrap().input = String::from("a.t");
    ed.update_file_open_filter();
    let state = ed.file_open_state.as_ref().unwrap();
    assert_eq!(state.filter, "a.t");
    assert_eq!(state.matching_count(), 1);
    assert!(state.entries[0].matches_filter);
    assert_eq!(state.entries[0].fs_entry.name, "a.txt");
}

#[test]
fn test_file_open_click_selects_row() {
    let mut ed = editor_with_file_open();
    ed.file_browser_layout = Some(FileBrowserLayout {
        list: CellRect { x: 0, y: 5, width: 40, height: 10 },
        nav: CellRect { x: 41, y: 5, width: 20, height: 10 },
        header: CellRect { x: 0, y: 4, width: 40, height: 1 },
        scrollbar: CellRect { x: 40, y: 5, width: 1, height: 10 },
        header_columns: vec![(0, 20, SortMode::Name), (20, 10, SortMode::Size)],
    });

    assert!(ed.handle_file_open_click(3, 7)); // third row of the list
    let state = ed.file_open_state.as_ref().unwrap();
    assert_eq!(state.active_section, FileOpenSection::Files);
    assert_eq!(state.selected_index, 2);

    assert!(ed.handle_file_open_click(45, 6)); // navigation area
    assert_eq!(
        ed.file_open_state.as_ref().unwrap().active_section,
        FileOpenSection::Navigation
    );

    assert!(ed.handle_file_open_click(25, 4)); // size header column
    let state = ed.file_open_state.as_ref().unwrap();
    assert_eq!(state.sort_mode, SortMode::Size);

    assert!(!ed.handle_file_open_click(70, 20)); // outside everything
}

#[test]
fn test_goto_line_invalid_input() {
    let mut ed = Editor::new();
    let r = ed.handle_goto_line("abc", Some(10), 100, 40);
    assert!(r.is_none());
    assert_eq!(
        ed.status_message,
        Some(String::from("Invalid line number: abc"))
    );

    let r = ed.handle_goto_line("0", Some(10), 100, 40);
    assert!(r.is_none());
    assert_eq!(
        ed.status_message,
        Some(String::from("Line number must be positive"))
    );
}

#[test]
fn test_goto_line_exact_mode() {
    let mut ed = Editor::new();
    let r = ed.handle_goto_line(" 3 ", Some(10), 1000, 40).unwrap();
    assert_eq!(r.target, GotoTarget::LineStart(2));
    assert_eq!(r.message, "Jumped to line 3");

    let r = ed.handle_goto_line("99", Some(10), 1000, 40).unwrap();
    assert_eq!(r.target, GotoTarget::LineStart(9));
    assert_eq!(r.message, "Line 99 doesn't exist, jumped to line 10");
}

#[test]
fn test_goto_line_large_file_mode() {
    let mut ed = Editor::new();
    let r = ed.handle_goto_line("5", None, 1000, 40).unwrap();
    assert_eq!(r.target, GotoTarget::ScanFrom(160)); // (5 - 1) * 40
    assert_eq!(r.message, "Jumped to estimated line 5 (large file mode)");

    // The estimate clamps to the buffer's length.
    let r = ed.handle_goto_line("1000", None, 1000, 40).unwrap();
    assert_eq!(r.target, GotoTarget::ScanFrom(1000));
}

#[test]
fn test_finish_goto_line_moves_cursor() {
    let mut ed = Editor::new();
    let layout = simple_layout();
    ed.finish_goto_line(&layout, 3, String::from("Jumped to line 1"));
    assert_eq!(ed.cursor.view_line, Some(0));
    assert_eq!(ed.cursor.column, Some(3));
    assert_eq!(ed.cursor.source_byte, Some(3));
    assert_eq!(ed.status_message, Some(String::from("Jumped to line 1")));
    assert_eq!(ed.event_log.len(), 1);
    assert_eq!(ed.position_history.entries.len(), 1);
    let effects = ed.take_effects();
    assert!(matches!(&effects[..], [EditorEffect::ApplyToBuffer(_)]));
}

#[test]
fn test_history_back_and_forward() {
    let mut ed = Editor::new();
    let layout = simple_layout();
    ed.finish_goto_line(&layout, 1, String::from("one"));
    ed.finish_goto_line(&layout, 4, String::from("two"));
    ed.take_effects();

    ed.handle_action(Action::Back);
    assert_eq!(ed.cursor.source_byte, Some(1));
    ed.handle_action(Action::Forward);
    assert_eq!(ed.cursor.source_byte, Some(4));

    // At the newest entry, forward does nothing.
    ed.take_effects();
    ed.handle_action(Action::Forward);
    assert!(ed.take_effects().is_empty());
}

#[test]
fn test_toggle_line_numbers() {
    let mut ed = Editor::new();
    assert!(ed.line_numbers);
    ed.handle_action(Action::ToggleLineNumbers);
    assert!(!ed.line_numbers);
}

#[test]
fn test_plugin_backend_surface() {
    assert_eq!(editor_core::plugin_backend::backend_name(), "QuickJS + oxc");
    assert!(editor_core::plugin_backend::check_runtime_available().is_ok());
}
