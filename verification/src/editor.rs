//! The editor's decision core: prompt editing, action dispatch, the file
//! open dialog's input handling, and line targeting.
//!
//! Everything the surrounding shell must perform for the editor — file and
//! terminal work, layout building, buffer edits — is recorded as an
//! `EditorEffect`; the functions here only decide, over plain state, what
//! those effects are and how the editor's own state changes.

use vstd::prelude::*;

use crate::cursor::ViewPosition;
use crate::mapping::source_to_view_pos;
use crate::text::{dec_str, u64_to_decimal};
use crate::view_layout::Layout;
use crate::file_open::{
    spec_page_down, spec_page_up, spec_select_first, spec_select_last, spec_select_next,
    spec_select_prev, spec_switch_section, FileOpenState, SortMode,
};

verus! {

use vstd::string::StrSliceExecFns;
use vstd::string::StringExecFns;

/// The keybinding context the editor resolves keys in.
#[derive(Debug, Clone, Copy, PartialEq, Eq, Structural)]
pub enum KeyContext {
    /// Ordinary text editing.
    Normal,
    /// A prompt is open.
    Prompt,
    /// A popup is visible.
    Popup,
    /// A menu is open.
    Menu,
    /// The file explorer has focus.
    FileExplorer,
}

/// What a prompt asks for.
#[derive(Debug, Clone, Copy, PartialEq, Eq, Structural)]
pub enum PromptType {
    /// A path to open.
    OpenFile,
    /// A line number to jump to.
    GotoLine,
    /// A path to save to.
    SaveAs,
    /// A search pattern.
    Search,
    /// A replacement pattern.
    Replace,
    /// A command name.
    Command,
}

/// An editing or navigation action, as the keybinding layer resolves it.
#[derive(Debug, Clone, PartialEq, Eq)]
pub enum Action {
    /// Nothing bound.
    Noop,
    /// Leave the editor.
    Quit,
    /// Ask for a file to open.
    OpenFile,
    /// Save the active buffer.
    Save,
    /// Save every buffer.
    SaveAll,
    /// Open the command palette.
    CommandPalette,
    /// Ask for a line to jump to.
    GotoLine,
    /// Confirm the visible popup.
    PopupConfirm,
    /// Dismiss the visible popup.
    PopupCancel,
    /// Move the popup selection down.
    PopupSelectNext,
    /// Move the popup selection up.
    PopupSelectPrev,
    /// Page the popup down.
    PopupPageDown,
    /// Page the popup up.
    PopupPageUp,
    /// Show documentation for the popup selection.
    PopupShowDocumentation,
    /// Scroll the popup down.
    PopupScrollDown,
    /// Scroll the popup up.
    PopupScrollUp,
    /// Insert a character at the cursor.
    InsertChar(char),
    /// Insert a line break at the cursor.
    InsertNewline,
    /// Delete backward from the cursor.
    DeleteBackward,
    /// Delete forward from the cursor.
    DeleteForward,
    /// Move the cursor left.
    MoveLeft,
    /// Move the cursor right.
    MoveRight,
    /// Move the cursor up.
    MoveUp,
    /// Move the cursor down.
    MoveDown,
    /// Move to the start of the line.
    MoveLineStart,
    /// Move to the end of the line.
    MoveLineEnd,
    /// Move up a page.
    MovePageUp,
    /// Move down a page.
    MovePageDown,
    /// Move to the start of the document.
    MoveDocumentStart,
    /// Move to the end of the document.
    MoveDocumentEnd,
    /// Extend the selection left.
    SelectLeft,
    /// Extend the selection right.
    SelectRight,
    /// Extend the selection up.
    SelectUp,
    /// Extend the selection down.
    SelectDown,
    /// Extend the selection to the line start.
    SelectLineStart,
    /// Extend the selection to the line end.
    SelectLineEnd,
    /// Extend the selection to the document start.
    SelectDocumentStart,
    /// Extend the selection to the document end.
    SelectDocumentEnd,
    /// Scroll the view up.
    ScrollUp,
    /// Scroll the view down.
    ScrollDown,
    /// A prompt is being handled elsewhere.
    Prompt,
    /// Confirm the prompt.
    PromptConfirm,
    /// Cancel the prompt.
    PromptCancel,
    /// Delete backward in the prompt.
    PromptBackspace,
    /// Delete forward in the prompt.
    PromptDelete,
    /// Move the prompt cursor left.
    PromptMoveLeft,
    /// Move the prompt cursor right.
    PromptMoveRight,
    /// Move the prompt cursor to the start.
    PromptMoveStart,
    /// Move the prompt cursor to the end.
    PromptMoveEnd,
    /// Move the prompt suggestion selection up.
    PromptSelectPrev,
    /// Move the prompt suggestion selection down.
    PromptSelectNext,
    /// Page the prompt suggestions up.
    PromptPageUp,
    /// Page the prompt suggestions down.
    PromptPageDown,
    /// Accept the current prompt suggestion.
    PromptAcceptSuggestion,
    /// Ask for a path to save to.
    PromptSaveAs,
    /// Ask for a path to open.
    PromptOpen,
    /// Ask for a search pattern.
    PromptSearch,
    /// Ask for a replacement.
    PromptReplace,
    /// Ask for a command.
    PromptCommand,
    /// Close the prompt.
    PromptClose,
    /// Jump back in position history.
    Back,
    /// Jump forward in position history.
    Forward,
    /// Request completion at the cursor.
    LspCompletion,
    /// Jump to the definition under the cursor.
    LspGotoDefinition,
    /// Show hover information.
    LspHover,
    /// List references.
    LspReferences,
    /// Rename the symbol under the cursor.
    LspRename,
    /// Undo the last edit.
    Undo,
    /// Redo the undone edit.
    Redo,
    /// Cut the selection.
    Cut,
    /// Copy the selection.
    Copy,
    /// Paste the clipboard.
    Paste,
    /// Select the whole document.
    SelectAll,
    /// Open a search prompt.
    Find,
    /// Jump to the next match.
    FindNext,
    /// Jump to the previous match.
    FindPrev,
    /// Open a replace prompt.
    Replace,
    /// Replace the next match.
    ReplaceNext,
    /// Toggle the line number margin.
    ToggleLineNumbers,
    /// Toggle soft wrapping.
    ToggleLineWrap,
    /// Split the view horizontally.
    SplitHorizontal,
    /// Split the view vertically.
    SplitVertical,
    /// Close the active split.
    CloseSplit,
    /// Focus the next split.
    NextSplit,
    /// Focus the previous split.
    PrevSplit,
    /// Focus the file explorer.
    FocusFileExplorer,
    /// Toggle the file explorer.
    ToggleFileExplorer,
    /// Open a recently used file.
    OpenRecent,
    /// Open the configuration file.
    OpenConfig,
    /// Open the help buffer.
    OpenHelp,
    /// Open the theme switcher.
    OpenThemeSwitcher,
    /// Toggle compose mode.
    ToggleComposeMode,
    /// Open the log buffer.
    OpenLogs,
    /// Run a named plugin action.
    PluginAction(String),
}

/// A buffer event the editor decides on; the shell applies it.
#[derive(Debug, Clone, Copy)]
pub enum Event {
    /// A cursor moved: the full before and after coordinates, so the event
    /// can be replayed or undone.
    MoveCursor {
        /// Which cursor moved.
        cursor_id: usize,
        /// Where it was.
        old_position: ViewPosition,
        /// Where it is now.
        new_position: ViewPosition,
        /// The old selection anchor, if any.
        old_anchor: Option<ViewPosition>,
        /// The new selection anchor, if any.
        new_anchor: Option<ViewPosition>,
        /// The old preferred column.
        old_sticky_column: Option<usize>,
        /// The new preferred column.
        new_sticky_column: Option<usize>,
    },
}

/// An LSP request kind the shell forwards to the language server.
#[derive(Debug, Clone, Copy, PartialEq, Eq, Structural)]
pub enum LspRequest {
    /// Completion at the cursor.
    Completion,
    /// Go to definition.
    GotoDefinition,
    /// Hover information.
    Hover,
    /// References to the symbol.
    References,
    /// Rename the symbol.
    Rename,
}

/// Work the editor decided on that only the surrounding shell can perform.
#[derive(Debug, Clone)]
pub enum EditorEffect {
    /// Apply a buffer event to the active buffer.
    ApplyToBuffer(Event),
    /// Translate an editing or movement action into buffer events and
    /// apply them.
    RequestEdit(Action),
    /// Show the open-file dialog.
    ShowOpenFileDialog,
    /// Save the active buffer.
    Save,
    /// Save every buffer.
    SaveAll,
    /// Open the command palette.
    OpenCommandPalette,
    /// Confirm the visible popup.
    PopupConfirm,
    /// Move the popup selection down.
    PopupSelectNext,
    /// Move the popup selection up.
    PopupSelectPrev,
    /// Page the popup down.
    PopupPageDown,
    /// Page the popup up.
    PopupPageUp,
    /// Forward a request to the language server.
    Lsp(LspRequest),
    /// Undo the last edit.
    Undo,
    /// Redo the undone edit.
    Redo,
    /// Cut the selection.
    Cut,
    /// Copy the selection.
    Copy,
    /// Paste the clipboard.
    Paste,
    /// Select the whole document.
    SelectAll,
    /// Jump to the next match.
    FindNext,
    /// Jump to the previous match.
    FindPrev,
    /// Replace the next match.
    ReplaceNext,
    /// Toggle soft wrapping.
    ToggleLineWrap,
    /// Split the view horizontally.
    SplitHorizontal,
    /// Split the view vertically.
    SplitVertical,
    /// Close the active split.
    CloseSplit,
    /// Focus the next split.
    NextSplit,
    /// Focus the previous split.
    PrevSplit,
    /// Focus the file explorer.
    FocusFileExplorer,
    /// Toggle the file explorer.
    ToggleFileExplorer,
    /// Open a recently used file.
    OpenRecent,
    /// Open the configuration file.
    OpenConfig,
    /// Open the help buffer.
    OpenHelp,
    /// Open the theme switcher.
    OpenThemeSwitcher,
    /// Toggle compose mode.
    ToggleComposeMode,
    /// Open a save-as prompt.
    PromptSaveAs,
    /// Open an open-file prompt.
    PromptOpen,
    /// Open a search prompt.
    PromptSearch,
    /// Open a replace prompt.
    PromptReplace,
    /// Open the log buffer.
    OpenLogs,
    /// Run a named plugin action.
    RunPluginAction(String),
    /// Resolve and perform a go-to-line request.
    PerformGotoLine(String),
    /// Load a directory into the file open dialog.
    LoadDirectory(String),
    /// Open the file at a path.
    OpenPath(String),
    /// Recompute the prompt's completion suggestions.
    RefreshPromptSuggestions,
}

/// A prompt the editor is showing, with its input line.
#[derive(Debug)]
pub struct Prompt {
    /// What the prompt asks for.
    pub prompt_type: PromptType,
    /// The message shown before the input.
    pub message: String,
    /// The input line.
    pub input: String,
    /// The cursor, as a character index into the input.
    pub cursor_pos: usize,
    /// A selected character range of the input, when one exists.
    pub selection: Option<(usize, usize)>,
    /// Completion suggestions.
    pub suggestions: Vec<String>,
    /// Which suggestion is selected, if any.
    pub selected_suggestion: Option<usize>,
}

/// A character index clamped into the input.
pub open spec fn clamped_to(i: int, len: int) -> int {
    if i > len {
        len
    } else {
        i
    }
}

/// The characters of the input after the selected range is deleted: the
/// range is normalized, clamped, and closed up.
pub open spec fn spec_input_without_selection(p: Prompt) -> Seq<char> {
    match p.selection {
        Option::None => p.input@,
        Option::Some((a, b)) => {
            let len = p.input@.len() as int;
            let lo = clamped_to(if a <= b {
                a as int
            } else {
                b as int
            }, len);
            let hi = clamped_to(if a <= b {
                b as int
            } else {
                a as int
            }, len);
            p.input@.take(lo) + p.input@.skip(hi)
        },
    }
}

impl Prompt {
    /// A fresh prompt of the given kind, with an empty input.
    pub fn new(message: String, prompt_type: PromptType) -> (r: Prompt)
        ensures
            r.prompt_type == prompt_type,
            r.message == message,
            r.input@.len() == 0,
            r.cursor_pos == 0,
            r.selection is None,
            r.suggestions@.len() == 0,
            r.selected_suggestion is None,
    {
        Prompt {
            prompt_type,
            message,
            input: String::new(),
            cursor_pos: 0,
            selection: Option::None,
            suggestions: Vec::new(),
            selected_suggestion: Option::None,
        }
    }

    /// Whether part of the input is selected.
    pub fn has_selection(&self) -> (r: bool)
        ensures
            r == (self.selection is Some),
    {
        match self.selection {
            Option::Some(_) => true,
            Option::None => false,
        }
    }

    /// Drop the selection without touching the input.
    pub fn clear_selection(&mut self)
        ensures
            *final(self) == (Prompt { selection: Option::None, ..*old(self) }),
    {
        self.selection = Option::None;
    }

    /// Delete the selected character range: the text closes up and the
    /// cursor lands where the range began.
    pub fn delete_selection(&mut self)
        ensures
            final(self).input@ == spec_input_without_selection(*old(self)),
            old(self).selection matches Some(sel) ==> final(self).cursor_pos == clamped_to(
                if sel.0 <= sel.1 {
                    sel.0 as int
                } else {
                    sel.1 as int
                },
                old(self).input@.len() as int,
            ),
            old(self).selection is None ==> final(self).cursor_pos == old(self).cursor_pos,
            final(self).selection is None || old(self).selection is None,
            old(self).selection is None ==> *final(self) == *old(self),
            final(self).prompt_type == old(self).prompt_type,
            final(self).message == old(self).message,
            final(self).suggestions == old(self).suggestions,
            final(self).selected_suggestion == old(self).selected_suggestion,
    {
        let (a, b) = match self.selection {
            Option::Some(sel) => sel,
            Option::None => {
                return ;
            },
        };
        let len = self.input.as_str().unicode_len();
        let lo_raw = if a <= b {
            a
        } else {
            b
        };
        let hi_raw = if a <= b {
            b
        } else {
            a
        };
        let lo = if lo_raw > len {
            len
        } else {
            lo_raw
        };
        let hi = if hi_raw > len {
            len
        } else {
            hi_raw
        };
        let head = self.input.as_str().substring_char(0, lo).to_owned();
        let tail = self.input.as_str().substring_char(hi, len);
        let joined = head.concat(tail);
        proof {
            assert(self.input@.take(lo as int) =~= self.input@.subrange(0, lo as int));
            assert(self.input@.skip(hi as int) =~= self.input@.subrange(
                hi as int,
                self.input@.len() as int,
            ));
        }
        self.input = joined;
        self.cursor_pos = lo;
        self.selection = Option::None;
    }
}

/// The prompt cursor clamped into its input.
pub open spec fn spec_prompt_cursor(p: Prompt) -> int {
    clamped_to(p.cursor_pos as int, p.input@.len() as int)
}

/// How a backspace changes a prompt: a selection is deleted whole;
/// otherwise the character before the cursor goes.
pub open spec fn backspaced(p: Prompt, q: Prompt) -> bool {
    &&& q.prompt_type == p.prompt_type
    &&& q.message == p.message
    &&& q.suggestions == p.suggestions
    &&& q.selected_suggestion == p.selected_suggestion
    &&& if p.selection is Some {
        &&& q.input@ == spec_input_without_selection(p)
        &&& q.selection is None
    } else {
        let cp = spec_prompt_cursor(p);
        if cp > 0 {
            &&& q.input@ == p.input@.take(cp - 1) + p.input@.skip(cp)
            &&& q.cursor_pos == cp - 1
            &&& q.selection == p.selection
        } else {
            q == p
        }
    }
}

/// How a forward delete changes a prompt: a selection is deleted whole;
/// otherwise the character at the cursor goes and the cursor stays.
pub open spec fn deleted_forward(p: Prompt, q: Prompt) -> bool {
    &&& q.prompt_type == p.prompt_type
    &&& q.message == p.message
    &&& q.suggestions == p.suggestions
    &&& q.selected_suggestion == p.selected_suggestion
    &&& if p.selection is Some {
        &&& q.input@ == spec_input_without_selection(p)
        &&& q.selection is None
    } else {
        let cp = spec_prompt_cursor(p);
        if cp < p.input@.len() {
            &&& q.input@ == p.input@.take(cp) + p.input@.skip(cp + 1)
            &&& q.cursor_pos == cp
            &&& q.selection == p.selection
        } else {
            q == p
        }
    }
}

/// The prompt with its selection dropped and the cursor moved one left.
pub open spec fn moved_left(p: Prompt, q: Prompt) -> bool {
    let cp = spec_prompt_cursor(p);
    q == (Prompt {
        selection: Option::<(usize, usize)>::None,
        cursor_pos: (if cp > 0 {
            cp - 1
        } else {
            0int
        }) as usize,
        ..p
    })
}

/// The prompt with its selection dropped and the cursor moved one right.
pub open spec fn moved_right(p: Prompt, q: Prompt) -> bool {
    let cp = spec_prompt_cursor(p);
    q == (Prompt {
        selection: Option::<(usize, usize)>::None,
        cursor_pos: (if cp + 1 < p.input@.len() {
            cp + 1
        } else {
            p.input@.len() as int
        }) as usize,
        ..p
    })
}

/// The prompt with its selection dropped and the cursor at the start.
pub open spec fn moved_start(p: Prompt, q: Prompt) -> bool {
    q == (Prompt { selection: Option::<(usize, usize)>::None, cursor_pos: 0usize, ..p })
}

/// The prompt with its selection dropped and the cursor past the input.
pub open spec fn moved_end(p: Prompt, q: Prompt) -> bool {
    q == (Prompt {
        selection: Option::<(usize, usize)>::None,
        cursor_pos: p.input@.len() as usize,
        ..p
    })
}

/// The suggestion selection moved up: only an existing selection moves,
/// and it stops at the first suggestion.
pub open spec fn suggestion_prev(p: Prompt, q: Prompt) -> bool {
    if p.suggestions@.len() > 0 && p.selected_suggestion is Some {
        let s = p.selected_suggestion->0;
        q == (Prompt {
            selected_suggestion: Option::Some(
                (if s > 0 {
                    s - 1
                } else {
                    0int
                }) as usize,
            ),
            ..p
        })
    } else {
        q == p
    }
}

/// The suggestion selection moved down: it starts at the first suggestion
/// and stops at the last.
pub open spec fn suggestion_next(p: Prompt, q: Prompt) -> bool {
    if p.suggestions@.len() > 0 {
        match p.selected_suggestion {
            Option::Some(s) => {
                let last = p.suggestions@.len() - 1;
                q == (Prompt {
                    selected_suggestion: Option::Some(
                        (if s + 1 < p.suggestions@.len() {
                            s + 1
                        } else {
                            last
                        }) as usize,
                    ),
                    ..p
                })
            },
            Option::None => q == (Prompt { selected_suggestion: Option::Some(0usize), ..p }),
        }
    } else {
        q == p
    }
}

impl Prompt {
    /// The cursor clamped into the input; a cursor set past the end is
    /// treated as at the end.
    fn clamped_cursor(&self) -> (r: usize)
        ensures
            r == spec_prompt_cursor(*self),
    {
        let len = self.input.as_str().unicode_len();
        if self.cursor_pos > len {
            len
        } else {
            self.cursor_pos
        }
    }

    /// Delete backward: the selection when one exists, otherwise the
    /// character before the cursor.
    pub fn backspace(&mut self)
        ensures
            backspaced(*old(self), *final(self)),
    {
        if self.has_selection() {
            self.delete_selection();
        } else {
            let cp = self.clamped_cursor();
            if cp > 0 {
                let len = self.input.as_str().unicode_len();
                let head = self.input.as_str().substring_char(0, cp - 1).to_owned();
                let tail = self.input.as_str().substring_char(cp, len);
                proof {
                    assert(self.input@.take(cp - 1) =~= self.input@.subrange(0, cp - 1));
                    assert(self.input@.skip(cp as int) =~= self.input@.subrange(
                        cp as int,
                        self.input@.len() as int,
                    ));
                }
                self.input = head.concat(tail);
                self.cursor_pos = cp - 1;
            }
        }
    }

    /// Delete forward: the selection when one exists, otherwise the
    /// character at the cursor.
    pub fn delete_forward(&mut self)
        ensures
            deleted_forward(*old(self), *final(self)),
    {
        if self.has_selection() {
            self.delete_selection();
        } else {
            let cp = self.clamped_cursor();
            let len = self.input.as_str().unicode_len();
            if cp < len {
                let head = self.input.as_str().substring_char(0, cp).to_owned();
                let tail = self.input.as_str().substring_char(cp + 1, len);
                proof {
                    assert(self.input@.take(cp as int) =~= self.input@.subrange(0, cp as int));
                    assert(self.input@.skip(cp + 1) =~= self.input@.subrange(
                        cp + 1,
                        self.input@.len() as int,
                    ));
                }
                self.input = head.concat(tail);
                self.cursor_pos = cp;
            }
        }
    }

    /// Move the cursor one character left, dropping the selection.
    pub fn move_left(&mut self)
        ensures
            moved_left(*old(self), *final(self)),
    {
        let cp = self.clamped_cursor();
        self.selection = Option::None;
        self.cursor_pos = if cp > 0 {
            cp - 1
        } else {
            0
        };
    }

    /// Move the cursor one character right, dropping the selection.
    pub fn move_right(&mut self)
        ensures
            moved_right(*old(self), *final(self)),
    {
        let cp = self.clamped_cursor();
        let len = self.input.as_str().unicode_len();
        self.selection = Option::None;
        self.cursor_pos = if cp < len {
            cp + 1
        } else {
            len
        };
    }

    /// Move the cursor to the start of the input, dropping the selection.
    pub fn move_start(&mut self)
        ensures
            moved_start(*old(self), *final(self)),
    {
        self.selection = Option::None;
        self.cursor_pos = 0;
    }

    /// Move the cursor past the end of the input, dropping the selection.
    pub fn move_end(&mut self)
        ensures
            moved_end(*old(self), *final(self)),
    {
        self.selection = Option::None;
        self.cursor_pos = self.input.as_str().unicode_len();
    }

    /// Move the suggestion selection up, when one exists.
    pub fn suggestion_prev(&mut self)
        ensures
            suggestion_prev(*old(self), *final(self)),
    {
        if self.suggestions.len() > 0 {
            match self.selected_suggestion {
                Option::Some(s) => {
                    self.selected_suggestion = Option::Some(
                        if s > 0 {
                            s - 1
                        } else {
                            0
                        },
                    );
                },
                Option::None => {},
            }
        }
    }

    /// Move the suggestion selection down, starting it when none exists.
    pub fn suggestion_next(&mut self)
        ensures
            suggestion_next(*old(self), *final(self)),
    {
        if self.suggestions.len() > 0 {
            match self.selected_suggestion {
                Option::Some(s) => {
                    let last = self.suggestions.len() - 1;
                    self.selected_suggestion = Option::Some(
                        if s < last {
                            s + 1
                        } else {
                            last
                        },
                    );
                },
                Option::None => {
                    self.selected_suggestion = Option::Some(0);
                },
            }
        }
    }
}

/// A remembered cursor location in some buffer.
#[derive(Debug, Clone, Copy)]
pub struct PositionEntry {
    /// The buffer the position belongs to.
    pub buffer_id: usize,
    /// The remembered cursor position.
    pub position: ViewPosition,
    /// The remembered selection anchor, if any.
    pub anchor: Option<ViewPosition>,
}

/// Where the cursor has been: a list of entries and an index into it; the
/// index walks back and forward over the recorded positions.
#[derive(Debug)]
pub struct PositionHistory {
    /// The recorded positions, oldest first.
    pub entries: Vec<PositionEntry>,
    /// The current position in the record.
    pub index: usize,
}

impl PositionHistory {
    /// An empty history.
    pub fn new() -> (r: PositionHistory)
        ensures
            r.entries@.len() == 0,
            r.index == 0,
    {
        PositionHistory { entries: Vec::new(), index: 0 }
    }

    /// Step back to the previous recorded position, if one exists.
    pub fn back(&mut self) -> (r: Option<PositionEntry>)
        ensures
            old(self).index > 0 ==> {
                &&& final(self).index == old(self).index - 1
                &&& final(self).entries == old(self).entries
                &&& (old(self).index - 1 < old(self).entries@.len() ==> r == Some(
                    old(self).entries@[old(self).index - 1],
                ))
                &&& (old(self).index - 1 >= old(self).entries@.len() ==> r is None)
            },
            old(self).index == 0 ==> r is None && *final(self) == *old(self),
    {
        if self.index > 0 {
            self.index = self.index - 1;
            if self.index < self.entries.len() {
                Option::Some(self.entries[self.index])
            } else {
                Option::None
            }
        } else {
            Option::None
        }
    }

    /// Step forward to the next recorded position, if one exists.
    pub fn forward(&mut self) -> (r: Option<PositionEntry>)
        ensures
            old(self).index + 1 < old(self).entries@.len() ==> {
                &&& final(self).index == old(self).index + 1
                &&& final(self).entries == old(self).entries
                &&& r == Some(old(self).entries@[old(self).index + 1])
            },
            !(old(self).index + 1 < old(self).entries@.len()) ==> r is None && *final(self)
                == *old(self),
    {
        let n = self.entries.len();
        if n > 0 && self.index < n - 1 {
            self.index = self.index + 1;
            Option::Some(self.entries[self.index])
        } else {
            Option::None
        }
    }

    /// Record a movement: the new position is appended and becomes the
    /// current one.
    pub fn record_movement(
        &mut self,
        buffer_id: usize,
        position: ViewPosition,
        anchor: Option<ViewPosition>,
    )
        ensures
            final(self).entries@ == old(self).entries@.push(
                PositionEntry { buffer_id, position, anchor },
            ),
            final(self).index == old(self).entries@.len() as int,
    {
        self.entries.push(PositionEntry { buffer_id, position, anchor });
        self.index = self.entries.len() - 1;
    }
}

/// A rectangle of terminal cells.
#[derive(Debug, Clone, Copy, PartialEq, Eq, Structural)]
pub struct CellRect {
    /// Leftmost column.
    pub x: u16,
    /// Topmost row.
    pub y: u16,
    /// Width in columns.
    pub width: u16,
    /// Height in rows.
    pub height: u16,
}

impl CellRect {
    /// Whether the rectangle contains the cell.
    pub open spec fn spec_contains(self, x: u16, y: u16) -> bool {
        self.x <= x < self.x + self.width && self.y <= y < self.y + self.height
    }

    /// Whether the rectangle contains the cell.
    pub fn contains(&self, x: u16, y: u16) -> (r: bool)
        ensures
            r == self.spec_contains(x, y),
    {
        x >= self.x && (x as u32) < (self.x as u32) + (self.width as u32) && y >= self.y && (
        y as u32) < (self.y as u32) + (self.height as u32)
    }
}

/// Where the rendered file browser put its parts, so clicks resolve.
#[derive(Debug)]
pub struct FileBrowserLayout {
    /// The file list area; its top row shows the first visible entry.
    pub list: CellRect,
    /// The navigation shortcuts area.
    pub nav: CellRect,
    /// The column header row.
    pub header: CellRect,
    /// The scrollbar strip.
    pub scrollbar: CellRect,
    /// Header column spans: start column, width, and the mode they sort by.
    pub header_columns: Vec<(u16, u16, SortMode)>,
}

impl Clone for FileBrowserLayout {
    /// Clone the layout, field for field.
    fn clone(&self) -> (r: FileBrowserLayout)
        ensures
            r.list == self.list,
            r.nav == self.nav,
            r.header == self.header,
            r.scrollbar == self.scrollbar,
            r.header_columns@ == self.header_columns@,
    {
        let mut columns: Vec<(u16, u16, SortMode)> = Vec::new();
        let n = self.header_columns.len();
        let mut i: usize = 0;
        while i < n
            invariant
                n == self.header_columns@.len(),
                i <= n,
                columns@ == self.header_columns@.take(i as int),
            decreases n - i,
        {
            columns.push(self.header_columns[i]);
            proof {
                assert(self.header_columns@.take(i + 1) =~= self.header_columns@.take(
                    i as int,
                ).push(self.header_columns@[i as int]));
            }
            i += 1;
        }
        proof {
            assert(self.header_columns@.take(n as int) =~= self.header_columns@);
        }
        FileBrowserLayout {
            list: self.list,
            nav: self.nav,
            header: self.header,
            scrollbar: self.scrollbar,
            header_columns: columns,
        }
    }
}

/// The sort mode of the first header column span containing `x`, from
/// `from` on.
pub open spec fn spec_header_column_at(
    columns: Seq<(u16, u16, SortMode)>,
    x: u16,
    from: int,
) -> Option<SortMode>
    decreases columns.len() - from,
{
    if from < 0 || from >= columns.len() {
        Option::None
    } else {
        let (start, width, mode) = columns[from];
        if start <= x < start + width {
            Option::Some(mode)
        } else {
            spec_header_column_at(columns, x, from + 1)
        }
    }
}

impl FileBrowserLayout {
    /// Whether the cell lies in the file list.
    pub fn is_in_list(&self, x: u16, y: u16) -> (r: bool)
        ensures
            r == self.list.spec_contains(x, y),
    {
        self.list.contains(x, y)
    }

    /// Whether the cell lies in the navigation area.
    pub fn is_in_nav(&self, x: u16, y: u16) -> (r: bool)
        ensures
            r == self.nav.spec_contains(x, y),
    {
        self.nav.contains(x, y)
    }

    /// Whether the cell lies in the header row.
    pub fn is_in_header(&self, x: u16, y: u16) -> (r: bool)
        ensures
            r == self.header.spec_contains(x, y),
    {
        self.header.contains(x, y)
    }

    /// Whether the cell lies in the scrollbar.
    pub fn is_in_scrollbar(&self, x: u16, y: u16) -> (r: bool)
        ensures
            r == self.scrollbar.spec_contains(x, y),
    {
        self.scrollbar.contains(x, y)
    }

    /// The entry index a click on row `y` selects, given the scroll.
    pub fn click_to_index(&self, y: u16, scroll_offset: usize) -> (r: Option<usize>)
        ensures
            y >= self.list.y && scroll_offset + (y - self.list.y) <= usize::MAX ==> r == Some(
                (scroll_offset + (y - self.list.y)) as usize,
            ),
            y < self.list.y ==> r is None,
            y >= self.list.y && scroll_offset + (y - self.list.y) > usize::MAX ==> r is None,
    {
        if y >= self.list.y {
            let row = (y - self.list.y) as usize;
            match scroll_offset.checked_add(row) {
                Option::Some(idx) => Option::Some(idx),
                Option::None => Option::None,
            }
        } else {
            Option::None
        }
    }

    /// The sort mode of the header column a click on column `x` hits.
    pub fn header_column_at(&self, x: u16) -> (r: Option<SortMode>)
        ensures
            r == spec_header_column_at(self.header_columns@, x, 0),
    {
        let n = self.header_columns.len();
        let mut i: usize = 0;
        while i < n
            invariant
                n == self.header_columns@.len(),
                i <= n,
                spec_header_column_at(self.header_columns@, x, 0) == spec_header_column_at(
                    self.header_columns@,
                    x,
                    i as int,
                ),
            decreases n - i,
        {
            let (start, width, mode) = self.header_columns[i];
            if x >= start && (x as u32) < (start as u32) + (width as u32) {
                return Option::Some(mode);
            }
            i += 1;
        }
        Option::None
    }
}

/// The modeled editor: what the decision core keeps of the editor's state,
/// together with the effects it asks the surrounding shell to perform.
#[derive(Debug)]
pub struct Editor {
    /// Whether the editor should exit its main loop.
    pub should_quit: bool,
    /// The keybinding context outside menus, prompts and popups.
    pub key_context: KeyContext,
    /// Whether a menu is open.
    pub menu_active: bool,
    /// Whether a popup is visible.
    pub popups_visible: bool,
    /// The open prompt, if any.
    pub prompt: Option<Prompt>,
    /// The file open dialog's state, while it is up.
    pub file_open_state: Option<FileOpenState>,
    /// Where the renderer put the file browser, while it is up.
    pub file_browser_layout: Option<FileBrowserLayout>,
    /// The status line message, if any.
    pub status_message: Option<String>,
    /// Whether the line number margin is shown.
    pub line_numbers: bool,
    /// The active buffer's identifier.
    pub active_buffer: usize,
    /// The primary cursor's identifier.
    pub primary_cursor_id: usize,
    /// The primary cursor of the active buffer.
    pub cursor: ViewPosition,
    /// The selection anchor of the primary cursor, if any.
    pub cursor_anchor: Option<ViewPosition>,
    /// The preferred column kept across vertical moves, if any.
    pub sticky_column: Option<usize>,
    /// Buffer events in the order they were decided.
    pub event_log: Vec<Event>,
    /// Where the cursor has been.
    pub position_history: PositionHistory,
    /// Work for the surrounding shell, in order.
    pub effects: Vec<EditorEffect>,
}

impl Editor {
    /// A fresh editor: nothing open, nothing pending.
    pub fn new() -> (r: Editor)
        ensures
            !r.should_quit,
            r.key_context == KeyContext::Normal,
            !r.menu_active,
            !r.popups_visible,
            r.prompt is None,
            r.file_open_state is None,
            r.file_browser_layout is None,
            r.status_message is None,
            r.line_numbers,
            r.active_buffer == 0,
            r.primary_cursor_id == 0,
            r.cursor.view_line == Some(0usize),
            r.cursor.column == Some(0usize),
            r.cursor.source_byte == Some(0usize),
            r.cursor_anchor is None,
            r.sticky_column is None,
            r.event_log@.len() == 0,
            r.position_history.entries@.len() == 0,
            r.effects@.len() == 0,
    {
        Editor {
            should_quit: false,
            key_context: KeyContext::Normal,
            menu_active: false,
            popups_visible: false,
            prompt: Option::None,
            file_open_state: Option::None,
            file_browser_layout: Option::None,
            status_message: Option::None,
            line_numbers: true,
            active_buffer: 0,
            primary_cursor_id: 0,
            cursor: ViewPosition {
                view_line: Option::Some(0),
                column: Option::Some(0),
                source_byte: Option::Some(0),
            },
            cursor_anchor: Option::None,
            sticky_column: Option::None,
            event_log: Vec::new(),
            position_history: PositionHistory::new(),
            effects: Vec::new(),
        }
    }

    /// Whether a prompt is open.
    pub fn is_prompting(&self) -> (r: bool)
        ensures
            r == (self.prompt is Some),
    {
        match self.prompt {
            Option::Some(_) => true,
            Option::None => false,
        }
    }

    /// The keybinding context the next key resolves in: menus win, then an
    /// open prompt, then a visible popup, then the stored context.
    pub fn get_key_context(&self) -> (r: KeyContext)
        ensures
            r == (if self.menu_active {
                KeyContext::Menu
            } else if self.prompt is Some {
                KeyContext::Prompt
            } else if self.popups_visible {
                KeyContext::Popup
            } else {
                self.key_context
            }),
    {
        if self.menu_active {
            KeyContext::Menu
        } else if self.is_prompting() {
            KeyContext::Prompt
        } else if self.popups_visible {
            KeyContext::Popup
        } else {
            self.key_context
        }
    }

    /// Put a message on the status line.
    pub fn set_status_message(&mut self, message: String)
        ensures
            *final(self) == (Editor { status_message: Option::Some(message), ..*old(self) }),
    {
        self.status_message = Option::Some(message);
    }

    /// Open a prompt of the given kind with an empty input.
    pub fn start_prompt(&mut self, message: String, prompt_type: PromptType)
        ensures
            final(self).prompt matches Some(p) && *final(self) == (Editor {
                prompt: final(self).prompt,
                ..*old(self)
            }),
            final(self).prompt matches Some(p) ==> {
                &&& p.prompt_type == prompt_type
                &&& p.message == message
                &&& p.input@.len() == 0
                &&& p.cursor_pos == 0
                &&& p.selection is None
                &&& p.suggestions@.len() == 0
                &&& p.selected_suggestion is None
            },
    {
        self.prompt = Option::Some(Prompt::new(message, prompt_type));
    }

    /// Close the prompt without acting on it.
    pub fn cancel_prompt(&mut self)
        ensures
            *final(self) == (Editor { prompt: Option::<Prompt>::None, ..*old(self) }),
    {
        self.prompt = Option::None;
    }

    /// Take the prompt for confirmation: its input, kind and selected
    /// suggestion come out and the prompt closes.
    pub fn confirm_prompt(&mut self) -> (r: Option<(String, PromptType, Option<usize>)>)
        ensures
            *final(self) == (Editor { prompt: Option::<Prompt>::None, ..*old(self) }),
            match old(self).prompt {
                Option::Some(p) => r matches Some(t) && t.0 == p.input && t.1 == p.prompt_type
                    && t.2 == p.selected_suggestion,
                Option::None => r is None,
            },
    {
        let mut taken: Option<Prompt> = Option::None;
        core::mem::swap(&mut taken, &mut self.prompt);
        match taken {
            Option::Some(p) => Option::Some((p.input, p.prompt_type, p.selected_suggestion)),
            Option::None => Option::None,
        }
    }

    /// Hand the pending effects to the shell, leaving none behind.
    pub fn take_effects(&mut self) -> (r: Vec<EditorEffect>)
        ensures
            r@ == old(self).effects@,
            *final(self) == (Editor { effects: final(self).effects, ..*old(self) }),
            final(self).effects@.len() == 0,
    {
        let mut out: Vec<EditorEffect> = Vec::new();
        core::mem::swap(&mut out, &mut self.effects);
        out
    }

    /// Append a batch of buffer events to the log and hand each to the
    /// shell to apply, folding cursor moves into the modeled cursor.
    pub fn apply_events(&mut self, events: Vec<Event>)
        ensures
            final(self).event_log@ == old(self).event_log@ + events@,
            final(self).effects@.len() == old(self).effects@.len() + events@.len(),
            forall|k: int|
                0 <= k < old(self).effects@.len() ==> final(self).effects@[k] == old(self).effects@[k],
            forall|k: int|
                0 <= k < events@.len() ==> final(self).effects@[old(self).effects@.len() + k] == (
                EditorEffect::ApplyToBuffer(events@[k])),
            events@.len() > 0 ==> {
                let last = events@.last();
                match last {
                    Event::MoveCursor { new_position, new_anchor, new_sticky_column, .. } => {
                        &&& final(self).cursor == new_position
                        &&& final(self).cursor_anchor == new_anchor
                        &&& final(self).sticky_column == new_sticky_column
                    },
                }
            },
            events@.len() == 0 ==> final(self).cursor == old(self).cursor && final(self).cursor_anchor == old(self).cursor_anchor && final(self).sticky_column == old(self).sticky_column,
            *final(self) == (Editor {
                event_log: final(self).event_log,
                effects: final(self).effects,
                cursor: final(self).cursor,
                cursor_anchor: final(self).cursor_anchor,
                sticky_column: final(self).sticky_column,
                ..*old(self)
            }),
    {
        let n = events.len();
        let mut i: usize = 0;
        while i < n
            invariant
                n == events@.len(),
                i <= n,
                self.event_log@ == old(self).event_log@ + events@.take(i as int),
                self.effects@.len() == old(self).effects@.len() + i,
                forall|k: int|
                    0 <= k < old(self).effects@.len() ==> self.effects@[k] == old(self).effects@[k],
                forall|k: int|
                    0 <= k < i ==> self.effects@[old(self).effects@.len() + k] == (
                    EditorEffect::ApplyToBuffer(events@[k])),
                i > 0 ==> {
                    match events@[i - 1] {
                        Event::MoveCursor { new_position, new_anchor, new_sticky_column, .. } => {
                            &&& self.cursor == new_position
                            &&& self.cursor_anchor == new_anchor
                            &&& self.sticky_column == new_sticky_column
                        },
                    }
                },
                i == 0 ==> self.cursor == old(self).cursor && self.cursor_anchor == old(self).cursor_anchor && self.sticky_column == old(self).sticky_column,
                *self == (Editor {
                    event_log: self.event_log,
                    effects: self.effects,
                    cursor: self.cursor,
                    cursor_anchor: self.cursor_anchor,
                    sticky_column: self.sticky_column,
                    ..*old(self)
                }),
            decreases n - i,
        {
            let event = events[i];
            self.event_log.push(event);
            self.effects.push(EditorEffect::ApplyToBuffer(event));
            match event {
                Event::MoveCursor { new_position, new_anchor, new_sticky_column, .. } => {
                    self.cursor = new_position;
                    self.cursor_anchor = new_anchor;
                    self.sticky_column = new_sticky_column;
                },
            }
            proof {
                assert(old(self).event_log@ + events@.take(i + 1) =~= (old(self).event_log@
                    + events@.take(i as int)).push(events@[i as int]));
            }
            i += 1;
        }
        proof {
            assert(events@.take(n as int) =~= events@);
        }
    }
}

/// Everything of the editor except its pending effects is unchanged, and
/// exactly the one effect was appended.
pub open spec fn pushed_effect(pre: Editor, post: Editor, eff: EditorEffect) -> bool {
    &&& post == (Editor { effects: post.effects, ..pre })
    &&& post.effects@ == pre.effects@.push(eff)
}

/// A fresh prompt of the given kind was opened; nothing else changed.
pub open spec fn prompt_started(
    pre: Editor,
    post: Editor,
    prompt_type: PromptType,
    message: Seq<char>,
) -> bool {
    &&& post == (Editor { prompt: post.prompt, ..pre })
    &&& post.prompt matches Some(p) && {
        &&& p.prompt_type == prompt_type
        &&& p.message@ == message
        &&& p.input@.len() == 0
        &&& p.cursor_pos == 0
        &&& p.selection is None
        &&& p.suggestions@.len() == 0
        &&& p.selected_suggestion is None
    }
}

/// What confirming the prompt does: a line-number prompt becomes a request
/// to resolve and perform the jump; any other prompt kind only reports
/// that it is not implemented. Either way the prompt closes.
pub open spec fn prompt_confirmed(pre: Editor, post: Editor) -> bool {
    match pre.prompt {
        Option::None => post == pre,
        Option::Some(p) => {
            if p.prompt_type == PromptType::GotoLine {
                &&& post == (Editor {
                    prompt: Option::<Prompt>::None,
                    effects: post.effects,
                    ..pre
                })
                &&& post.effects@ == pre.effects@.push(EditorEffect::PerformGotoLine(p.input))
            } else {
                &&& post == (Editor {
                    prompt: Option::<Prompt>::None,
                    status_message: post.status_message,
                    ..pre
                })
                &&& post.status_message matches Some(m) && m@
                    == "Prompt type not yet implemented"@
            }
        },
    }
}

/// A jump to a remembered position: the cursor event is handed to the
/// shell and folded into the modeled cursor; the history index is given.
pub open spec fn jumped_to_entry(
    pre: Editor,
    post: Editor,
    entry: PositionEntry,
    index_after: int,
) -> bool {
    &&& post == (Editor {
        effects: post.effects,
        cursor: entry.position,
        cursor_anchor: entry.anchor,
        sticky_column: entry.position.column,
        position_history: post.position_history,
        ..pre
    })
    &&& post.position_history.entries == pre.position_history.entries
    &&& post.position_history.index == index_after
    &&& post.effects@ == pre.effects@.push(
        EditorEffect::ApplyToBuffer(
            Event::MoveCursor {
                cursor_id: pre.primary_cursor_id,
                old_position: entry.position,
                new_position: entry.position,
                old_anchor: entry.anchor,
                new_anchor: entry.anchor,
                old_sticky_column: Option::None,
                new_sticky_column: entry.position.column,
            },
        ),
    )
}

/// What stepping back in position history does: with an earlier entry
/// recorded, the editor jumps to it; otherwise nothing changes.
pub open spec fn went_back(pre: Editor, post: Editor) -> bool {
    let h = pre.position_history;
    if h.index > 0 && h.index - 1 < h.entries@.len() {
        jumped_to_entry(pre, post, h.entries@[h.index - 1], h.index - 1)
    } else if h.index > 0 {
        post == (Editor { position_history: post.position_history, ..pre })
            && post.position_history.entries == h.entries && post.position_history.index == h.index
            - 1
    } else {
        post == pre
    }
}

/// What stepping forward in position history does: with a later entry
/// recorded, the editor jumps to it; otherwise nothing changes.
pub open spec fn went_forward(pre: Editor, post: Editor) -> bool {
    let h = pre.position_history;
    if h.index + 1 < h.entries@.len() {
        jumped_to_entry(pre, post, h.entries@[h.index + 1], h.index + 1)
    } else {
        post == pre
    }
}

/// How `handle_action` changes the editor for each action: arms the editor
/// decides itself change its state; arms owned by the shell append the
/// matching effect; the remaining prompt-only actions do nothing here.
pub open spec fn action_step(pre: Editor, post: Editor, action: Action) -> bool {
    match action {
        Action::Noop => post == pre,
        Action::Quit => post == (Editor { should_quit: true, ..pre }),
        Action::OpenFile => pushed_effect(pre, post, EditorEffect::ShowOpenFileDialog),
        Action::Save => pushed_effect(pre, post, EditorEffect::Save),
        Action::SaveAll => pushed_effect(pre, post, EditorEffect::SaveAll),
        Action::CommandPalette => pushed_effect(pre, post, EditorEffect::OpenCommandPalette),
        Action::GotoLine => prompt_started(pre, post, PromptType::GotoLine, "Go to line: "@),
        Action::PopupConfirm => pushed_effect(pre, post, EditorEffect::PopupConfirm),
        Action::PopupCancel => post == (Editor { popups_visible: false, ..pre }),
        Action::PopupSelectNext => pushed_effect(pre, post, EditorEffect::PopupSelectNext),
        Action::PopupSelectPrev => pushed_effect(pre, post, EditorEffect::PopupSelectPrev),
        Action::PopupPageDown => pushed_effect(pre, post, EditorEffect::PopupPageDown),
        Action::PopupPageUp => pushed_effect(pre, post, EditorEffect::PopupPageUp),
        Action::PopupShowDocumentation => post == pre,
        Action::PopupScrollDown => post == pre,
        Action::PopupScrollUp => post == pre,
        Action::InsertChar(c) => pushed_effect(
            pre,
            post,
            EditorEffect::RequestEdit(Action::InsertChar(c)),
        ),
        Action::InsertNewline => pushed_effect(
            pre,
            post,
            EditorEffect::RequestEdit(Action::InsertNewline),
        ),
        Action::DeleteBackward => pushed_effect(
            pre,
            post,
            EditorEffect::RequestEdit(Action::DeleteBackward),
        ),
        Action::DeleteForward => pushed_effect(
            pre,
            post,
            EditorEffect::RequestEdit(Action::DeleteForward),
        ),
        Action::MoveLeft => pushed_effect(pre, post, EditorEffect::RequestEdit(Action::MoveLeft)),
        Action::MoveRight => pushed_effect(
            pre,
            post,
            EditorEffect::RequestEdit(Action::MoveRight),
        ),
        Action::MoveUp => pushed_effect(pre, post, EditorEffect::RequestEdit(Action::MoveUp)),
        Action::MoveDown => pushed_effect(pre, post, EditorEffect::RequestEdit(Action::MoveDown)),
        Action::MoveLineStart => pushed_effect(
            pre,
            post,
            EditorEffect::RequestEdit(Action::MoveLineStart),
        ),
        Action::MoveLineEnd => pushed_effect(
            pre,
            post,
            EditorEffect::RequestEdit(Action::MoveLineEnd),
        ),
        Action::MovePageUp => pushed_effect(
            pre,
            post,
            EditorEffect::RequestEdit(Action::MovePageUp),
        ),
        Action::MovePageDown => pushed_effect(
            pre,
            post,
            EditorEffect::RequestEdit(Action::MovePageDown),
        ),
        Action::MoveDocumentStart => pushed_effect(
            pre,
            post,
            EditorEffect::RequestEdit(Action::MoveDocumentStart),
        ),
        Action::MoveDocumentEnd => pushed_effect(
            pre,
            post,
            EditorEffect::RequestEdit(Action::MoveDocumentEnd),
        ),
        Action::SelectLeft => pushed_effect(
            pre,
            post,
            EditorEffect::RequestEdit(Action::SelectLeft),
        ),
        Action::SelectRight => pushed_effect(
            pre,
            post,
            EditorEffect::RequestEdit(Action::SelectRight),
        ),
        Action::SelectUp => pushed_effect(pre, post, EditorEffect::RequestEdit(Action::SelectUp)),
        Action::SelectDown => pushed_effect(
            pre,
            post,
            EditorEffect::RequestEdit(Action::SelectDown),
        ),
        Action::SelectLineStart => pushed_effect(
            pre,
            post,
            EditorEffect::RequestEdit(Action::SelectLineStart),
        ),
        Action::SelectLineEnd => pushed_effect(
            pre,
            post,
            EditorEffect::RequestEdit(Action::SelectLineEnd),
        ),
        Action::SelectDocumentStart => pushed_effect(
            pre,
            post,
            EditorEffect::RequestEdit(Action::SelectDocumentStart),
        ),
        Action::SelectDocumentEnd => pushed_effect(
            pre,
            post,
            EditorEffect::RequestEdit(Action::SelectDocumentEnd),
        ),
        Action::ScrollUp => pushed_effect(pre, post, EditorEffect::RequestEdit(Action::ScrollUp)),
        Action::ScrollDown => pushed_effect(
            pre,
            post,
            EditorEffect::RequestEdit(Action::ScrollDown),
        ),
        Action::Prompt => post == pre,
        Action::PromptConfirm => prompt_confirmed(pre, post),
        Action::Back => went_back(pre, post),
        Action::Forward => went_forward(pre, post),
        Action::LspCompletion => pushed_effect(
            pre,
            post,
            EditorEffect::Lsp(LspRequest::Completion),
        ),
        Action::LspGotoDefinition => pushed_effect(
            pre,
            post,
            EditorEffect::Lsp(LspRequest::GotoDefinition),
        ),
        Action::LspHover => pushed_effect(pre, post, EditorEffect::Lsp(LspRequest::Hover)),
        Action::LspReferences => pushed_effect(
            pre,
            post,
            EditorEffect::Lsp(LspRequest::References),
        ),
        Action::LspRename => pushed_effect(pre, post, EditorEffect::Lsp(LspRequest::Rename)),
        Action::Undo => pushed_effect(pre, post, EditorEffect::Undo),
        Action::Redo => pushed_effect(pre, post, EditorEffect::Redo),
        Action::Cut => pushed_effect(pre, post, EditorEffect::Cut),
        Action::Copy => pushed_effect(pre, post, EditorEffect::Copy),
        Action::Paste => pushed_effect(pre, post, EditorEffect::Paste),
        Action::SelectAll => pushed_effect(pre, post, EditorEffect::SelectAll),
        Action::Find => pushed_effect(pre, post, EditorEffect::PromptSearch),
        Action::FindNext => pushed_effect(pre, post, EditorEffect::FindNext),
        Action::FindPrev => pushed_effect(pre, post, EditorEffect::FindPrev),
        Action::Replace => pushed_effect(pre, post, EditorEffect::PromptReplace),
        Action::ReplaceNext => pushed_effect(pre, post, EditorEffect::ReplaceNext),
        Action::ToggleLineNumbers => post == (Editor { line_numbers: !pre.line_numbers, ..pre }),
        Action::ToggleLineWrap => pushed_effect(pre, post, EditorEffect::ToggleLineWrap),
        Action::SplitHorizontal => pushed_effect(pre, post, EditorEffect::SplitHorizontal),
        Action::SplitVertical => pushed_effect(pre, post, EditorEffect::SplitVertical),
        Action::CloseSplit => pushed_effect(pre, post, EditorEffect::CloseSplit),
        Action::NextSplit => pushed_effect(pre, post, EditorEffect::NextSplit),
        Action::PrevSplit => pushed_effect(pre, post, EditorEffect::PrevSplit),
        Action::FocusFileExplorer => pushed_effect(pre, post, EditorEffect::FocusFileExplorer),
        Action::ToggleFileExplorer => pushed_effect(pre, post, EditorEffect::ToggleFileExplorer),
        Action::OpenRecent => pushed_effect(pre, post, EditorEffect::OpenRecent),
        Action::OpenConfig => pushed_effect(pre, post, EditorEffect::OpenConfig),
        Action::OpenHelp => pushed_effect(pre, post, EditorEffect::OpenHelp),
        Action::OpenThemeSwitcher => pushed_effect(pre, post, EditorEffect::OpenThemeSwitcher),
        Action::ToggleComposeMode => pushed_effect(pre, post, EditorEffect::ToggleComposeMode),
        Action::PromptSaveAs => pushed_effect(pre, post, EditorEffect::PromptSaveAs),
        Action::PromptOpen => pushed_effect(pre, post, EditorEffect::PromptOpen),
        Action::PromptSearch => pushed_effect(pre, post, EditorEffect::PromptSearch),
        Action::PromptReplace => pushed_effect(pre, post, EditorEffect::PromptReplace),
        Action::PromptCommand => pushed_effect(pre, post, EditorEffect::OpenCommandPalette),
        Action::PromptClose => post == (Editor { prompt: Option::<Prompt>::None, ..pre }),
        Action::OpenLogs => pushed_effect(pre, post, EditorEffect::OpenLogs),
        Action::PluginAction(name) => pushed_effect(
            pre,
            post,
            EditorEffect::RunPluginAction(name),
        ),
        _ => post == pre,
    }
}

impl Editor {
    /// Handle a resolved action: arms the editor decides itself update its
    /// state, arms the shell owns append the matching effect, and prompt
    /// editing actions are no-ops here because the prompt handler owns
    /// them.
    pub fn handle_action(&mut self, action: Action)
        ensures
            action_step(*old(self), *final(self), action),
    {
        match action {
            Action::Noop => {},
            Action::Quit => {
                self.should_quit = true;
            },
            Action::OpenFile => {
                self.effects.push(EditorEffect::ShowOpenFileDialog);
            },
            Action::Save => {
                self.effects.push(EditorEffect::Save);
            },
            Action::SaveAll => {
                self.effects.push(EditorEffect::SaveAll);
            },
            Action::CommandPalette => {
                self.effects.push(EditorEffect::OpenCommandPalette);
            },
            Action::GotoLine => {
                self.start_prompt(String::from_str("Go to line: "), PromptType::GotoLine);
            },
            Action::PopupConfirm => {
                self.effects.push(EditorEffect::PopupConfirm);
            },
            Action::PopupCancel => {
                self.popups_visible = false;
            },
            Action::PopupSelectNext => {
                self.effects.push(EditorEffect::PopupSelectNext);
            },
            Action::PopupSelectPrev => {
                self.effects.push(EditorEffect::PopupSelectPrev);
            },
            Action::PopupPageDown => {
                self.effects.push(EditorEffect::PopupPageDown);
            },
            Action::PopupPageUp => {
                self.effects.push(EditorEffect::PopupPageUp);
            },
            Action::PopupShowDocumentation => {},
            Action::PopupScrollDown => {},
            Action::PopupScrollUp => {},
            Action::InsertChar(c) => {
                self.effects.push(EditorEffect::RequestEdit(Action::InsertChar(c)));
            },
            Action::InsertNewline => {
                self.effects.push(EditorEffect::RequestEdit(Action::InsertNewline));
            },
            Action::DeleteBackward => {
                self.effects.push(EditorEffect::RequestEdit(Action::DeleteBackward));
            },
            Action::DeleteForward => {
                self.effects.push(EditorEffect::RequestEdit(Action::DeleteForward));
            },
            Action::MoveLeft => {
                self.effects.push(EditorEffect::RequestEdit(Action::MoveLeft));
            },
            Action::MoveRight => {
                self.effects.push(EditorEffect::RequestEdit(Action::MoveRight));
            },
            Action::MoveUp => {
                self.effects.push(EditorEffect::RequestEdit(Action::MoveUp));
            },
            Action::MoveDown => {
                self.effects.push(EditorEffect::RequestEdit(Action::MoveDown));
            },
            Action::MoveLineStart => {
                self.effects.push(EditorEffect::RequestEdit(Action::MoveLineStart));
            },
            Action::MoveLineEnd => {
                self.effects.push(EditorEffect::RequestEdit(Action::MoveLineEnd));
            },
            Action::MovePageUp => {
                self.effects.push(EditorEffect::RequestEdit(Action::MovePageUp));
            },
            Action::MovePageDown => {
                self.effects.push(EditorEffect::RequestEdit(Action::MovePageDown));
            },
            Action::MoveDocumentStart => {
                self.effects.push(EditorEffect::RequestEdit(Action::MoveDocumentStart));
            },
            Action::MoveDocumentEnd => {
                self.effects.push(EditorEffect::RequestEdit(Action::MoveDocumentEnd));
            },
            Action::SelectLeft => {
                self.effects.push(EditorEffect::RequestEdit(Action::SelectLeft));
            },
            Action::SelectRight => {
                self.effects.push(EditorEffect::RequestEdit(Action::SelectRight));
            },
            Action::SelectUp => {
                self.effects.push(EditorEffect::RequestEdit(Action::SelectUp));
            },
            Action::SelectDown => {
                self.effects.push(EditorEffect::RequestEdit(Action::SelectDown));
            },
            Action::SelectLineStart => {
                self.effects.push(EditorEffect::RequestEdit(Action::SelectLineStart));
            },
            Action::SelectLineEnd => {
                self.effects.push(EditorEffect::RequestEdit(Action::SelectLineEnd));
            },
            Action::SelectDocumentStart => {
                self.effects.push(EditorEffect::RequestEdit(Action::SelectDocumentStart));
            },
            Action::SelectDocumentEnd => {
                self.effects.push(EditorEffect::RequestEdit(Action::SelectDocumentEnd));
            },
            Action::ScrollUp => {
                self.effects.push(EditorEffect::RequestEdit(Action::ScrollUp));
            },
            Action::ScrollDown => {
                self.effects.push(EditorEffect::RequestEdit(Action::ScrollDown));
            },
            Action::Prompt => {},
            Action::PromptConfirm => {
                match self.confirm_prompt() {
                    Option::Some((input, prompt_type, _selected)) => {
                        self.handle_prompt_confirm(input, prompt_type);
                    },
                    Option::None => {},
                }
            },
            Action::Back => {
                let entry = self.position_history.back();
                match entry {
                    Option::Some(e) => {
                        self.jump_to_history_entry(&e);
                    },
                    Option::None => {},
                }
            },
            Action::Forward => {
                let entry = self.position_history.forward();
                match entry {
                    Option::Some(e) => {
                        self.jump_to_history_entry(&e);
                    },
                    Option::None => {},
                }
            },
            Action::LspCompletion => {
                self.effects.push(EditorEffect::Lsp(LspRequest::Completion));
            },
            Action::LspGotoDefinition => {
                self.effects.push(EditorEffect::Lsp(LspRequest::GotoDefinition));
            },
            Action::LspHover => {
                self.effects.push(EditorEffect::Lsp(LspRequest::Hover));
            },
            Action::LspReferences => {
                self.effects.push(EditorEffect::Lsp(LspRequest::References));
            },
            Action::LspRename => {
                self.effects.push(EditorEffect::Lsp(LspRequest::Rename));
            },
            Action::Undo => {
                self.effects.push(EditorEffect::Undo);
            },
            Action::Redo => {
                self.effects.push(EditorEffect::Redo);
            },
            Action::Cut => {
                self.effects.push(EditorEffect::Cut);
            },
            Action::Copy => {
                self.effects.push(EditorEffect::Copy);
            },
            Action::Paste => {
                self.effects.push(EditorEffect::Paste);
            },
            Action::SelectAll => {
                self.effects.push(EditorEffect::SelectAll);
            },
            Action::Find => {
                self.effects.push(EditorEffect::PromptSearch);
            },
            Action::FindNext => {
                self.effects.push(EditorEffect::FindNext);
            },
            Action::FindPrev => {
                self.effects.push(EditorEffect::FindPrev);
            },
            Action::Replace => {
                self.effects.push(EditorEffect::PromptReplace);
            },
            Action::ReplaceNext => {
                self.effects.push(EditorEffect::ReplaceNext);
            },
            Action::ToggleLineNumbers => {
                self.line_numbers = !self.line_numbers;
            },
            Action::ToggleLineWrap => {
                self.effects.push(EditorEffect::ToggleLineWrap);
            },
            Action::SplitHorizontal => {
                self.effects.push(EditorEffect::SplitHorizontal);
            },
            Action::SplitVertical => {
                self.effects.push(EditorEffect::SplitVertical);
            },
            Action::CloseSplit => {
                self.effects.push(EditorEffect::CloseSplit);
            },
            Action::NextSplit => {
                self.effects.push(EditorEffect::NextSplit);
            },
            Action::PrevSplit => {
                self.effects.push(EditorEffect::PrevSplit);
            },
            Action::FocusFileExplorer => {
                self.effects.push(EditorEffect::FocusFileExplorer);
            },
            Action::ToggleFileExplorer => {
                self.effects.push(EditorEffect::ToggleFileExplorer);
            },
            Action::OpenRecent => {
                self.effects.push(EditorEffect::OpenRecent);
            },
            Action::OpenConfig => {
                self.effects.push(EditorEffect::OpenConfig);
            },
            Action::OpenHelp => {
                self.effects.push(EditorEffect::OpenHelp);
            },
            Action::OpenThemeSwitcher => {
                self.effects.push(EditorEffect::OpenThemeSwitcher);
            },
            Action::ToggleComposeMode => {
                self.effects.push(EditorEffect::ToggleComposeMode);
            },
            Action::PromptSaveAs => {
                self.effects.push(EditorEffect::PromptSaveAs);
            },
            Action::PromptOpen => {
                self.effects.push(EditorEffect::PromptOpen);
            },
            Action::PromptSearch => {
                self.effects.push(EditorEffect::PromptSearch);
            },
            Action::PromptReplace => {
                self.effects.push(EditorEffect::PromptReplace);
            },
            Action::PromptCommand => {
                self.effects.push(EditorEffect::OpenCommandPalette);
            },
            Action::PromptClose => {
                self.cancel_prompt();
            },
            Action::OpenLogs => {
                self.effects.push(EditorEffect::OpenLogs);
            },
            Action::PluginAction(name) => {
                self.effects.push(EditorEffect::RunPluginAction(name));
            },
            _ => {},
        }
    }

    /// Confirm a prompt's input: a line-number prompt becomes a request to
    /// resolve and perform the jump; other prompt kinds only report that
    /// they are not implemented yet.
    fn handle_prompt_confirm(&mut self, input: String, prompt_type: PromptType)
        ensures
            prompt_type == PromptType::GotoLine ==> *final(self) == (Editor {
                effects: final(self).effects,
                ..*old(self)
            }) && final(self).effects@ == old(self).effects@.push(
                EditorEffect::PerformGotoLine(input),
            ),
            prompt_type != PromptType::GotoLine ==> *final(self) == (Editor {
                status_message: final(self).status_message,
                ..*old(self)
            }) && (final(self).status_message matches Some(m) && m@
                == "Prompt type not yet implemented"@),
    {
        match prompt_type {
            PromptType::GotoLine => {
                self.effects.push(EditorEffect::PerformGotoLine(input));
            },
            _ => {
                self.set_status_message(String::from_str("Prompt type not yet implemented"));
            },
        }
    }

    /// Jump to a remembered position: the cursor event goes to the shell
    /// and the modeled cursor follows it.
    fn jump_to_history_entry(&mut self, entry: &PositionEntry)
        ensures
            *final(self) == (Editor {
                effects: final(self).effects,
                cursor: entry.position,
                cursor_anchor: entry.anchor,
                sticky_column: entry.position.column,
                ..*old(self)
            }),
            final(self).effects@ == old(self).effects@.push(
                EditorEffect::ApplyToBuffer(
                    Event::MoveCursor {
                        cursor_id: old(self).primary_cursor_id,
                        old_position: entry.position,
                        new_position: entry.position,
                        old_anchor: entry.anchor,
                        new_anchor: entry.anchor,
                        old_sticky_column: Option::None,
                        new_sticky_column: entry.position.column,
                    },
                ),
            ),
    {
        let new_pos = entry.position;
        let new_anchor = entry.anchor;
        let move_event = Event::MoveCursor {
            cursor_id: self.primary_cursor_id,
            old_position: new_pos,
            new_position: new_pos,
            old_anchor: new_anchor,
            new_anchor,
            old_sticky_column: Option::None,
            new_sticky_column: new_pos.column,
        };
        self.effects.push(EditorEffect::ApplyToBuffer(move_event));
        self.cursor = new_pos;
        self.cursor_anchor = new_anchor;
        self.sticky_column = new_pos.column;
    }
}

/// How `handle_prompt_action` changes the editor: prompt editing actions
/// rewrite the open prompt, deletions also ask the shell to refresh the
/// suggestions, confirmation and cancellation close the prompt, and any
/// other action does nothing here.
pub open spec fn prompt_action_step(pre: Editor, post: Editor, action: Action) -> bool {
    match action {
        Action::PromptConfirm => prompt_confirmed(pre, post),
        Action::PromptCancel => post == (Editor { prompt: Option::<Prompt>::None, ..pre }),
        Action::PromptBackspace => {
            &&& post == (Editor { prompt: post.prompt, effects: post.effects, ..pre })
            &&& post.effects@ == pre.effects@.push(EditorEffect::RefreshPromptSuggestions)
            &&& match (pre.prompt, post.prompt) {
                (Option::Some(p), Option::Some(q)) => backspaced(p, q),
                (Option::None, Option::None) => true,
                _ => false,
            }
        },
        Action::PromptDelete => {
            &&& post == (Editor { prompt: post.prompt, effects: post.effects, ..pre })
            &&& post.effects@ == pre.effects@.push(EditorEffect::RefreshPromptSuggestions)
            &&& match (pre.prompt, post.prompt) {
                (Option::Some(p), Option::Some(q)) => deleted_forward(p, q),
                (Option::None, Option::None) => true,
                _ => false,
            }
        },
        Action::PromptMoveLeft => prompt_rewritten_moved_left(pre, post),
        Action::PromptMoveRight => prompt_rewritten_moved_right(pre, post),
        Action::PromptMoveStart => prompt_rewritten_moved_start(pre, post),
        Action::PromptMoveEnd => prompt_rewritten_moved_end(pre, post),
        Action::PromptSelectPrev => prompt_rewritten_suggestion_prev(pre, post),
        Action::PromptSelectNext => prompt_rewritten_suggestion_next(pre, post),
        _ => post == pre,
    }
}

/// Only the prompt changed, by a cursor move one character left.
pub open spec fn prompt_rewritten_moved_left(pre: Editor, post: Editor) -> bool {
    &&& post == (Editor { prompt: post.prompt, ..pre })
    &&& match (pre.prompt, post.prompt) {
        (Option::Some(p), Option::Some(q)) => moved_left(p, q),
        (Option::None, Option::None) => true,
        _ => false,
    }
}

/// Only the prompt changed, by a cursor move one character right.
pub open spec fn prompt_rewritten_moved_right(pre: Editor, post: Editor) -> bool {
    &&& post == (Editor { prompt: post.prompt, ..pre })
    &&& match (pre.prompt, post.prompt) {
        (Option::Some(p), Option::Some(q)) => moved_right(p, q),
        (Option::None, Option::None) => true,
        _ => false,
    }
}

/// Only the prompt changed, by a cursor move to the input's start.
pub open spec fn prompt_rewritten_moved_start(pre: Editor, post: Editor) -> bool {
    &&& post == (Editor { prompt: post.prompt, ..pre })
    &&& match (pre.prompt, post.prompt) {
        (Option::Some(p), Option::Some(q)) => moved_start(p, q),
        (Option::None, Option::None) => true,
        _ => false,
    }
}

/// Only the prompt changed, by a cursor move past the input's end.
pub open spec fn prompt_rewritten_moved_end(pre: Editor, post: Editor) -> bool {
    &&& post == (Editor { prompt: post.prompt, ..pre })
    &&& match (pre.prompt, post.prompt) {
        (Option::Some(p), Option::Some(q)) => moved_end(p, q),
        (Option::None, Option::None) => true,
        _ => false,
    }
}

/// Only the prompt changed, by moving the suggestion selection up.
pub open spec fn prompt_rewritten_suggestion_prev(pre: Editor, post: Editor) -> bool {
    &&& post == (Editor { prompt: post.prompt, ..pre })
    &&& match (pre.prompt, post.prompt) {
        (Option::Some(p), Option::Some(q)) => suggestion_prev(p, q),
        (Option::None, Option::None) => true,
        _ => false,
    }
}

/// Only the prompt changed, by moving the suggestion selection down.
pub open spec fn prompt_rewritten_suggestion_next(pre: Editor, post: Editor) -> bool {
    &&& post == (Editor { prompt: post.prompt, ..pre })
    &&& match (pre.prompt, post.prompt) {
        (Option::Some(p), Option::Some(q)) => suggestion_next(p, q),
        (Option::None, Option::None) => true,
        _ => false,
    }
}

impl Editor {
    /// Handle a prompt-specific action: editing and movement rewrite the
    /// open prompt, deletions also ask the shell to refresh suggestions,
    /// and confirmation or cancellation close it.
    pub fn handle_prompt_action(&mut self, action: Action)
        ensures
            prompt_action_step(*old(self), *final(self), action),
    {
        match action {
            Action::PromptConfirm => {
                self.handle_action(Action::PromptConfirm);
            },
            Action::PromptCancel => {
                self.cancel_prompt();
            },
            Action::PromptBackspace => {
                let mut taken: Option<Prompt> = Option::None;
                core::mem::swap(&mut taken, &mut self.prompt);
                match taken {
                    Option::Some(mut p) => {
                        p.backspace();
                        self.prompt = Option::Some(p);
                    },
                    Option::None => {},
                }
                self.effects.push(EditorEffect::RefreshPromptSuggestions);
            },
            Action::PromptDelete => {
                let mut taken: Option<Prompt> = Option::None;
                core::mem::swap(&mut taken, &mut self.prompt);
                match taken {
                    Option::Some(mut p) => {
                        p.delete_forward();
                        self.prompt = Option::Some(p);
                    },
                    Option::None => {},
                }
                self.effects.push(EditorEffect::RefreshPromptSuggestions);
            },
            Action::PromptMoveLeft => {
                let mut taken: Option<Prompt> = Option::None;
                core::mem::swap(&mut taken, &mut self.prompt);
                match taken {
                    Option::Some(mut p) => {
                        p.move_left();
                        self.prompt = Option::Some(p);
                    },
                    Option::None => {},
                }
            },
            Action::PromptMoveRight => {
                let mut taken: Option<Prompt> = Option::None;
                core::mem::swap(&mut taken, &mut self.prompt);
                match taken {
                    Option::Some(mut p) => {
                        p.move_right();
                        self.prompt = Option::Some(p);
                    },
                    Option::None => {},
                }
            },
            Action::PromptMoveStart => {
                let mut taken: Option<Prompt> = Option::None;
                core::mem::swap(&mut taken, &mut self.prompt);
                match taken {
                    Option::Some(mut p) => {
                        p.move_start();
                        self.prompt = Option::Some(p);
                    },
                    Option::None => {},
                }
            },
            Action::PromptMoveEnd => {
                let mut taken: Option<Prompt> = Option::None;
                core::mem::swap(&mut taken, &mut self.prompt);
                match taken {
                    Option::Some(mut p) => {
                        p.move_end();
                        self.prompt = Option::Some(p);
                    },
                    Option::None => {},
                }
            },
            Action::PromptSelectPrev => {
                let mut taken: Option<Prompt> = Option::None;
                core::mem::swap(&mut taken, &mut self.prompt);
                match taken {
                    Option::Some(mut p) => {
                        p.suggestion_prev();
                        self.prompt = Option::Some(p);
                    },
                    Option::None => {},
                }
            },
            Action::PromptSelectNext => {
                let mut taken: Option<Prompt> = Option::None;
                core::mem::swap(&mut taken, &mut self.prompt);
                match taken {
                    Option::Some(mut p) => {
                        p.suggestion_next();
                        self.prompt = Option::Some(p);
                    },
                    Option::None => {},
                }
            },
            _ => {},
        }
    }
}


/// Whether the open-file dialog is in charge of input: the prompt asks for
/// a file and the dialog state exists.
pub open spec fn spec_file_open_active(e: Editor) -> bool {
    &&& e.prompt matches Some(p) && p.prompt_type == PromptType::OpenFile
    &&& e.file_open_state is Some
}

/// Only the dialog state changed, to the given value.
pub open spec fn only_fos_changed_to(pre: Editor, post: Editor, s2: FileOpenState) -> bool {
    &&& post == (Editor { file_open_state: post.file_open_state, ..pre })
    &&& post.file_open_state == Some(s2)
}

/// The path the dialog's selection names, if any.
pub open spec fn spec_selected_path(s: FileOpenState) -> Option<String> {
    match s.active_section {
        crate::file_open::FileOpenSection::Navigation => {
            if s.selected_shortcut < s.shortcuts@.len() {
                Option::Some(s.shortcuts@[s.selected_shortcut as int].path)
            } else {
                Option::None
            }
        },
        crate::file_open::FileOpenSection::Files => {
            if s.selected_index < s.entries@.len() {
                Option::Some(s.entries@[s.selected_index as int].fs_entry.path)
            } else {
                Option::None
            }
        },
    }
}

/// Whether the dialog's selection is a directory; shortcuts always are.
pub open spec fn spec_selected_is_dir(s: FileOpenState) -> bool {
    match s.active_section {
        crate::file_open::FileOpenSection::Navigation => true,
        crate::file_open::FileOpenSection::Files => s.selected_index < s.entries@.len()
            && s.entries@[s.selected_index as int].fs_entry.entry_type
            == crate::file_open::FsEntryType::Directory,
    }
}

/// The browser moved to another directory: the prompt's input clears, the
/// dialog aims at the new directory and reloads, and the shell is asked to
/// list it. Nothing else moves.
pub open spec fn navigated_to(pre: Editor, post: Editor, dir: Seq<char>) -> bool {
    &&& post == (Editor {
        prompt: post.prompt,
        file_open_state: post.file_open_state,
        effects: post.effects,
        ..pre
    })
    &&& match (pre.prompt, post.prompt) {
        (Option::Some(p), Option::Some(q)) => q == (Prompt {
            input: q.input,
            cursor_pos: 0usize,
            ..p
        }) && q.input@.len() == 0,
        (Option::None, Option::None) => true,
        _ => false,
    }
    &&& match (pre.file_open_state, post.file_open_state) {
        (Option::Some(s), Option::Some(s2)) => s2 == (FileOpenState {
            current_dir: s2.current_dir,
            loading: true,
            ..s
        }) && s2.current_dir@ == dir,
        (Option::None, Option::None) => true,
        _ => false,
    }
    &&& post.effects@.len() == pre.effects@.len() + 1
    &&& forall|k: int| 0 <= k < pre.effects@.len() ==> post.effects@[k] == pre.effects@[k]
    &&& (post.effects@.last() matches EditorEffect::LoadDirectory(d) && d@ == dir)
}

/// The browser opened a file: the dialog and the prompt close and the
/// shell is asked to open the path.
pub open spec fn opened_file(pre: Editor, post: Editor, path: Seq<char>) -> bool {
    &&& post == (Editor {
        prompt: Option::<Prompt>::None,
        file_open_state: Option::<FileOpenState>::None,
        effects: post.effects,
        ..pre
    })
    &&& post.effects@.len() == pre.effects@.len() + 1
    &&& forall|k: int| 0 <= k < pre.effects@.len() ==> post.effects@[k] == pre.effects@[k]
    &&& (post.effects@.last() matches EditorEffect::OpenPath(p) && p@ == path)
}

/// What confirming the dialog's selection does: nothing without a
/// selection; a directory is navigated into; a file is opened.
pub open spec fn file_open_confirmed(pre: Editor, post: Editor) -> bool {
    match pre.file_open_state {
        Option::None => post == pre,
        Option::Some(s) => match spec_selected_path(s) {
            Option::None => post == pre,
            Option::Some(path) => {
                if spec_selected_is_dir(s) {
                    navigated_to(pre, post, path@)
                } else {
                    opened_file(pre, post, path@)
                }
            },
        },
    }
}

/// What backing out to the parent directory does: with a parent to go to,
/// the browser navigates there; at the root nothing changes.
pub open spec fn went_to_parent(pre: Editor, post: Editor) -> bool {
    match pre.file_open_state {
        Option::None => post == pre,
        Option::Some(s) => match crate::path_util::spec_parent_of(s.current_dir@) {
            Option::Some(parent) => navigated_to(pre, post, parent),
            Option::None => post == pre,
        },
    }
}

/// How `handle_file_open_action` changes the editor and whether it claims
/// the action: with the dialog inactive nothing is claimed; otherwise the
/// prompt's list actions drive the dialog's selection, confirmation opens
/// or navigates, backspace on an empty filter backs out to the parent, and
/// cancellation closes the dialog.
pub open spec fn file_open_action_step(
    pre: Editor,
    post: Editor,
    action: Action,
    handled: bool,
) -> bool {
    if !spec_file_open_active(pre) {
        post == pre && !handled
    } else {
        match action {
            Action::PromptSelectPrev => handled && match pre.file_open_state {
                Option::Some(s) => only_fos_changed_to(pre, post, spec_select_prev(s)),
                Option::None => false,
            },
            Action::PromptSelectNext => handled && match pre.file_open_state {
                Option::Some(s) => only_fos_changed_to(pre, post, spec_select_next(s)),
                Option::None => false,
            },
            Action::PromptPageUp => handled && match pre.file_open_state {
                Option::Some(s) => only_fos_changed_to(pre, post, spec_page_up(s, 10)),
                Option::None => false,
            },
            Action::PromptPageDown => handled && match pre.file_open_state {
                Option::Some(s) => only_fos_changed_to(pre, post, spec_page_down(s, 10)),
                Option::None => false,
            },
            Action::PromptMoveStart => handled && match pre.file_open_state {
                Option::Some(s) => only_fos_changed_to(pre, post, spec_select_first(s)),
                Option::None => false,
            },
            Action::PromptMoveEnd => handled && match pre.file_open_state {
                Option::Some(s) => only_fos_changed_to(pre, post, spec_select_last(s)),
                Option::None => false,
            },
            Action::PromptConfirm => handled && file_open_confirmed(pre, post),
            Action::PromptAcceptSuggestion => handled && match pre.file_open_state {
                Option::Some(s) => only_fos_changed_to(pre, post, spec_switch_section(s)),
                Option::None => false,
            },
            Action::PromptBackspace => {
                let filter_empty = match pre.file_open_state {
                    Option::Some(s) => s.filter@.len() == 0,
                    Option::None => true,
                };
                let prompt_empty = match pre.prompt {
                    Option::Some(p) => p.input@.len() == 0,
                    Option::None => true,
                };
                if filter_empty && prompt_empty {
                    handled && went_to_parent(pre, post)
                } else {
                    !handled && post == pre
                }
            },
            Action::PromptCancel => handled && post == (Editor {
                prompt: Option::<Prompt>::None,
                file_open_state: Option::<FileOpenState>::None,
                ..pre
            }),
            _ => !handled && post == pre,
        }
    }
}

impl Editor {
    /// Whether the open-file dialog is in charge of input.
    pub fn is_file_open_active(&self) -> (r: bool)
        ensures
            r == spec_file_open_active(*self),
    {
        let prompt_is_open_file = match &self.prompt {
            Option::Some(p) => p.prompt_type == PromptType::OpenFile,
            Option::None => false,
        };
        let has_state = match &self.file_open_state {
            Option::Some(_) => true,
            Option::None => false,
        };
        prompt_is_open_file && has_state
    }

    /// Route an action to the open-file dialog while it is up. Claimed
    /// actions drive the dialog; an unclaimed one falls through to the
    /// ordinary prompt handling.
    pub fn handle_file_open_action(&mut self, action: &Action) -> (handled: bool)
        ensures
            file_open_action_step(*old(self), *final(self), *action, handled),
    {
        if !self.is_file_open_active() {
            return false;
        }
        match action {
            Action::PromptSelectPrev => {
                let mut taken: Option<FileOpenState> = Option::None;
                core::mem::swap(&mut taken, &mut self.file_open_state);
                match taken {
                    Option::Some(mut s) => {
                        s.select_prev();
                        self.file_open_state = Option::Some(s);
                    },
                    Option::None => {},
                }
                true
            },
            Action::PromptSelectNext => {
                let mut taken: Option<FileOpenState> = Option::None;
                core::mem::swap(&mut taken, &mut self.file_open_state);
                match taken {
                    Option::Some(mut s) => {
                        s.select_next();
                        self.file_open_state = Option::Some(s);
                    },
                    Option::None => {},
                }
                true
            },
            Action::PromptPageUp => {
                let mut taken: Option<FileOpenState> = Option::None;
                core::mem::swap(&mut taken, &mut self.file_open_state);
                match taken {
                    Option::Some(mut s) => {
                        s.page_up(10);
                        self.file_open_state = Option::Some(s);
                    },
                    Option::None => {},
                }
                true
            },
            Action::PromptPageDown => {
                let mut taken: Option<FileOpenState> = Option::None;
                core::mem::swap(&mut taken, &mut self.file_open_state);
                match taken {
                    Option::Some(mut s) => {
                        s.page_down(10);
                        self.file_open_state = Option::Some(s);
                    },
                    Option::None => {},
                }
                true
            },
            Action::PromptMoveStart => {
                let mut taken: Option<FileOpenState> = Option::None;
                core::mem::swap(&mut taken, &mut self.file_open_state);
                match taken {
                    Option::Some(mut s) => {
                        s.select_first();
                        self.file_open_state = Option::Some(s);
                    },
                    Option::None => {},
                }
                true
            },
            Action::PromptMoveEnd => {
                let mut taken: Option<FileOpenState> = Option::None;
                core::mem::swap(&mut taken, &mut self.file_open_state);
                match taken {
                    Option::Some(mut s) => {
                        s.select_last();
                        self.file_open_state = Option::Some(s);
                    },
                    Option::None => {},
                }
                true
            },
            Action::PromptConfirm => {
                self.file_open_confirm();
                true
            },
            Action::PromptAcceptSuggestion => {
                let mut taken: Option<FileOpenState> = Option::None;
                core::mem::swap(&mut taken, &mut self.file_open_state);
                match taken {
                    Option::Some(mut s) => {
                        s.switch_section();
                        self.file_open_state = Option::Some(s);
                    },
                    Option::None => {},
                }
                true
            },
            Action::PromptBackspace => {
                let filter_empty = match &self.file_open_state {
                    Option::Some(s) => s.filter.as_str().is_empty(),
                    Option::None => true,
                };
                let prompt_empty = match &self.prompt {
                    Option::Some(p) => p.input.as_str().is_empty(),
                    Option::None => true,
                };
                if filter_empty && prompt_empty {
                    self.file_open_go_parent();
                    true
                } else {
                    // Ordinary prompt handling deletes the character.
                    false
                }
            },
            Action::PromptCancel => {
                self.cancel_prompt();
                self.file_open_state = Option::None;
                true
            },
            _ => false,
        }
    }

    /// Confirm the dialog's selection: navigate into a directory, open a
    /// file, and do nothing without a selection.
    fn file_open_confirm(&mut self)
        ensures
            file_open_confirmed(*old(self), *final(self)),
    {
        let (path, is_dir) = {
            let state = match &self.file_open_state {
                Option::Some(s) => s,
                Option::None => {
                    return ;
                },
            };
            let path = match state.get_selected_path() {
                Option::Some(p) => p,
                Option::None => {
                    return ;
                },
            };
            (path, state.selected_is_dir())
        };
        if is_dir {
            self.file_open_navigate_to(path);
        } else {
            self.file_open_open_file(path);
        }
    }

    /// Aim the dialog at another directory: the prompt input clears and
    /// the shell is asked to list the directory.
    fn file_open_navigate_to(&mut self, path: String)
        ensures
            navigated_to(*old(self), *final(self), path@),
    {
        // Clear the prompt input.
        let mut taken: Option<Prompt> = Option::None;
        core::mem::swap(&mut taken, &mut self.prompt);
        match taken {
            Option::Some(mut p) => {
                p.input = String::new();
                p.cursor_pos = 0;
                self.prompt = Option::Some(p);
            },
            Option::None => {},
        }
        self.load_file_open_directory(path);
    }

    /// Point the dialog at a directory and ask the shell to list it.
    fn load_file_open_directory(&mut self, path: String)
        ensures
            *final(self) == (Editor {
                file_open_state: final(self).file_open_state,
                effects: final(self).effects,
                ..*old(self)
            }),
            match (old(self).file_open_state, final(self).file_open_state) {
                (Option::Some(s), Option::Some(s2)) => s2 == (FileOpenState {
                    current_dir: s2.current_dir,
                    loading: true,
                    ..s
                }) && s2.current_dir == path,
                (Option::None, Option::None) => true,
                _ => false,
            },
            final(self).effects@.len() == old(self).effects@.len() + 1,
            forall|k: int|
                0 <= k < old(self).effects@.len() ==> final(self).effects@[k] == old(
                    self,
                ).effects@[k],
            final(self).effects@.last() matches EditorEffect::LoadDirectory(d) && d@ == path@,
    {
        let mut taken: Option<FileOpenState> = Option::None;
        core::mem::swap(&mut taken, &mut self.file_open_state);
        match taken {
            Option::Some(mut s) => {
                s.current_dir = path.clone();
                s.loading = true;
                self.file_open_state = Option::Some(s);
            },
            Option::None => {},
        }
        self.effects.push(EditorEffect::LoadDirectory(path));
    }

    /// Open a file from the dialog: the dialog and the prompt close and
    /// the shell is asked to open the path.
    fn file_open_open_file(&mut self, path: String)
        ensures
            opened_file(*old(self), *final(self), path@),
    {
        self.file_open_state = Option::None;
        self.prompt = Option::None;
        self.effects.push(EditorEffect::OpenPath(path));
    }

    /// Back out of the current directory into its parent, when it has one.
    fn file_open_go_parent(&mut self)
        ensures
            went_to_parent(*old(self), *final(self)),
    {
        let parent = match &self.file_open_state {
            Option::Some(s) => crate::path_util::parent_of(s.current_dir.as_str()),
            Option::None => {
                return ;
            },
        };
        match parent {
            Option::Some(parent_path) => {
                self.file_open_navigate_to(parent_path);
            },
            Option::None => {},
        }
    }

    /// Push the prompt's text into the dialog as its filter.
    pub fn update_file_open_filter(&mut self)
        ensures
            !spec_file_open_active(*old(self)) ==> *final(self) == *old(self),
            spec_file_open_active(*old(self)) ==> {
                &&& *final(self) == (Editor {
                    file_open_state: final(self).file_open_state,
                    ..*old(self)
                })
                &&& match (old(self).file_open_state, final(self).file_open_state) {
                    (Option::Some(s), Option::Some(s2)) => crate::file_open::filter_applied(
                        s,
                        s2,
                        match old(self).prompt {
                            Option::Some(p) => p.input@,
                            Option::None => Seq::empty(),
                        },
                    ),
                    _ => false,
                }
            },
    {
        if !self.is_file_open_active() {
            return ;
        }
        let filter = match &self.prompt {
            Option::Some(p) => p.input.clone(),
            Option::None => String::new(),
        };
        let mut taken: Option<FileOpenState> = Option::None;
        core::mem::swap(&mut taken, &mut self.file_open_state);
        match taken {
            Option::Some(mut s) => {
                s.apply_filter(filter.as_str());
                self.file_open_state = Option::Some(s);
            },
            Option::None => {},
        }
    }

    /// Choose the dialog's sort mode, flipping the direction when the mode
    /// is already chosen.
    pub fn file_open_toggle_sort(&mut self, mode: SortMode)
        ensures
            *final(self) == (Editor { file_open_state: final(self).file_open_state, ..*old(self) }),
            match (old(self).file_open_state, final(self).file_open_state) {
                (Option::Some(s), Option::Some(s2)) => crate::file_open::sort_mode_set(s, s2, mode),
                (Option::None, Option::None) => true,
                _ => false,
            },
    {
        let mut taken: Option<FileOpenState> = Option::None;
        core::mem::swap(&mut taken, &mut self.file_open_state);
        match taken {
            Option::Some(mut s) => {
                s.set_sort_mode(mode);
                self.file_open_state = Option::Some(s);
            },
            Option::None => {},
        }
    }

    /// Flip whether the dialog shows hidden files and reload the listing
    /// so the change takes effect.
    pub fn file_open_toggle_hidden(&mut self)
        ensures
            *final(self) == (Editor {
                file_open_state: final(self).file_open_state,
                effects: final(self).effects,
                ..*old(self)
            }),
            match (old(self).file_open_state, final(self).file_open_state) {
                (Option::Some(s), Option::Some(s2)) => {
                    &&& s2 == (FileOpenState {
                        show_hidden: !s.show_hidden,
                        loading: true,
                        ..s
                    })
                    &&& final(self).effects@.len() == old(self).effects@.len() + 1
                    &&& (forall|k: int|
                        0 <= k < old(self).effects@.len() ==> final(self).effects@[k] == old(
                            self,
                        ).effects@[k])
                    &&& (final(self).effects@.last() matches EditorEffect::LoadDirectory(d) && d@
                        == s.current_dir@)
                },
                (Option::None, Option::None) => final(self).effects == old(self).effects,
                _ => false,
            },
    {
        let mut taken: Option<FileOpenState> = Option::None;
        core::mem::swap(&mut taken, &mut self.file_open_state);
        match taken {
            Option::Some(mut s) => {
                s.show_hidden = !s.show_hidden;
                let current_dir = s.current_dir.clone();
                self.file_open_state = Option::Some(s);
                self.load_file_open_directory(current_dir);
            },
            Option::None => {},
        }
    }
}


/// How a click in the file browser changes the editor and whether it is
/// claimed: a click in the list selects the row under it, one in the
/// navigation area focuses the shortcuts, one on a header column re-sorts
/// by it, and one on the scrollbar is absorbed.
pub open spec fn file_open_click_step(
    pre: Editor,
    post: Editor,
    x: u16,
    y: u16,
    handled: bool,
) -> bool {
    if !spec_file_open_active(pre) {
        post == pre && !handled
    } else {
        match pre.file_browser_layout {
            Option::None => post == pre && !handled,
            Option::Some(l) => {
                if l.list.spec_contains(x, y) {
                    handled && match pre.file_open_state {
                        Option::Some(s) => {
                            if y >= l.list.y && s.scroll_offset + (y - l.list.y) <= usize::MAX {
                                let idx = s.scroll_offset + (y - l.list.y);
                                only_fos_changed_to(
                                    pre,
                                    post,
                                    FileOpenState {
                                        active_section: crate::file_open::FileOpenSection::Files,
                                        selected_index: (if idx < s.entries@.len() {
                                            idx
                                        } else {
                                            s.selected_index as int
                                        }) as usize,
                                        ..s
                                    },
                                )
                            } else {
                                post == pre
                            }
                        },
                        Option::None => false,
                    }
                } else if l.nav.spec_contains(x, y) {
                    handled && match pre.file_open_state {
                        Option::Some(s) => only_fos_changed_to(
                            pre,
                            post,
                            FileOpenState {
                                active_section: crate::file_open::FileOpenSection::Navigation,
                                ..s
                            },
                        ),
                        Option::None => false,
                    }
                } else if l.header.spec_contains(x, y) {
                    handled && match spec_header_column_at(l.header_columns@, x, 0) {
                        Option::Some(mode) => match (pre.file_open_state, post.file_open_state) {
                            (Option::Some(s), Option::Some(s2)) => post == (Editor {
                                file_open_state: post.file_open_state,
                                ..pre
                            }) && crate::file_open::sort_mode_set(s, s2, mode),
                            _ => false,
                        },
                        Option::None => post == pre,
                    }
                } else if l.scrollbar.spec_contains(x, y) {
                    handled && post == pre
                } else {
                    !handled && post == pre
                }
            },
        }
    }
}

impl Editor {
    /// Handle a mouse click while the file browser is up.
    pub fn handle_file_open_click(&mut self, x: u16, y: u16) -> (handled: bool)
        ensures
            file_open_click_step(*old(self), *final(self), x, y, handled),
    {
        if !self.is_file_open_active() {
            return false;
        }
        let layout = match &self.file_browser_layout {
            Option::Some(l) => l.clone(),
            Option::None => {
                return false;
            },
        };

        // A click in the file list selects the row under it.
        if layout.is_in_list(x, y) {
            let scroll_offset = match &self.file_open_state {
                Option::Some(s) => s.scroll_offset,
                Option::None => 0,
            };
            match layout.click_to_index(y, scroll_offset) {
                Option::Some(index) => {
                    let mut taken: Option<FileOpenState> = Option::None;
                    core::mem::swap(&mut taken, &mut self.file_open_state);
                    match taken {
                        Option::Some(mut s) => {
                            s.active_section = crate::file_open::FileOpenSection::Files;
                            if index < s.entries.len() {
                                s.selected_index = index;
                            }
                            self.file_open_state = Option::Some(s);
                        },
                        Option::None => {},
                    }
                },
                Option::None => {},
            }
            return true;
        }

        // A click in the navigation area focuses the shortcuts.
        if layout.is_in_nav(x, y) {
            let mut taken: Option<FileOpenState> = Option::None;
            core::mem::swap(&mut taken, &mut self.file_open_state);
            match taken {
                Option::Some(mut s) => {
                    s.active_section = crate::file_open::FileOpenSection::Navigation;
                    self.file_open_state = Option::Some(s);
                },
                Option::None => {},
            }
            return true;
        }

        // A click on a header column re-sorts by it.
        if layout.is_in_header(x, y) {
            match layout.header_column_at(x) {
                Option::Some(mode) => {
                    self.file_open_toggle_sort(mode);
                },
                Option::None => {},
            }
            return true;
        }

        // A click on the scrollbar is absorbed.
        if layout.is_in_scrollbar(x, y) {
            return true;
        }
        false
    }

    /// Handle a double click while the file browser is up: one in the file
    /// list confirms the selection.
    pub fn handle_file_open_double_click(&mut self, x: u16, y: u16) -> (handled: bool)
        ensures
            !spec_file_open_active(*old(self)) ==> !handled && *final(self) == *old(self),
            spec_file_open_active(*old(self)) ==> match old(self).file_browser_layout {
                Option::None => !handled && *final(self) == *old(self),
                Option::Some(l) => {
                    if l.list.spec_contains(x, y) {
                        handled && file_open_confirmed(*old(self), *final(self))
                    } else {
                        !handled && *final(self) == *old(self)
                    }
                },
            },
    {
        if !self.is_file_open_active() {
            return false;
        }
        let layout = match &self.file_browser_layout {
            Option::Some(l) => l.clone(),
            Option::None => {
                return false;
            },
        };
        if layout.is_in_list(x, y) {
            self.file_open_confirm();
            return true;
        }
        false
    }
}

/// How a go-to-line request resolves: where in the document the jump lands
/// and how the shell should find the exact byte.
#[derive(Debug, Clone, Copy, PartialEq, Eq, Structural)]
pub enum GotoTarget {
    /// Large-file mode: scan forward from this estimated byte offset to
    /// the actual line start.
    ScanFrom(usize),
    /// Exact mode: take the byte where this line starts.
    LineStart(usize),
}

/// A resolved go-to-line request: how to find the byte, and the message to
/// show once the jump lands.
#[derive(Debug)]
pub struct GotoLineResolve {
    /// How the shell finds the target byte.
    pub target: GotoTarget,
    /// The status message for the jump.
    pub message: String,
}

/// The 1-based line number a go-to-line input names, when it parses.
pub open spec fn spec_goto_input(input: Seq<char>) -> Option<int> {
    crate::text::spec_parse_usize(crate::text::spec_trim(input))
}

impl Editor {
    /// Resolve a go-to-line request over the buffer's facts: its exact
    /// line count when tracked (`None` means large-file mode), its byte
    /// length, and the estimated line length used for large files. A bad
    /// input puts a message on the status line and resolves to nothing; in
    /// large-file mode the target line is estimated and the shell scans
    /// forward from the estimate; in exact mode the line is clamped into
    /// the document.
    pub fn handle_goto_line(
        &mut self,
        input: &str,
        line_count: Option<usize>,
        buffer_len: usize,
        estimated_line_length: usize,
    ) -> (r: Option<GotoLineResolve>)
        ensures
            match spec_goto_input(input@) {
                Option::None => {
                    &&& r is None
                    &&& *final(self) == (Editor {
                        status_message: final(self).status_message,
                        ..*old(self)
                    })
                    &&& (final(self).status_message matches Some(m) && m@ == "Invalid line number: "@
                        + input@)
                },
                Option::Some(n) => {
                    if n == 0 {
                        &&& r is None
                        &&& *final(self) == (Editor {
                            status_message: final(self).status_message,
                            ..*old(self)
                        })
                        &&& (final(self).status_message matches Some(m) && m@
                            == "Line number must be positive"@)
                    } else {
                        &&& *final(self) == *old(self)
                        &&& r matches Some(resolve)
                        &&& match line_count {
                            Option::None => {
                                let est = (n - 1) * estimated_line_length;
                                let clamped = if est > buffer_len {
                                    buffer_len as int
                                } else {
                                    est
                                };
                                &&& resolve.target == GotoTarget::ScanFrom(clamped as usize)
                                &&& resolve.message@ == "Jumped to estimated line "@ + dec_str(n)
                                    + " (large file mode)"@
                            },
                            Option::Some(lc) => {
                                let max_line = if lc == 0 {
                                    0int
                                } else {
                                    lc - 1
                                };
                                let actual = if n - 1 > max_line {
                                    max_line
                                } else {
                                    n - 1
                                };
                                &&& resolve.target == GotoTarget::LineStart(actual as usize)
                                &&& (n - 1 > max_line ==> resolve.message@ == "Line "@ + dec_str(n)
                                    + " doesn't exist, jumped to line "@ + dec_str(actual + 1))
                                &&& (n - 1 <= max_line ==> resolve.message@ == "Jumped to line "@
                                    + dec_str(n))
                            },
                        }
                    }
                },
            },
    {
        let trimmed = crate::text::trim_spaces(input);
        let parsed = crate::text::parse_usize_chars(trimmed);
        let line_num = match parsed {
            Option::Some(n) => n,
            Option::None => {
                let mut msg = String::from_str("Invalid line number: ");
                msg.append(input);
                self.set_status_message(msg);
                return Option::None;
            },
        };
        if line_num == 0 {
            self.set_status_message(String::from_str("Line number must be positive"));
            return Option::None;
        }
        let target_line = line_num - 1;
        match line_count {
            Option::None => {
                // Large file: estimate the byte offset and let the shell
                // scan forward from it to the actual line start.
                let estimated_offset = match target_line.checked_mul(estimated_line_length) {
                    Option::Some(v) => v,
                    Option::None => usize::MAX,
                };
                let clamped_offset = if estimated_offset > buffer_len {
                    buffer_len
                } else {
                    estimated_offset
                };
                let mut msg = String::from_str("Jumped to estimated line ");
                msg.append(u64_to_decimal(line_num as u64).as_str());
                msg.append(" (large file mode)");
                proof {
                    assert(line_num as u64 as int == line_num as int);
                }
                Option::Some(
                    GotoLineResolve { target: GotoTarget::ScanFrom(clamped_offset), message: msg },
                )
            },
            Option::Some(lc) => {
                // Exact mode: clamp the target line into the document.
                let max_line = if lc == 0 {
                    0
                } else {
                    lc - 1
                };
                let actual_line = if target_line > max_line {
                    max_line
                } else {
                    target_line
                };
                let mut msg = if target_line > max_line {
                    let mut m = String::from_str("Line ");
                    m.append(u64_to_decimal(line_num as u64).as_str());
                    m.append(" doesn't exist, jumped to line ");
                    m.append(u64_to_decimal((actual_line as u64) + 1).as_str());
                    m
                } else {
                    let mut m = String::from_str("Jumped to line ");
                    m.append(u64_to_decimal(line_num as u64).as_str());
                    m
                };
                proof {
                    assert(line_num as u64 as int == line_num as int);
                    assert((actual_line as u64 + 1) as int == actual_line as int + 1);
                }
                Option::Some(
                    GotoLineResolve { target: GotoTarget::LineStart(actual_line), message: msg },
                )
            },
        }
    }

    /// Land a resolved go-to-line jump: the byte maps to a view position,
    /// the cursor event goes to the log and the shell, the spot is
    /// recorded in position history, and the message reaches the status
    /// line.
    pub fn finish_goto_line(&mut self, layout: &Layout, source_byte: usize, message: String)
        ensures
            ({
                let view_pos = ViewPosition {
                    view_line: Some(
                        (match layout.spec_byte_to_view(source_byte) {
                            Option::Some((l, _)) => l,
                            Option::None => 0,
                        }) as usize,
                    ),
                    column: Some(
                        (match layout.spec_byte_to_view(source_byte) {
                            Option::Some((_, c)) => c,
                            Option::None => 0,
                        }) as usize,
                    ),
                    source_byte: Some(source_byte),
                };
                let ev = Event::MoveCursor {
                    cursor_id: old(self).primary_cursor_id,
                    old_position: old(self).cursor,
                    new_position: view_pos,
                    old_anchor: old(self).cursor_anchor,
                    new_anchor: Option::None,
                    old_sticky_column: old(self).sticky_column,
                    new_sticky_column: view_pos.column,
                };
                &&& *final(self) == (Editor {
                    event_log: final(self).event_log,
                    effects: final(self).effects,
                    cursor: view_pos,
                    cursor_anchor: Option::<ViewPosition>::None,
                    sticky_column: view_pos.column,
                    position_history: final(self).position_history,
                    status_message: Option::Some(message),
                    ..*old(self)
                })
                &&& final(self).event_log@ == old(self).event_log@.push(ev)
                &&& final(self).effects@ == old(self).effects@.push(
                    EditorEffect::ApplyToBuffer(ev),
                )
                &&& final(self).position_history.entries@ == old(
                    self,
                ).position_history.entries@.push(
                    PositionEntry {
                        buffer_id: old(self).active_buffer,
                        position: view_pos,
                        anchor: Option::None,
                    },
                )
            }),
    {
        let view_pos = source_to_view_pos(layout, source_byte, Option::None);
        let ev = Event::MoveCursor {
            cursor_id: self.primary_cursor_id,
            old_position: self.cursor,
            new_position: view_pos,
            old_anchor: self.cursor_anchor,
            new_anchor: Option::None,
            old_sticky_column: self.sticky_column,
            new_sticky_column: view_pos.column,
        };
        self.event_log.push(ev);
        self.effects.push(EditorEffect::ApplyToBuffer(ev));
        self.cursor = view_pos;
        self.cursor_anchor = Option::None;
        self.sticky_column = view_pos.column;
        let buffer_id = self.active_buffer;
        self.position_history.record_movement(buffer_id, view_pos, Option::None);
        self.set_status_message(message);
    }
}

} // verus!
