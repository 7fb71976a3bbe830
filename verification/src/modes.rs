//! Modes: which key bindings apply, leaving a mode, confirming and
//! cancelling dialogs, and pending navigation.

use vstd::prelude::*;
use crate::app::{
    App, AppMode, DocSearch, Edits, FilePicker, Layout, LinkPicker, OutlineSearch, PendingNavigation,
    document_wf, string_from,
};
use crate::interactive::{DetailMode, ElementState, ElementType, InteractiveState, table_status_spec};
use crate::text::{str_eq, decimal};
use vstd::string::StringSliceAdditionalSpecFns;

verus! {

broadcast use vstd::string::group_string_axioms;

/// Which set of key bindings applies.
#[derive(Debug, Clone, Copy, PartialEq, Eq, Structural)]
pub enum KeybindingMode {
    Normal,
    Interactive,
    InteractiveTable,
    LinkFollow,
    LinkSearch,
    Search,
    DocSearch,
    CommandPalette,
    CellEdit,
    ThemePicker,
    Help,
    ConfirmDialog,
    FilePicker,
    FileSearch,
}

/// The key bindings for a state: help and the theme picker first, then by mode.
pub open spec fn keybinding_mode_spec(app: App) -> KeybindingMode {
    if app.layout.show_help {
        KeybindingMode::Help
    } else if app.themes.show_theme_picker {
        KeybindingMode::ThemePicker
    } else {
        match app.mode {
            AppMode::Normal => if app.outline_search.show_search && app.outline_search.outline_search_active {
                KeybindingMode::Search
            } else {
                KeybindingMode::Normal
            },
            AppMode::Interactive => if app.interactive_state.detail_mode matches Some(DetailMode::Table { .. }) {
                KeybindingMode::InteractiveTable
            } else {
                KeybindingMode::Interactive
            },
            AppMode::LinkFollow => if app.links.link_search_active { KeybindingMode::LinkSearch } else { KeybindingMode::LinkFollow },
            AppMode::Search => KeybindingMode::Search,
            AppMode::ThemePicker => KeybindingMode::ThemePicker,
            AppMode::Help => KeybindingMode::Help,
            AppMode::CellEdit => KeybindingMode::CellEdit,
            AppMode::ConfirmFileCreate | AppMode::ConfirmSaveWidth | AppMode::ConfirmSaveBeforeQuit
                | AppMode::ConfirmSaveBeforeNav => KeybindingMode::ConfirmDialog,
            AppMode::DocSearch => KeybindingMode::DocSearch,
            AppMode::CommandPalette => KeybindingMode::CommandPalette,
            AppMode::FilePicker => if app.files.file_search_active { KeybindingMode::FileSearch } else { KeybindingMode::FilePicker },
            AppMode::FileSearch => KeybindingMode::FileSearch,
        }
    }
}

/// The rows and columns of the current element when it is a table, else (0, 0).
pub open spec fn table_dims(s: InteractiveState) -> (usize, usize) {
    match s.current_index {
        Some(i) => if i < s.elements@.len() {
            match s.elements@[i as int].element_type {
                ElementType::Table { rows, cols, .. } => (rows, cols),
                _ => (0, 0),
            }
        } else {
            (0, 0)
        },
        None => (0, 0),
    }
}

/// The table cursor one column to the left (it stays in the first column).
pub open spec fn cursor_left(cursor: Option<(usize, usize)>) -> Option<(usize, usize)> {
    match cursor {
        Some((r, c)) => Some(if c > 0 { (r, (c - 1) as usize) } else { (r, c) }),
        None => None,
    }
}

/// The table cursor one column to the right, within `cols` columns.
pub open spec fn cursor_right(cursor: Option<(usize, usize)>, cols: usize) -> Option<(usize, usize)> {
    match cursor {
        Some((r, c)) => Some(if c + 1 < cols { (r, (c + 1) as usize) } else { (r, c) }),
        None => None,
    }
}

/// `new` is `old` with the table cursor moved to `cursor`: the same
/// elements, selection and mode, and the table's state entry updated when
/// the cursor moved.
pub open spec fn table_cursor_moved(old: InteractiveState, new: InteractiveState, cursor: Option<(usize, usize)>) -> bool {
    &&& new.elements == old.elements
    &&& new.current_index == old.current_index
    &&& new.detail_mode == old.detail_mode
    &&& new.table_cursor() == cursor
    &&& new.states() == (match cursor {
        Some((r, c)) => if cursor == old.table_cursor() {
            old.states()
        } else {
            old.states().insert(old.table_id(), ElementState::Table { selected_row: r, selected_col: c })
        },
        None => old.states(),
    })
}

/// The hint shown when Esc is pressed with nothing to leave.
pub open spec fn quit_hint() -> Seq<char> {
    "Press q to quit • : for commands • ? for help"@
}

impl App {
    /// Get the current keybinding mode based on app state.
    pub fn current_keybinding_mode(&self) -> (m: KeybindingMode)
        ensures
            m == keybinding_mode_spec(*self),
    {
        if self.layout.show_help {
            return KeybindingMode::Help;
        }
        if self.themes.show_theme_picker {
            return KeybindingMode::ThemePicker;
        }
        match self.mode {
            AppMode::Normal => {
                if self.outline_search.show_search && self.outline_search.outline_search_active {
                    KeybindingMode::Search
                } else {
                    KeybindingMode::Normal
                }
            },
            AppMode::Interactive => {
                if self.interactive_state.is_in_table_mode() {
                    KeybindingMode::InteractiveTable
                } else {
                    KeybindingMode::Interactive
                }
            },
            AppMode::LinkFollow => {
                if self.links.link_search_active { KeybindingMode::LinkSearch } else { KeybindingMode::LinkFollow }
            },
            AppMode::Search => KeybindingMode::Search,
            AppMode::ThemePicker => KeybindingMode::ThemePicker,
            AppMode::Help => KeybindingMode::Help,
            AppMode::CellEdit => KeybindingMode::CellEdit,
            AppMode::ConfirmFileCreate | AppMode::ConfirmSaveWidth | AppMode::ConfirmSaveBeforeQuit
                | AppMode::ConfirmSaveBeforeNav => KeybindingMode::ConfirmDialog,
            AppMode::DocSearch => KeybindingMode::DocSearch,
            AppMode::CommandPalette => KeybindingMode::CommandPalette,
            AppMode::FilePicker => {
                if self.files.file_search_active { KeybindingMode::FileSearch } else { KeybindingMode::FilePicker }
            },
            AppMode::FileSearch => KeybindingMode::FileSearch,
        }
    }

    /// Rows and columns of the current table element ((0, 0) otherwise).
    pub fn get_table_dimensions(&self) -> (d: (usize, usize))
        ensures
            d == table_dims(self.interactive_state),
    {
        if let Some(element) = self.interactive_state.current_element() {
            if let ElementType::Table { rows, cols, .. } = &element.element_type {
                return (*rows, *cols);
            }
        }
        (0, 0)
    }

    /// Set the content viewport height (at least 1).
    pub fn set_viewport_height(&mut self, height: u16)
        ensures
            *final(self) == (App {
                layout: Layout { content_viewport_height: if height >= 1 { height } else { 1 }, ..old(self).layout },
                ..*old(self)
            }),
    {
        self.layout.content_viewport_height = if height >= 1 { height } else { 1 };
    }

    /// What [`App::exit_interactive_mode`] does: `post` is `pre` after it.
    pub open spec fn exit_interactive_mode_effect(pre: App, post: App) -> bool {
        &&& post.mode == AppMode::Normal
        &&& post.status_message is None
        &&& post.interactive_state.current_index is None
        &&& post.interactive_state.detail_mode is None
        &&& post.interactive_state.elements == pre.interactive_state.elements
        &&& post.interactive_state.element_states == pre.interactive_state.element_states
        &&& post == (App {
        interactive_state: post.interactive_state,
        mode: AppMode::Normal,
        status_message: None,
        ..pre
    })
    }

    /// Leave interactive mode for normal mode, clearing the status line.
    pub fn exit_interactive_mode(&mut self)
        ensures
            Self::exit_interactive_mode_effect(*old(self), *final(self)),
    {
        self.interactive_state.exit();
        self.mode = AppMode::Normal;
        self.status_message = None;
    }

    /// Move the table cursor left and report the cell (table mode only).
    pub fn table_navigate_left(&mut self)
        requires
            old(self).interactive_state.table_cursor() matches Some((r, c)) ==> r < usize::MAX && c < usize::MAX,
        ensures
            !(old(self).interactive_state.detail_mode matches Some(DetailMode::Table { .. })) || table_dims(old(self).interactive_state).1 == 0
                ==> *final(self) == *old(self),
            (old(self).interactive_state.detail_mode matches Some(DetailMode::Table { .. })) && table_dims(old(self).interactive_state).1 > 0
                ==> {
                    let cursor = cursor_left(old(self).interactive_state.table_cursor());
                    &&& table_cursor_moved(old(self).interactive_state, final(self).interactive_state, cursor)
                    &&& final(self).status_message matches Some(m) && m@ == table_status_spec(cursor)
                },
            final(self).interactive_state.table_cursor() matches Some((r, c)) ==> r < usize::MAX && c < usize::MAX,
            *final(self) == (App {
                interactive_state: final(self).interactive_state,
                status_message: final(self).status_message,
                ..*old(self)
            }),
    {
        if !self.interactive_state.is_in_table_mode() {
            return;
        }
        let (rows, cols) = self.get_table_dimensions();
        if cols > 0 {
            self.interactive_state.table_move_left();
            self.status_message = Some(self.interactive_state.table_status_text(rows, cols));
        }
    }
}

/// Outside work a step leaves to the program driving the state: reading
/// the section's content or links, the clipboard, the configuration, the
/// file system or the terminal. The driver does it and calls back.
#[derive(Debug, Clone)]
pub enum Task {
    /// Index the section's elements and enter interactive mode.
    EnterInteractiveMode,
    /// Extract the section's links and enter link follow mode.
    EnterLinkFollowMode,
    /// Switch between outline and document search over the section's text.
    ToggleSearchMode,
    /// Follow the selected link.
    FollowLink,
    /// Open the file selected in the picker.
    SelectFile,
    /// Activate the selected interactive element.
    ActivateElement,
    /// Start editing the selected table cell.
    EditCell,
    /// Save the chosen theme to the configuration.
    SaveTheme,
    /// Copy the selected section.
    CopyContent,
    /// Copy the selected heading's anchor link.
    CopyAnchor,
    /// Scan the directory and open the file picker.
    OpenFilePicker,
    /// Create the file awaiting confirmation.
    CreateFile,
    /// Save the outline width to the configuration (then report with
    /// [`App::confirm_save_outline_width`]).
    SaveWidth,
    /// Save the pending edits, then quit.
    SaveAndQuit,
    /// Save the pending edits, then carry out the pending navigation.
    SaveAndNavigate,
    /// Save the pending edits (then report with [`App::finish_save_pending_edits`]).
    SaveFile,
    /// Buffer the edited cell (it needs the table's index in the file).
    SaveCell,
    /// Load a file (path relative to the current file, optional anchor).
    LoadFile(String, Option<String>),
    /// Search the section's text again after the query changed (then
    /// look for a link under the current match, as for
    /// [`Task::DetectSearchLink`]).
    UpdateDocSearch,
    /// Look for a link of the section under the current match
    /// ([`App::detect_link_at_search_match`]).
    DetectSearchLink,
    /// Jump to the parent heading's links.
    ParentLinks,
    /// Write the new outline width to the configuration, quietly.
    PersistWidth,
    /// Re-read the selected section: its height, and its elements when the
    /// selection changed.
    UpdateContentMetrics,
}

impl App {
    /// Move the table cursor right and report the cell (table mode only).
    pub fn table_navigate_right(&mut self)
        requires
            old(self).interactive_state.table_cursor() matches Some((r, c)) ==> r < usize::MAX && c < usize::MAX,
        ensures
            !(old(self).interactive_state.detail_mode matches Some(DetailMode::Table { .. })) || table_dims(old(self).interactive_state).1 == 0
                ==> *final(self) == *old(self),
            (old(self).interactive_state.detail_mode matches Some(DetailMode::Table { .. })) && table_dims(old(self).interactive_state).1 > 0
                ==> {
                    let cursor = cursor_right(old(self).interactive_state.table_cursor(), table_dims(old(self).interactive_state).1);
                    &&& table_cursor_moved(old(self).interactive_state, final(self).interactive_state, cursor)
                    &&& final(self).status_message matches Some(m) && m@ == table_status_spec(cursor)
                },
            final(self).interactive_state.table_cursor() matches Some((r, c)) ==> r < usize::MAX && c < usize::MAX,
            *final(self) == (App {
                interactive_state: final(self).interactive_state,
                status_message: final(self).status_message,
                ..*old(self)
            }),
    {
        if !self.interactive_state.is_in_table_mode() {
            return;
        }
        let (rows, cols) = self.get_table_dimensions();
        if cols > 0 {
            self.interactive_state.table_move_right(cols);
            self.status_message = Some(self.interactive_state.table_status_text(rows, cols));
        }
    }

    /// Cancel the file creation and go back to normal mode.
    pub fn cancel_file_create(&mut self)
        ensures
            final(self).pending_file_create is None,
            final(self).pending_file_create_message is None,
            final(self).mode == AppMode::Normal,
            final(self).status_message matches Some(m) && m@ == "File creation cancelled"@,
            *final(self) == (App {
                pending_file_create: None,
                pending_file_create_message: None,
                mode: AppMode::Normal,
                status_message: final(self).status_message,
                ..*old(self)
            }),
    {
        self.pending_file_create = None;
        self.pending_file_create_message = None;
        self.mode = AppMode::Normal;
        self.status_message = Some(string_from("File creation cancelled"));
    }

    /// Discard the pending edits and quit (from a save prompt).
    pub fn handle_discard_and_quit(&mut self) -> (r: Option<crate::app::ActionResult>)
        ensures
            (old(self).mode == AppMode::ConfirmSaveBeforeQuit || old(self).mode == AppMode::ConfirmSaveBeforeNav) ==> {
                &&& r matches Some(crate::app::ActionResult::Quit)
                &&& final(self).edits.pending_edits@.len() == 0
                &&& !final(self).edits.has_unsaved_changes
                &&& (old(self).mode == AppMode::ConfirmSaveBeforeNav ==> final(self).pending_navigation is None)
            },
            !(old(self).mode == AppMode::ConfirmSaveBeforeQuit || old(self).mode == AppMode::ConfirmSaveBeforeNav) ==> {
                &&& r is None
                &&& *final(self) == *old(self)
            },
            *final(self) == (App {
                edits: Edits { pending_edits: final(self).edits.pending_edits, has_unsaved_changes: final(self).edits.has_unsaved_changes, ..old(self).edits },
                pending_navigation: final(self).pending_navigation,
                ..*old(self)
            }),
    {
        match self.mode {
            AppMode::ConfirmSaveBeforeQuit => {
                self.edits.pending_edits = Vec::new();
                self.edits.has_unsaved_changes = false;
                Some(crate::app::ActionResult::Quit)
            },
            AppMode::ConfirmSaveBeforeNav => {
                self.edits.pending_edits = Vec::new();
                self.edits.has_unsaved_changes = false;
                self.pending_navigation = None;
                Some(crate::app::ActionResult::Quit)
            },
            _ => None,
        }
    }

    /// Carry out the pending navigation (back to normal mode first):
    /// back and forward here, a file load is left to the caller.
    pub fn execute_pending_navigation(&mut self) -> (t: Option<Task>)
        requires
            old(self).wf(),
            old(self).history.file_history@.len() > 0 ==> document_wf(old(self).history.file_history@.last().document),
            old(self).history.file_future@.len() > 0 ==> document_wf(old(self).history.file_future@.last().document),
        ensures
            final(self).wf(),
            final(self).pending_navigation is None,
            final(self).edits == old(self).edits,
            match old(self).pending_navigation {
                Some(PendingNavigation::LoadFile(p, a)) => t matches Some(Task::LoadFile(p2, a2)) && p2 == p && a2 == a,
                _ => t is None,
            },
            match old(self).pending_navigation {
                Some(PendingNavigation::Back) => old(self).history.file_history@.len() > 0
                    ==> crate::history::went_back(*old(self), *final(self)),
                Some(PendingNavigation::Forward) => old(self).history.file_future@.len() > 0
                    ==> crate::history::went_forward(*old(self), *final(self)),
                _ => final(self).mode == AppMode::Normal,
            },
    {
        let mut nav: Option<PendingNavigation> = None;
        std::mem::swap(&mut nav, &mut self.pending_navigation);
        self.mode = AppMode::Normal;
        match nav {
            Some(PendingNavigation::Back) => {
                let _ = self.go_back();
                None
            },
            Some(PendingNavigation::Forward) => {
                let _ = self.go_forward();
                None
            },
            Some(PendingNavigation::LoadFile(path, anchor)) => Some(Task::LoadFile(path, anchor)),
            None => None,
        }
    }

    /// Discard the pending edits and carry out the pending navigation
    /// (from the save-before-navigating prompt).
    pub fn handle_discard_and_continue(&mut self) -> (t: Option<Task>)
        requires
            old(self).wf(),
            old(self).history.file_history@.len() > 0 ==> document_wf(old(self).history.file_history@.last().document),
            old(self).history.file_future@.len() > 0 ==> document_wf(old(self).history.file_future@.last().document),
        ensures
            final(self).wf(),
            old(self).mode == AppMode::ConfirmSaveBeforeNav ==> {
                &&& final(self).pending_navigation is None
                &&& final(self).edits.pending_edits@.len() == 0
                &&& !final(self).edits.has_unsaved_changes
                &&& match old(self).pending_navigation {
                    Some(PendingNavigation::LoadFile(p, a)) => t matches Some(Task::LoadFile(p2, a2)) && p2 == p && a2 == a,
                    _ => t is None,
                }
            },
            old(self).mode != AppMode::ConfirmSaveBeforeNav ==> t is None && *final(self) == *old(self),
    {
        if self.mode == AppMode::ConfirmSaveBeforeNav {
            self.edits.pending_edits = Vec::new();
            self.edits.has_unsaved_changes = false;
            self.execute_pending_navigation()
        } else {
            None
        }
    }

    /// The 1-based source line of the selected heading: line 1 for the
    /// document overview, else the line at the heading's byte offset (the
    /// first heading with that text), counted by newlines before it.
    pub fn selected_heading_source_line(&self) -> (r: Option<u32>)
        requires
            match crate::outline::selected_text(self.outline.items@, self.outline.selected) {
                Some(t) => match first_heading_with_text(self.document.headings@, t, 0) {
                    Some(k) => vstd::utf8::is_char_boundary(
                        vstd::utf8::encode_utf8(self.document.content@),
                        clamped_offset(self.document.headings@[k].offset, self.document.content@),
                    ),
                    None => true,
                },
                None => true,
            },
        ensures
            match crate::outline::selected_text(self.outline.items@, self.outline.selected) {
                None => r is None,
                Some(t) => if t == crate::app::DOCUMENT_OVERVIEW@ {
                    r == Some(1u32)
                } else {
                    match first_heading_with_text(self.document.headings@, t, 0) {
                        None => r is None,
                        Some(k) => {
                            let bytes = vstd::utf8::encode_utf8(self.document.content@);
                            let off = if self.document.headings@[k].offset <= bytes.len() { self.document.headings@[k].offset as int } else { bytes.len() as int };
                            r == Some((crate::blocks::newline_count(vstd::utf8::decode_utf8(bytes.take(off))) + 1) as u32)
                        },
                    }
                },
            },
    {
        let selected_text = match self.selected_heading_text() {
            Some(t) => t,
            None => return None,
        };
        if str_eq(selected_text, crate::app::DOCUMENT_OVERVIEW) {
            return Some(1);
        }
        let mut k: usize = 0;
        while k < self.document.headings.len()
            invariant
                k <= self.document.headings@.len(),
                first_heading_with_text(self.document.headings@, selected_text@, 0)
                    == first_heading_with_text(self.document.headings@, selected_text@, k as int),
                crate::outline::selected_text(self.outline.items@, self.outline.selected) == Some(selected_text@),
                selected_text@ != crate::app::DOCUMENT_OVERVIEW@,
                match first_heading_with_text(self.document.headings@, selected_text@, 0) {
                    Some(j) => vstd::utf8::is_char_boundary(
                        vstd::utf8::encode_utf8(self.document.content@),
                        clamped_offset(self.document.headings@[j].offset, self.document.content@),
                    ),
                    None => true,
                },
            decreases self.document.headings@.len() - k,
        {
            if str_eq(self.document.headings[k].text.as_str(), selected_text) {
                let content = self.document.content.as_str();
                let len = content.as_bytes().len();
                let offset = if self.document.headings[k].offset <= len { self.document.headings[k].offset } else { len };
                let (before, _) = content.split_at(offset);
                proof {
                    vstd::utf8::encode_utf8_decode_utf8(before@);
                    assert(before.spec_bytes() =~= vstd::utf8::encode_utf8(self.document.content@).take(offset as int));
                }
                let n = crate::blocks::count_newlines(before);
                return Some((n as u128 + 1) as u32);
            }
            k += 1;
        }
        None
    }
}

/// A byte offset kept within the text.
pub open spec fn clamped_offset(offset: usize, content: Seq<char>) -> int {
    let n = vstd::utf8::encode_utf8(content).len();
    if offset <= n { offset as int } else { n as int }
}

/// The first heading at or after `i` with text `t`.
pub open spec fn first_heading_with_text(hs: Seq<crate::app::Heading>, t: Seq<char>, i: int) -> Option<int>
    decreases hs.len() - i,
{
    if i < 0 || i >= hs.len() {
        None
    } else if hs[i].text@ == t {
        Some(i)
    } else {
        first_heading_with_text(hs, t, i + 1)
    }
}

} // verus!
