//! Executing key actions: each action either changes the state here or
//! leaves a [`Task`] to the program that drives the state.

use vstd::prelude::*;
use crate::app::{ActionResult, App, AppMode, Edits, FilePicker, LinkPicker, OutlineSearch, document_wf, string_from};
use crate::commands::{CommandEffect, command_effect};
use crate::interactive::{DetailMode, InteractiveState, table_status_spec};
use crate::modes::{Task, clamped_offset, first_heading_with_text, quit_hint, table_dims};
use crate::outline::selected_text;

verus! {

broadcast use vstd::string::group_string_axioms;

/// The actions keys are bound to.
#[derive(Debug, Clone, Copy, PartialEq, Eq, Structural)]
pub enum Action {
    Quit,
    Next,
    Previous,
    First,
    Last,
    PageDown,
    PageUp,
    JumpToParent,
    Expand,
    Collapse,
    ToggleExpand,
    ToggleFocus,
    ToggleFocusBack,
    ToggleOutline,
    OutlineWidthIncrease,
    OutlineWidthDecrease,
    ToggleTodoFilter,
    SetBookmark,
    JumpToBookmark,
    EnterInteractiveMode,
    ExitInteractiveMode,
    EnterLinkFollowMode,
    EnterSearchMode,
    EnterDocSearch,
    ToggleSearchMode,
    ExitMode,
    OpenCommandPalette,
    NextLink,
    PreviousLink,
    FollowLink,
    LinkSearch,
    InteractiveNext,
    InteractivePrevious,
    InteractiveActivate,
    InteractiveNextLink,
    InteractivePreviousLink,
    InteractiveLeft,
    InteractiveRight,
    ToggleRawSource,
    ToggleHelp,
    ToggleThemePicker,
    ApplyTheme,
    CopyContent,
    CopyAnchor,
    GoBack,
    GoForward,
    OpenInEditor,
    UndoEdit,
    OpenFilePicker,
    ConfirmAction,
    CancelAction,
    DiscardAndQuit,
    DiscardAndContinue,
    /// Jump to outline row `n` (0-based).
    JumpToHeading(usize),
    /// Jump to link `n` (0-based).
    JumpToLink(usize),
    ScrollDown,
    ScrollUp,
    HelpScrollDown,
    HelpScrollUp,
    ThemePickerNext,
    ThemePickerPrevious,
    SearchBackspace,
    CommandPaletteNext,
    CommandPalettePrev,
    CommandPaletteAutocomplete,
    NextMatch,
    PrevMatch,
}

/// The table cursor stays below the largest index in each direction.
pub open spec fn cursor_bounded(s: InteractiveState) -> bool {
    s.table_cursor() matches Some((r, c)) ==> r < usize::MAX && c < usize::MAX
}

/// What an action needs so that it cannot fail on the state: the
/// invariant, the document's first heading on a character boundary (to
/// rebuild the outline), a restorable file at the top of each history
/// stack, a bounded table cursor, and the selected heading's offset on a
/// character boundary for the editor.
pub open spec fn action_ok(app: App, action: Action) -> bool {
    &&& app.ready()
    &&& app.history.file_history@.len() > 0 ==> document_wf(app.history.file_history@.last().document)
    &&& app.history.file_future@.len() > 0 ==> document_wf(app.history.file_future@.last().document)
    &&& cursor_bounded(app.interactive_state)
    &&& action == Action::OpenInEditor ==> match selected_text(app.outline.items@, app.outline.selected) {
        Some(t) => match first_heading_with_text(app.document.headings@, t, 0) {
            Some(k) => vstd::utf8::is_char_boundary(
                vstd::utf8::encode_utf8(app.document.content@),
                clamped_offset(app.document.headings@[k].offset, app.document.content@),
            ),
            None => true,
        },
        None => true,
    }
}

/// The row reached from row `r` after `n` steps down in a table whose
/// rows are `0..limit` (row 0 is the header): each step moves one row
/// down unless the last row is reached.
pub open spec fn rows_down(r: int, n: int, limit: int) -> int {
    if r + n < limit { r + n } else if r + 1 < limit { limit - 1 } else { r }
}

/// The row reached from row `r` after `n` steps up (stopping at the header).
pub open spec fn rows_up(r: int, n: int) -> int {
    if r >= n { r - n } else { 0 }
}

/// The rows of a table with `data_rows` data rows and its header row.
pub open spec fn table_row_limit(data_rows: usize) -> int {
    if data_rows < usize::MAX { data_rows + 1 } else { data_rows as int }
}

/// The count an action repeats by: the count prefix, else 1.
pub open spec fn count_of(app: App) -> int {
    match app.count_prefix { Some(c) => c as int, None => 1 }
}

/// The table cursor after `n` steps down (see [`rows_down`]).
pub open spec fn cursor_down(cursor: Option<(usize, usize)>, n: int, limit: int) -> Option<(usize, usize)> {
    match cursor {
        Some((r, c)) => Some((rows_down(r as int, n, limit) as usize, c)),
        None => None,
    }
}

/// The table cursor after `n` steps up (see [`rows_up`]).
pub open spec fn cursor_up(cursor: Option<(usize, usize)>, n: int) -> Option<(usize, usize)> {
    match cursor {
        Some((r, c)) => Some((rows_up(r as int, n) as usize, c)),
        None => None,
    }
}

/// The outside work an action leaves, given the state it starts from.
pub open spec fn action_task(app: App, action: Action) -> Option<Task> {
    match action {
        Action::EnterInteractiveMode => Some(Task::EnterInteractiveMode),
        Action::EnterLinkFollowMode => Some(Task::EnterLinkFollowMode),
        Action::ToggleSearchMode => Some(Task::ToggleSearchMode),
        Action::FollowLink => match app.mode {
            AppMode::LinkFollow => Some(Task::FollowLink),
            AppMode::FilePicker | AppMode::FileSearch => Some(Task::SelectFile),
            _ => None,
        },
        Action::InteractiveActivate => if app.interactive_state.detail_mode matches Some(DetailMode::Table { .. }) {
            Some(Task::EditCell)
        } else {
            Some(Task::ActivateElement)
        },
        Action::ApplyTheme => Some(Task::SaveTheme),
        Action::CopyContent => Some(Task::CopyContent),
        Action::CopyAnchor => Some(Task::CopyAnchor),
        Action::OpenFilePicker => Some(Task::OpenFilePicker),
        Action::OutlineWidthIncrease | Action::OutlineWidthDecrease =>
            if app.layout.config_has_custom_outline_width { None } else { Some(Task::PersistWidth) },
        Action::GoBack => if app.history.file_history@.len() > 0 && !app.edits.has_unsaved_changes {
            Some(Task::UpdateContentMetrics)
        } else {
            None
        },
        Action::GoForward => if app.history.file_future@.len() > 0 && !app.edits.has_unsaved_changes {
            Some(Task::UpdateContentMetrics)
        } else {
            None
        },
        Action::NextMatch | Action::PrevMatch => if !(app.outline_search.show_search
            && !app.outline_search.outline_search_active && app.outline.items@.len() > 0)
            && app.doc_search.doc_search_matches@.len() > 0 {
            Some(Task::DetectSearchLink)
        } else {
            None
        },
        Action::SearchBackspace => if !(app.outline_search.show_search && app.outline_search.outline_search_active)
            && app.mode == AppMode::DocSearch {
            Some(Task::UpdateDocSearch)
        } else {
            None
        },
        Action::ConfirmAction => if app.outline_search.show_search && app.outline_search.outline_search_active {
            None
        } else {
            match app.mode {
                AppMode::ConfirmFileCreate => Some(Task::CreateFile),
                AppMode::ConfirmSaveWidth => Some(Task::SaveWidth),
                AppMode::ConfirmSaveBeforeQuit => Some(Task::SaveAndQuit),
                AppMode::ConfirmSaveBeforeNav => Some(Task::SaveAndNavigate),
                AppMode::CellEdit => Some(Task::SaveCell),
                _ => None,
            }
        },
        _ => None,
    }
}

impl App {
    /// What [`App::exit_current_mode`] does: `post` is `pre` after it.
    pub open spec fn exit_current_mode_effect(pre: App, post: App) -> bool {
        &&& post.ready()
        &&& pre.outline_search.show_search ==> {
        &&& !post.outline_search.show_search
        &&& !post.outline_search.outline_search_active
        &&& post.outline_search.search_query@.len() == 0
        &&& post.mode == pre.mode
    }
        &&& !pre.outline_search.show_search ==> post.mode == (match pre.mode {
        AppMode::Interactive => if pre.interactive_state.detail_mode matches Some(DetailMode::Table { .. }) {
            AppMode::Interactive
        } else {
            AppMode::Normal
        },
        AppMode::LinkFollow => if pre.links.link_search_active || pre.links.link_search_query@.len() > 0 {
            AppMode::LinkFollow
        } else {
            AppMode::Normal
        },
        AppMode::DocSearch => if pre.doc_search.doc_search_from_interactive { AppMode::Interactive } else { AppMode::Normal },
        AppMode::CommandPalette => AppMode::Normal,
        AppMode::CellEdit => AppMode::Interactive,
        AppMode::FileSearch => AppMode::FilePicker,
        AppMode::FilePicker => if pre.files.file_search_active { AppMode::FilePicker } else { AppMode::Normal },
        m => m,
    })
        &&& !pre.outline_search.show_search && pre.mode == AppMode::Search ==> {
        &&& !post.outline_search.show_search
        &&& post.outline_search.search_query@.len() == 0
    }
        &&& !pre.outline_search.show_search && pre.mode == AppMode::Help ==> !post.layout.show_help
        &&& !pre.outline_search.show_search && pre.mode == AppMode::CellEdit ==>
        (post.status_message matches Some(m) && m@ == "Editing cancelled"@)
        &&& !pre.outline_search.show_search && (pre.mode == AppMode::Normal
        || pre.mode == AppMode::ConfirmFileCreate || pre.mode == AppMode::ConfirmSaveWidth
        || pre.mode == AppMode::ConfirmSaveBeforeQuit || pre.mode == AppMode::ConfirmSaveBeforeNav) ==>
        (post.status_message matches Some(m) && m@ == quit_hint())
        &&& !pre.outline_search.show_search && (pre.mode == AppMode::FileSearch || pre.mode == AppMode::FilePicker)
        ==> !post.files.file_search_active
    }

    /// Leave the current mode (the image modal, which the view owns, is
    /// closed before this is called): an outline search is cleared first;
    /// otherwise each mode steps back one level, and normal mode shows how
    /// to quit.
    pub fn exit_current_mode(&mut self)
        requires
            old(self).ready(),
            cursor_bounded(old(self).interactive_state),
        ensures
            Self::exit_current_mode_effect(*old(self), *final(self)),
    {
        if self.outline_search.show_search {
            self.outline_search.search_query = String::new();
            self.filter_outline();
            self.outline_search.show_search = false;
            self.outline_search.outline_search_active = false;
            return;
        }
        match self.mode {
            AppMode::Interactive => {
                if self.interactive_state.is_in_table_mode() {
                    self.interactive_state.exit_table_mode();
                    self.status_message = Some(self.interactive_state.status_text());
                } else {
                    self.exit_interactive_mode();
                }
            },
            AppMode::LinkFollow => {
                if self.links.link_search_active {
                    self.stop_link_search();
                } else if !self.links.link_search_query.as_str().is_empty() {
                    self.clear_link_search();
                } else {
                    self.exit_link_follow_mode();
                }
            },
            AppMode::Search => {
                self.outline_search.search_query = String::new();
                self.filter_outline();
                self.outline_search.show_search = false;
            },
            AppMode::DocSearch => {
                if self.doc_search.doc_search_active {
                    self.cancel_doc_search();
                } else {
                    self.clear_doc_search();
                }
            },
            AppMode::CommandPalette => self.close_command_palette(),
            AppMode::CellEdit => {
                self.mode = AppMode::Interactive;
                self.status_message = Some(string_from("Editing cancelled"));
            },
            AppMode::ThemePicker => self.toggle_theme_picker(),
            AppMode::Help => {
                self.layout.show_help = false;
            },
            AppMode::FileSearch => {
                self.files.file_search_active = false;
                self.mode = AppMode::FilePicker;
            },
            AppMode::FilePicker => {
                if self.files.file_search_active {
                    self.files.file_search_active = false;
                    self.files.file_search_query = String::new();
                } else {
                    self.mode = AppMode::Normal;
                    self.files.file_search_query = String::new();
                    self.files.file_search_active = false;
                }
            },
            AppMode::Normal | AppMode::ConfirmFileCreate | AppMode::ConfirmSaveWidth
                | AppMode::ConfirmSaveBeforeQuit | AppMode::ConfirmSaveBeforeNav => {
                self.set_status_message("Press q to quit • : for commands • ? for help");
            },
        }
    }

    /// What [`App::handle_cancel_action`] does: `post` is `pre` after it.
    pub open spec fn handle_cancel_action_effect(pre: App, post: App) -> bool {
        &&& post.ready()
        &&& pre.mode == AppMode::ConfirmFileCreate || pre.mode == AppMode::ConfirmSaveWidth
        || pre.mode == AppMode::ConfirmSaveBeforeQuit || pre.mode == AppMode::ConfirmSaveBeforeNav
        ==> post.mode == AppMode::Normal
        &&& pre.mode == AppMode::ConfirmSaveBeforeNav ==> post.pending_navigation is None
        &&& pre.mode == AppMode::ConfirmSaveBeforeQuit ==> (post.status_message matches Some(m) && m@ == "Quit cancelled"@)
        &&& pre.mode == AppMode::ConfirmSaveBeforeNav ==> (post.status_message matches Some(m) && m@ == "Navigation cancelled"@)
    }

    /// Cancel in a dialog: close it (with a message for the save prompts);
    /// elsewhere the same as leaving the mode.
    pub fn handle_cancel_action(&mut self)
        requires
            old(self).ready(),
            cursor_bounded(old(self).interactive_state),
        ensures
            Self::handle_cancel_action_effect(*old(self), *final(self)),
    {
        match self.mode {
            AppMode::ConfirmFileCreate => self.cancel_file_create(),
            AppMode::ConfirmSaveWidth => self.cancel_save_width_confirmation(),
            AppMode::ConfirmSaveBeforeQuit => {
                self.mode = AppMode::Normal;
                self.status_message = Some(string_from("Quit cancelled"));
            },
            AppMode::ConfirmSaveBeforeNav => {
                self.mode = AppMode::Normal;
                self.pending_navigation = None;
                self.status_message = Some(string_from("Navigation cancelled"));
            },
            _ => self.exit_current_mode(),
        }
    }

    /// Backspace in whichever search is being typed; a document search
    /// leaves re-searching its text to the caller.
    pub fn handle_search_backspace(&mut self) -> (t: Option<Task>)
        requires
            old(self).ready(),
        ensures
            final(self).ready(),
            t == action_task(*old(self), Action::SearchBackspace),
    {
        if self.outline_search.show_search && self.outline_search.outline_search_active {
            self.search_backspace();
            return None;
        }
        match self.mode {
            AppMode::Search => {
                self.search_backspace();
                None
            },
            AppMode::DocSearch => {
                crate::text::pop_char(&mut self.doc_search.doc_search_query);
                Some(Task::UpdateDocSearch)
            },
            AppMode::LinkFollow => {
                if self.links.link_search_active {
                    self.link_search_pop();
                }
                None
            },
            AppMode::FileSearch => {
                self.file_search_pop();
                None
            },
            AppMode::CommandPalette => {
                self.command_palette_backspace();
                None
            },
            AppMode::CellEdit => {
                crate::text::pop_char(&mut self.edits.cell_edit_value);
                None
            },
            _ => None,
        }
    }

    /// Confirm in the current context: accept an outline search (or clear
    /// it when nothing matched), accept a search, run the selected palette
    /// command, or leave a dialog's outside work to the caller.
    pub fn handle_confirm_action(&mut self) -> (r: (Option<ActionResult>, Option<Task>))
        requires
            old(self).ready(),
        ensures
            final(self).wf(),
            r.0 is None || r.0 matches Some(ActionResult::Quit),
            r.0 matches Some(ActionResult::Quit) ==> final(self).edits == old(self).edits && !old(self).edits.has_unsaved_changes,
            !(old(self).mode == AppMode::CommandPalette && !(old(self).outline_search.show_search && old(self).outline_search.outline_search_active))
                ==> r.1 == action_task(*old(self), Action::ConfirmAction) && r.0 is None && final(self).ready(),
            old(self).outline_search.show_search && old(self).outline_search.outline_search_active ==> {
                let has_matches = old(self).outline_search.search_query@.len() == 0 || old(self).outline.items@.len() > 0;
                &&& !final(self).outline_search.outline_search_active
                &&& final(self).outline_search.show_search == has_matches
                &&& (!has_matches ==> (final(self).status_message matches Some(m)
                    && m@ == "Pattern not found: "@ + old(self).outline_search.search_query@))
            },
            old(self).mode == AppMode::CommandPalette && !(old(self).outline_search.show_search && old(self).outline_search.outline_search_active) ==> {
                let sel = if old(self).palette.command_selected < old(self).palette.command_filtered@.len() {
                    Some(old(self).palette.command_filtered@[old(self).palette.command_selected as int])
                } else {
                    None
                };
                let effect = match sel {
                    Some(ci) => if ci < old(self).commands@.len() {
                        command_effect(old(self).commands@[ci as int].action, old(self).edits.has_unsaved_changes)
                    } else {
                        CommandEffect::Continue
                    },
                    None => CommandEffect::Continue,
                };
                &&& (effect == CommandEffect::Quit) == (r.0 matches Some(ActionResult::Quit))
                &&& r.1 == (match effect {
                    CommandEffect::SaveWidth => Some(Task::SaveWidth),
                    CommandEffect::SaveFile => Some(Task::SaveFile),
                    _ => None,
                })
            },
    {
        if self.outline_search.show_search && self.outline_search.outline_search_active {
            let has_matches = self.outline_search.search_query.as_str().is_empty() || self.outline.items.len() > 0;
            if has_matches {
                self.outline_search.outline_search_active = false;
            } else {
                let mut m = string_from("Pattern not found: ");
                crate::text::push_str(&mut m, self.outline_search.search_query.as_str());
                self.status_message = Some(m);
                self.outline_search.show_search = false;
                self.outline_search.outline_search_active = false;
                self.outline_search.search_query = String::new();
                self.filter_outline();
            }
            return (None, None);
        }
        match self.mode {
            AppMode::ConfirmFileCreate => (None, Some(Task::CreateFile)),
            AppMode::ConfirmSaveWidth => (None, Some(Task::SaveWidth)),
            AppMode::ConfirmSaveBeforeQuit => (None, Some(Task::SaveAndQuit)),
            AppMode::ConfirmSaveBeforeNav => (None, Some(Task::SaveAndNavigate)),
            AppMode::Search => {
                self.outline_search.show_search = false;
                (None, None)
            },
            AppMode::DocSearch => {
                self.accept_doc_search();
                (None, None)
            },
            AppMode::CommandPalette => {
                match self.execute_selected_command() {
                    CommandEffect::Quit => (Some(ActionResult::Quit), None),
                    CommandEffect::SaveWidth => (None, Some(Task::SaveWidth)),
                    CommandEffect::SaveFile => (None, Some(Task::SaveFile)),
                    CommandEffect::Continue => (None, None),
                }
            },
            AppMode::CellEdit => (None, Some(Task::SaveCell)),
            _ => (None, None),
        }
    }
}

/// What the actions that are one call on the state do (see
/// [`App::execute_action`]): `post` is `pre` after `action`.
#[verifier::opaque]
pub open spec fn single_step_effect(pre: App, post: App, action: Action) -> bool {
    &&& (action == Action::Expand ==> App::expand_effect(pre, post))
    &&& (action == Action::Collapse ==> App::collapse_effect(pre, post))
    &&& (action == Action::ToggleExpand ==> App::toggle_expand_effect(pre, post))
    &&& (action == Action::ToggleFocus ==> App::toggle_focus_effect(pre, post))
    &&& (action == Action::ToggleFocusBack ==> App::toggle_focus_back_effect(pre, post))
    &&& (action == Action::ToggleOutline ==> App::toggle_outline_effect(pre, post))
    &&& (action == Action::SetBookmark ==> App::set_bookmark_effect(pre, post))
    &&& (action == Action::JumpToBookmark ==> App::jump_to_bookmark_effect(pre, post))
    &&& (action == Action::ExitInteractiveMode ==> App::exit_interactive_mode_effect(pre, post))
    &&& (action == Action::EnterSearchMode ==> App::toggle_search_effect(pre, post))
    &&& (action == Action::EnterDocSearch ==> App::enter_doc_search_effect(pre, post))
    &&& (action == Action::ExitMode ==> App::exit_current_mode_effect(pre, post))
    &&& (action == Action::OpenCommandPalette ==> App::open_command_palette_effect(pre, post))
    &&& (action == Action::NextLink ==> App::next_link_effect(pre, post))
    &&& (action == Action::PreviousLink ==> App::previous_link_effect(pre, post))
    &&& (action == Action::ToggleRawSource ==> App::toggle_raw_source_effect(pre, post))
    &&& (action == Action::ToggleHelp ==> App::toggle_help_effect(pre, post))
    &&& (action == Action::ToggleThemePicker ==> App::toggle_theme_picker_effect(pre, post))
    &&& (action == Action::CancelAction ==> App::handle_cancel_action_effect(pre, post))
    &&& (action == Action::ThemePickerNext ==> App::theme_picker_next_effect(pre, post))
    &&& (action == Action::ThemePickerPrevious ==> App::theme_picker_previous_effect(pre, post))
    &&& (action == Action::CommandPaletteNext ==> App::command_palette_next_effect(pre, post))
    &&& (action == Action::CommandPalettePrev ==> App::command_palette_prev_effect(pre, post))
    &&& (action == Action::CommandPaletteAutocomplete ==> App::command_palette_autocomplete_effect(pre, post))
    &&& (action matches Action::JumpToHeading(n) ==> App::jump_to_heading_effect(pre, post, n))
    &&& (action matches Action::JumpToLink(n) ==> App::jump_to_link_effect(pre, post, n))
    &&& (action == Action::ToggleTodoFilter ==> crate::todos::todo_filter_toggled(pre, post))
}

/// What the moves that take no count do: `post` is `pre` after `action`.
#[verifier::opaque]
pub open spec fn uncounted_move_effect(pre: App, post: App, action: Action) -> bool {
    &&& (action == Action::First ==> App::first_effect(App { count_prefix: None, ..pre }, post))
    &&& (action == Action::Last ==> App::last_effect(App { count_prefix: None, ..pre }, post))
    &&& (action == Action::JumpToParent ==> App::jump_to_parent_effect(App { count_prefix: None, ..pre }, post))
    &&& (action == Action::HelpScrollDown ==> App::scroll_help_down_effect(App { count_prefix: None, ..pre }, post))
    &&& (action == Action::HelpScrollUp ==> App::scroll_help_up_effect(App { count_prefix: None, ..pre }, post))
    &&& (action == Action::PageDown ==> if pre.layout.show_help {
                    App::scroll_help_page_down_effect(App { count_prefix: None, ..pre }, post)
                } else {
                    App::scroll_page_down_effect(App { count_prefix: None, ..pre }, post)
                })
    &&& (action == Action::PageUp ==> if pre.layout.show_help {
                    App::scroll_help_page_up_effect(App { count_prefix: None, ..pre }, post)
                } else {
                    App::scroll_page_up_effect(App { count_prefix: None, ..pre }, post)
                })
}

/// The actions that are one call on the state.
pub open spec fn is_single_step(action: Action) -> bool {
    match action {
        Action::Expand | Action::Collapse | Action::ToggleExpand | Action::ToggleFocus | Action::ToggleFocusBack
        | Action::ToggleOutline | Action::SetBookmark | Action::JumpToBookmark | Action::ExitInteractiveMode
        | Action::EnterSearchMode | Action::EnterDocSearch | Action::ExitMode | Action::OpenCommandPalette | Action::NextLink
        | Action::PreviousLink | Action::ToggleRawSource | Action::ToggleHelp | Action::ToggleThemePicker | Action::CancelAction
        | Action::ThemePickerNext | Action::ThemePickerPrevious | Action::CommandPaletteNext | Action::CommandPalettePrev
        | Action::CommandPaletteAutocomplete | Action::ToggleTodoFilter | Action::JumpToHeading(_) | Action::JumpToLink(_) => true,
        _ => false,
    }
}

/// The moves that take no count.
pub open spec fn is_uncounted_move(action: Action) -> bool {
    match action {
        Action::First | Action::Last | Action::PageDown | Action::PageUp | Action::JumpToParent | Action::HelpScrollDown
        | Action::HelpScrollUp => true,
        _ => false,
    }
}

impl App {
    /// The actions that are one call on the state.
    fn single_step(&mut self, action: Action)
        requires
            action_ok(*old(self), action),
            is_single_step(action),
        ensures
            final(self).wf(),
            single_step_effect(*old(self), *final(self), action),
    {
        proof { reveal(single_step_effect); }
        match action {
            Action::Expand => self.expand(),
            Action::Collapse => self.collapse(),
            Action::ToggleExpand => self.toggle_expand(),
            Action::ToggleFocus => self.toggle_focus(),
            Action::ToggleFocusBack => self.toggle_focus_back(),
            Action::ToggleOutline => self.toggle_outline(),
            Action::SetBookmark => self.set_bookmark(),
            Action::JumpToBookmark => self.jump_to_bookmark(),
            Action::ExitInteractiveMode => self.exit_interactive_mode(),
            Action::EnterSearchMode => self.toggle_search(),
            Action::EnterDocSearch => self.enter_doc_search(),
            Action::ExitMode => self.exit_current_mode(),
            Action::OpenCommandPalette => self.open_command_palette(),
            Action::NextLink => self.next_link(),
            Action::PreviousLink => self.previous_link(),
            Action::ToggleRawSource => self.toggle_raw_source(),
            Action::ToggleHelp => self.toggle_help(),
            Action::ToggleThemePicker => self.toggle_theme_picker(),
            Action::CancelAction => self.handle_cancel_action(),
            Action::ThemePickerNext => self.theme_picker_next(),
            Action::ThemePickerPrevious => self.theme_picker_previous(),
            Action::CommandPaletteNext => self.command_palette_next(),
            Action::CommandPalettePrev => self.command_palette_prev(),
            Action::CommandPaletteAutocomplete => self.command_palette_autocomplete(),
            Action::ToggleTodoFilter => self.toggle_todo_filter(),
            Action::JumpToHeading(n) => self.jump_to_heading(n),
            Action::JumpToLink(n) => self.jump_to_link(n),
            _ => {},
        }
    }
}

impl App {
    /// The moves that take no count: the count prefix is dropped, then the
    /// outline, content or help moves once.
    fn uncounted_move(&mut self, action: Action)
        requires
            old(self).wf(),
            is_uncounted_move(action),
        ensures
            final(self).wf(),
            uncounted_move_effect(*old(self), *final(self), action),
    {
        proof { reveal(uncounted_move_effect); }
        self.clear_count();
        match action {
            Action::First => self.first(),
            Action::Last => self.last(),
            Action::PageDown => {
                if self.layout.show_help {
                    self.scroll_help_page_down();
                } else {
                    self.scroll_page_down();
                }
            },
            Action::PageUp => {
                if self.layout.show_help {
                    self.scroll_help_page_up();
                } else {
                    self.scroll_page_up();
                }
            },
            Action::JumpToParent => self.jump_to_parent(),
            Action::HelpScrollDown => self.scroll_help_down(),
            _ => self.scroll_help_up(),
        }
    }
}

impl App {
    /// Execute an action: the result for the main loop, and the outside
    /// work left, if any (see [`action_task`]).
    #[verifier::rlimit(100)]
    #[verifier::spinoff_prover]
    pub fn execute_action(&mut self, action: Action) -> (r: (ActionResult, Option<Task>))
        requires
            action_ok(*old(self), action),
        ensures
            final(self).wf(),
            action != Action::ConfirmAction && action != Action::DiscardAndContinue ==> r.1 == action_task(*old(self), action),
            action == Action::Quit ==> ((r.0 matches ActionResult::Quit)
                == (!old(self).outline_search.show_search && !old(self).edits.has_unsaved_changes)),
            action == Action::Quit && !old(self).outline_search.show_search && old(self).edits.has_unsaved_changes
                ==> final(self).mode == AppMode::ConfirmSaveBeforeQuit,
            action == Action::OpenInEditor ==> (r.0 matches ActionResult::RunEditor(p, _) && p == old(self).current_file_path),
            action == Action::DiscardAndQuit ==> ((r.0 matches ActionResult::Quit)
                == (old(self).mode == AppMode::ConfirmSaveBeforeQuit || old(self).mode == AppMode::ConfirmSaveBeforeNav)),
            (action == Action::GoBack || action == Action::GoForward) && old(self).edits.has_unsaved_changes
                && (if action == Action::GoBack { old(self).history.file_history@.len() > 0 } else { old(self).history.file_future@.len() > 0 })
                ==> final(self).mode == AppMode::ConfirmSaveBeforeNav && final(self).pending_navigation is Some,
            action == Action::GoBack && !old(self).edits.has_unsaved_changes && old(self).history.file_history@.len() > 0
                ==> crate::history::went_back(*old(self), *final(self)),
            action == Action::GoForward && !old(self).edits.has_unsaved_changes && old(self).history.file_future@.len() > 0
                ==> crate::history::went_forward(*old(self), *final(self)),
            !(action == Action::Quit || action == Action::OpenInEditor || action == Action::DiscardAndQuit
                || action == Action::ConfirmAction) ==> r.0 is Continue,
            action != Action::OpenInEditor ==> (r.0 is Quit || r.0 is Continue),
            r.0 is Quit ==> !final(self).edits.has_unsaved_changes,
            r.0 is Quit && old(self).edits.has_unsaved_changes == (old(self).edits.pending_edits@.len() > 0)
                ==> final(self).edits.pending_edits@.len() == 0,
            action == Action::Quit && !old(self).outline_search.show_search && old(self).edits.has_unsaved_changes
                ==> r.0 is Continue,
            action == Action::DiscardAndQuit && (r.0 is Quit) ==> final(self).edits.pending_edits@.len() == 0,
            action == Action::NextMatch ==> App::next_doc_match_effect(*old(self), *final(self)),
            action == Action::PrevMatch ==> App::prev_doc_match_effect(*old(self), *final(self)),
            action == Action::InteractiveNext && (old(self).interactive_state.detail_mode matches Some(DetailMode::Table { .. })) ==> {
                let limit = table_row_limit(table_dims(old(self).interactive_state).0);
                let n = count_of(*old(self));
                &&& final(self).interactive_state.table_cursor()
                    == cursor_down(old(self).interactive_state.table_cursor(), n, limit)
                &&& final(self).status_message matches Some(m) && m@ == table_status_spec(final(self).interactive_state.table_cursor())
                &&& final(self).count_prefix is None
            },
            action == Action::InteractivePrevious && (old(self).interactive_state.detail_mode matches Some(DetailMode::Table { .. })) ==> {
                let n = count_of(*old(self));
                &&& final(self).interactive_state.table_cursor()
                    == cursor_up(old(self).interactive_state.table_cursor(), n)
                &&& final(self).status_message matches Some(m) && m@ == table_status_spec(final(self).interactive_state.table_cursor())
                &&& final(self).count_prefix is None
            },
            is_single_step(action) ==> single_step_effect(*old(self), *final(self), action),
            is_uncounted_move(action) ==> uncounted_move_effect(*old(self), *final(self), action),
    {
        match action {
            Action::Expand | Action::Collapse | Action::ToggleExpand | Action::ToggleFocus | Action::ToggleFocusBack | Action::ToggleOutline | Action::SetBookmark | Action::JumpToBookmark | Action::ExitInteractiveMode | Action::EnterSearchMode | Action::EnterDocSearch | Action::ExitMode | Action::OpenCommandPalette | Action::NextLink | Action::PreviousLink | Action::ToggleRawSource | Action::ToggleHelp | Action::ToggleThemePicker | Action::CancelAction | Action::ThemePickerNext | Action::ThemePickerPrevious | Action::CommandPaletteNext | Action::CommandPalettePrev | Action::CommandPaletteAutocomplete | Action::ToggleTodoFilter | Action::JumpToHeading(_) | Action::JumpToLink(_) => self.single_step(action),
            Action::Quit => {
                if self.outline_search.show_search {
                    self.outline_search.search_query = String::new();
                    self.filter_outline();
                    self.outline_search.show_search = false;
                    self.outline_search.outline_search_active = false;
                } else if self.edits.has_unsaved_changes {
                    self.mode = AppMode::ConfirmSaveBeforeQuit;
                } else {
                    return (ActionResult::Quit, None);
                }
            },
            Action::Next => {
                let count = self.take_count();
                let mut i: usize = 0;
                while i < count
                    invariant
                        self.ready(),
                    decreases count - i,
                {
                    if self.mode == AppMode::FilePicker {
                        self.next_file();
                    } else {
                        self.next();
                    }
                    i += 1;
                }
            },
            Action::Previous => {
                let count = self.take_count();
                let mut i: usize = 0;
                while i < count
                    invariant
                        self.ready(),
                    decreases count - i,
                {
                    if self.mode == AppMode::FilePicker {
                        self.previous_file();
                    } else {
                        self.previous();
                    }
                    i += 1;
                }
            },
            Action::First | Action::Last | Action::PageDown | Action::PageUp | Action::JumpToParent
                | Action::HelpScrollDown | Action::HelpScrollUp => self.uncounted_move(action),
            Action::OutlineWidthIncrease | Action::OutlineWidthDecrease => {
                self.cycle_outline_width(action == Action::OutlineWidthIncrease);
                if !self.layout.config_has_custom_outline_width {
                    return (ActionResult::Continue, Some(Task::PersistWidth));
                }
            },
            Action::EnterInteractiveMode => return (ActionResult::Continue, Some(Task::EnterInteractiveMode)),
            Action::EnterLinkFollowMode => return (ActionResult::Continue, Some(Task::EnterLinkFollowMode)),
            Action::ToggleSearchMode => return (ActionResult::Continue, Some(Task::ToggleSearchMode)),
            Action::FollowLink => {
                match self.mode {
                    AppMode::LinkFollow => return (ActionResult::Continue, Some(Task::FollowLink)),
                    AppMode::FilePicker | AppMode::FileSearch => return (ActionResult::Continue, Some(Task::SelectFile)),
                    _ => {},
                }
            },
            Action::LinkSearch => {
                match self.mode {
                    AppMode::LinkFollow => self.start_link_search(),
                    AppMode::FilePicker => {
                        self.files.file_search_active = true;
                    },
                    _ => {},
                }
            },
            Action::InteractiveNext => {
                let count = self.take_count();
                if self.interactive_state.is_in_table_mode() {
                    let (rows, cols) = self.get_table_dimensions();
                    let limit = if rows < usize::MAX { rows + 1 } else { rows };
                    let ghost start = self.interactive_state.table_cursor();
                    let ghost st0 = self.interactive_state;
                    let mut i: usize = 0;
                    while i < count
                        invariant
                            self.ready(),
                            cursor_bounded(self.interactive_state),
                            limit > 0,
                            limit as int == table_row_limit(rows),
                            i <= count,
                            count as int == count_of(*old(self)),
                            rows == table_dims(old(self).interactive_state).0,
                            start == old(self).interactive_state.table_cursor(),
                            self.count_prefix is None,
                            self.interactive_state.elements == st0.elements,
                            self.interactive_state.current_index == st0.current_index,
                            self.interactive_state.detail_mode == st0.detail_mode,
                            self.interactive_state.table_cursor()
                                == cursor_down(start, i as int, limit as int),
                        decreases count - i,
                    {
                        self.interactive_state.table_move_down(limit);
                        i += 1;
                    }
                    self.status_message = Some(self.interactive_state.table_status_text(limit, cols));
                } else {
                    let mut i: usize = 0;
                    while i < count
                        invariant
                            self.ready(),
                            cursor_bounded(self.interactive_state),
                        decreases count - i,
                    {
                        self.interactive_state.next();
                        i += 1;
                    }
                    self.scroll_to_interactive_element(self.layout.content_viewport_height);
                    self.status_message = Some(self.interactive_state.status_text());
                }
            },
            Action::InteractivePrevious => {
                let count = self.take_count();
                if self.interactive_state.is_in_table_mode() {
                    let (rows, cols) = self.get_table_dimensions();
                    let ghost start = self.interactive_state.table_cursor();
                    let ghost st0 = self.interactive_state;
                    let mut i: usize = 0;
                    while i < count
                        invariant
                            self.ready(),
                            cursor_bounded(self.interactive_state),
                            i <= count,
                            count as int == count_of(*old(self)),
                            start == old(self).interactive_state.table_cursor(),
                            self.count_prefix is None,
                            self.interactive_state.elements == st0.elements,
                            self.interactive_state.current_index == st0.current_index,
                            self.interactive_state.detail_mode == st0.detail_mode,
                            self.interactive_state.table_cursor()
                                == cursor_up(start, i as int),
                        decreases count - i,
                    {
                        self.interactive_state.table_move_up();
                        i += 1;
                    }
                    self.status_message = Some(self.interactive_state.table_status_text(rows, cols));
                } else {
                    let mut i: usize = 0;
                    while i < count
                        invariant
                            self.ready(),
                            cursor_bounded(self.interactive_state),
                        decreases count - i,
                    {
                        self.interactive_state.previous();
                        i += 1;
                    }
                    self.scroll_to_interactive_element(self.layout.content_viewport_height);
                    self.status_message = Some(self.interactive_state.status_text());
                }
            },
            Action::InteractiveActivate => {
                self.clear_count();
                if self.interactive_state.is_in_table_mode() {
                    return (ActionResult::Continue, Some(Task::EditCell));
                }
                return (ActionResult::Continue, Some(Task::ActivateElement));
            },
            Action::InteractiveNextLink => {
                let count = self.take_count();
                let mut i: usize = 0;
                while i < count
                    invariant
                        self.ready(),
                        cursor_bounded(self.interactive_state),
                    decreases count - i,
                {
                    self.interactive_state.next();
                    i += 1;
                }
                self.scroll_to_interactive_element(self.layout.content_viewport_height);
                self.status_message = Some(self.interactive_state.status_text());
            },
            Action::InteractivePreviousLink => {
                let count = self.take_count();
                let mut i: usize = 0;
                while i < count
                    invariant
                        self.ready(),
                        cursor_bounded(self.interactive_state),
                    decreases count - i,
                {
                    self.interactive_state.previous();
                    i += 1;
                }
                self.scroll_to_interactive_element(self.layout.content_viewport_height);
                self.status_message = Some(self.interactive_state.status_text());
            },
            Action::InteractiveLeft => {
                let count = self.take_count();
                let mut i: usize = 0;
                while i < count
                    invariant
                        self.ready(),
                        cursor_bounded(self.interactive_state),
                    decreases count - i,
                {
                    self.table_navigate_left();
                    i += 1;
                }
            },
            Action::InteractiveRight => {
                let count = self.take_count();
                let mut i: usize = 0;
                while i < count
                    invariant
                        self.ready(),
                        cursor_bounded(self.interactive_state),
                    decreases count - i,
                {
                    self.table_navigate_right();
                    i += 1;
                }
            },
            Action::ApplyTheme => {
                self.apply_selected_theme();
                return (ActionResult::Continue, Some(Task::SaveTheme));
            },
            Action::CopyContent => return (ActionResult::Continue, Some(Task::CopyContent)),
            Action::CopyAnchor => return (ActionResult::Continue, Some(Task::CopyAnchor)),
            Action::GoBack => {
                if self.history.file_history.len() == 0 {
                    return (ActionResult::Continue, None);
                }
                if self.edits.has_unsaved_changes {
                    self.pending_navigation = Some(crate::app::PendingNavigation::Back);
                    self.mode = AppMode::ConfirmSaveBeforeNav;
                } else {
                    let _ = self.go_back();
                    return (ActionResult::Continue, Some(Task::UpdateContentMetrics));
                }
            },
            Action::GoForward => {
                if self.history.file_future.len() == 0 {
                    return (ActionResult::Continue, None);
                }
                if self.edits.has_unsaved_changes {
                    self.pending_navigation = Some(crate::app::PendingNavigation::Forward);
                    self.mode = AppMode::ConfirmSaveBeforeNav;
                } else {
                    let _ = self.go_forward();
                    return (ActionResult::Continue, Some(Task::UpdateContentMetrics));
                }
            },
            Action::OpenInEditor => {
                let line = self.selected_heading_source_line();
                return (ActionResult::RunEditor(self.current_file_path.clone(), line), None);
            },
            Action::UndoEdit => {
                self.clear_count();
                if let Err(e) = self.undo_last_edit() {
                    let mut m = string_from("✗ Undo failed: ");
                    crate::text::push_str(&mut m, e.as_str());
                    self.status_message = Some(m);
                }
            },
            Action::OpenFilePicker => return (ActionResult::Continue, Some(Task::OpenFilePicker)),
            Action::ConfirmAction => {
                let (res, task) = self.handle_confirm_action();
                match res {
                    Some(result) => return (result, task),
                    None => return (ActionResult::Continue, task),
                }
            },
            Action::DiscardAndQuit => {
                if let Some(result) = self.handle_discard_and_quit() {
                    return (result, None);
                }
            },
            Action::DiscardAndContinue => {
                let task = self.handle_discard_and_continue();
                return (ActionResult::Continue, task);
            },
            Action::ScrollDown => {
                let count = self.take_count();
                let mut i: usize = 0;
                while i < count
                    invariant
                        self.ready(),
                    decreases count - i,
                {
                    self.scroll_content_down();
                    i += 1;
                }
            },
            Action::ScrollUp => {
                let count = self.take_count();
                let mut i: usize = 0;
                while i < count
                    invariant
                        self.ready(),
                    decreases count - i,
                {
                    self.scroll_content_up();
                    i += 1;
                }
            },
            Action::SearchBackspace => {
                let task = self.handle_search_backspace();
                return (ActionResult::Continue, task);
            },
            Action::NextMatch | Action::PrevMatch => {
                let steps = !(self.outline_search.show_search && !self.outline_search.outline_search_active
                    && self.outline.items.len() > 0) && self.doc_search.doc_search_matches.len() > 0;
                if action == Action::NextMatch {
                    self.next_doc_match();
                } else {
                    self.prev_doc_match();
                }
                if steps {
                    return (ActionResult::Continue, Some(Task::DetectSearchLink));
                }
            },
        }
        (ActionResult::Continue, None)
    }
}

/// Whether a typed key is taken as text in the current state: a
/// character while a search, the palette or a cell edit is being typed.
pub open spec fn takes_text(app: App, key: Option<char>) -> bool {
    key is Some && (
        (app.outline_search.show_search && app.outline_search.outline_search_active)
        || (app.mode == AppMode::DocSearch && app.doc_search.doc_search_active)
        || (app.mode == AppMode::LinkFollow && app.links.link_search_active)
        || app.mode == AppMode::CommandPalette
        || app.mode == AppMode::CellEdit
    )
}

impl App {
    /// Handle a key as text input (`key` is its character, if it has one;
    /// `ctrl` whether Control was held): Ctrl+U clears a search query,
    /// other characters are typed into it. Returns whether the key was
    /// taken, and whether the document search must search again.
    pub fn handle_text_input(&mut self, key: Option<char>, ctrl: bool) -> (r: (bool, Option<Task>))
        requires
            old(self).ready(),
        ensures
            final(self).ready(),
            r.0 == takes_text(*old(self), key),
            !r.0 ==> *final(self) == *old(self),
            old(self).outline_search.show_search && old(self).outline_search.outline_search_active && key == Some('u') && ctrl
                ==> final(self).outline_search.search_query@.len() == 0,
            (r.1 is Some) == (r.0 && !(old(self).outline_search.show_search && old(self).outline_search.outline_search_active)
                && old(self).mode == AppMode::DocSearch && old(self).doc_search.doc_search_active
                && (final(self).doc_search.doc_search_query@ != old(self).doc_search.doc_search_query@ || (key == Some('u') && ctrl))),
            !(old(self).outline_search.show_search && old(self).outline_search.outline_search_active)
                && old(self).mode == AppMode::CellEdit && key is Some
                ==> final(self).edits.cell_edit_value@ == old(self).edits.cell_edit_value@.push(key->0),
    {
        if self.outline_search.show_search && self.outline_search.outline_search_active {
            if let Some(c) = key {
                if c == 'u' && ctrl {
                    self.outline_search.search_query = String::new();
                    self.filter_outline();
                } else {
                    self.search_input(c);
                }
                return (true, None);
            }
        }
        if self.mode == AppMode::DocSearch && self.doc_search.doc_search_active {
            if let Some(c) = key {
                if c == 'u' && ctrl {
                    self.doc_search.doc_search_query = String::new();
                    return (true, Some(Task::UpdateDocSearch));
                }
                if self.doc_search.doc_search_query.as_str().len() >= crate::search::MAX_SEARCH_LEN {
                    return (true, None);
                }
                let u = c as u32;
                if (u <= 0x1F || (0x7F <= u && u <= 0x9F)) && c != '\t' {
                    return (true, None);
                }
                crate::text::push_char(&mut self.doc_search.doc_search_query, c);
                assert(self.doc_search.doc_search_query@.len() == old(self).doc_search.doc_search_query@.len() + 1);
                return (true, Some(Task::UpdateDocSearch));
            }
        }
        if self.mode == AppMode::LinkFollow && self.links.link_search_active {
            if let Some(c) = key {
                self.link_search_push(c);
                return (true, None);
            }
        }
        if self.mode == AppMode::CommandPalette {
            if let Some(c) = key {
                self.command_palette_input(c);
                return (true, None);
            }
        }
        if self.mode == AppMode::CellEdit {
            if let Some(c) = key {
                crate::text::push_char(&mut self.edits.cell_edit_value, c);
                return (true, None);
            }
        }
        (false, None)
    }
}

} // verus!
