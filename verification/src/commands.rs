//! The command palette as the navigator runs it: opening, typing, picking
//! and executing commands, and saving the outline width.

use vstd::prelude::*;
use crate::app::{App, AppMode, Layout, PendingNavigation, document_wf, string_from};
use crate::modes::Task;
use crate::palette::{CommandAction, CommandPalette, PaletteCommand, is_ranking, level_spec, parse_level_from_query};
use crate::text::{decimal, decimal_string, push_str};

verus! {

broadcast use vstd::string::group_string_axioms;

/// What executing a command leaves to the program that drives the state.
#[derive(Debug, Clone, Copy, PartialEq, Eq, Structural)]
pub enum CommandEffect {
    /// Nothing more to do.
    Continue,
    /// Exit the application.
    Quit,
    /// Write the outline width to the configuration, then report with
    /// [`App::finish_save_width`].
    SaveWidth,
    /// Write the pending edits to the file, then report with
    /// [`App::finish_save_pending_edits`].
    SaveFile,
}

/// The status after saving the outline width.
pub open spec fn width_saved_message(w: u16) -> Seq<char> {
    "✓ Width "@ + decimal(w as nat) + "% saved to config"@
}

/// A standard outline width.
pub open spec fn standard_width(w: u16) -> bool {
    w == 20 || w == 30 || w == 40
}

impl App {
    /// What [`App::open_command_palette`] does: `post` is `pre` after it.
    pub open spec fn open_command_palette_effect(pre: App, post: App) -> bool {
        &&& post.mode == AppMode::CommandPalette
        &&& post.palette.command_query@.len() == 0
        &&& post.palette.command_filtered@ == Seq::new(pre.commands@.len(), |i: int| i as usize)
        &&& post.palette.command_selected == 0
        &&& post == (App { palette: post.palette, mode: AppMode::CommandPalette, ..pre })
    }

    /// Open command palette (triggered by `:`): every command listed, the
    /// first selected.
    pub fn open_command_palette(&mut self)
        ensures
            Self::open_command_palette_effect(*old(self), *final(self)),
    {
        self.mode = AppMode::CommandPalette;
        self.palette.open(self.commands.as_slice());
    }

    /// Add a character to command palette search (up to 32 bytes) and re-rank.
    pub fn command_palette_input(&mut self, c: char)
        ensures
            final(self).palette.command_query@ == (if (vstd::utf8::encode_utf8(old(self).palette.command_query@).len() as usize) < 32 {
                old(self).palette.command_query@.push(c)
            } else {
                old(self).palette.command_query@
            }),
            (vstd::utf8::encode_utf8(old(self).palette.command_query@).len() as usize) < 32
                ==> is_ranking(old(self).commands@, final(self).palette.command_query@, final(self).palette.command_filtered@),
            *final(self) == (App { palette: final(self).palette, ..*old(self) }),
    {
        self.palette.input(self.commands.as_slice(), c);
    }

    /// Remove last character from command palette search and re-rank.
    pub fn command_palette_backspace(&mut self)
        ensures
            final(self).palette.command_query@ == (if old(self).palette.command_query@.len() > 0 {
                old(self).palette.command_query@.drop_last()
            } else {
                old(self).palette.command_query@
            }),
            is_ranking(old(self).commands@, final(self).palette.command_query@, final(self).palette.command_filtered@),
            *final(self) == (App { palette: final(self).palette, ..*old(self) }),
    {
        self.palette.backspace(self.commands.as_slice());
    }

    /// Rank the commands for the current query.
    pub fn filter_commands(&mut self)
        ensures
            final(self).palette.command_query == old(self).palette.command_query,
            is_ranking(old(self).commands@, final(self).palette.command_query@, final(self).palette.command_filtered@),
            final(self).palette.command_selected == (if old(self).palette.command_selected >= final(self).palette.command_filtered@.len() {
                0
            } else {
                old(self).palette.command_selected
            }),
            *final(self) == (App { palette: final(self).palette, ..*old(self) }),
    {
        self.palette.filter(self.commands.as_slice());
    }

    /// What [`App::command_palette_next`] does: `post` is `pre` after it.
    pub open spec fn command_palette_next_effect(pre: App, post: App) -> bool {
        &&& post.palette.command_selected == (if pre.palette.command_filtered@.len() > 0 {
        ((pre.palette.command_selected + 1) % (pre.palette.command_filtered@.len() as int)) as usize
    } else {
        pre.palette.command_selected
    })
        &&& post.palette.command_filtered == pre.palette.command_filtered
        &&& post.palette.command_query == pre.palette.command_query
        &&& post == (App { palette: post.palette, ..pre })
    }

    /// Move selection down in command palette (wrapping).
    pub fn command_palette_next(&mut self)
        ensures
            Self::command_palette_next_effect(*old(self), *final(self)),
    {
        self.palette.next();
    }

    /// What [`App::command_palette_prev`] does: `post` is `pre` after it.
    pub open spec fn command_palette_prev_effect(pre: App, post: App) -> bool {
        &&& post.palette.command_selected == (if pre.palette.command_filtered@.len() > 0 {
        if pre.palette.command_selected == 0 {
            (pre.palette.command_filtered@.len() - 1) as usize
        } else {
            (pre.palette.command_selected - 1) as usize
        }
    } else {
        pre.palette.command_selected
    })
        &&& post.palette.command_filtered == pre.palette.command_filtered
        &&& post.palette.command_query == pre.palette.command_query
        &&& post == (App { palette: post.palette, ..pre })
    }

    /// Move selection up in command palette (wrapping).
    pub fn command_palette_prev(&mut self)
        ensures
            Self::command_palette_prev_effect(*old(self), *final(self)),
    {
        self.palette.prev();
    }

    /// What [`App::command_palette_autocomplete`] does: `post` is `pre` after it.
    pub open spec fn command_palette_autocomplete_effect(pre: App, post: App) -> bool {
        &&& match (if pre.palette.command_selected < pre.palette.command_filtered@.len() {
        Some(pre.palette.command_filtered@[pre.palette.command_selected as int])
    } else {
        None
    }) {
        Some(ci) => if ci < pre.commands@.len() && pre.commands@[ci as int].aliases@.len() > 0 {
            &&& post.palette.command_query@ == pre.commands@[ci as int].aliases@[0]@
            &&& is_ranking(pre.commands@, post.palette.command_query@, post.palette.command_filtered@)
        } else {
            post.palette.command_query == pre.palette.command_query
        },
        None => post.palette.command_query == pre.palette.command_query,
    }
        &&& post == (App { palette: post.palette, ..pre })
    }

    /// Autocomplete command palette with selected command's first alias.
    pub fn command_palette_autocomplete(&mut self)
        ensures
            Self::command_palette_autocomplete_effect(*old(self), *final(self)),
    {
        self.palette.autocomplete(self.commands.as_slice());
    }

    /// Close command palette without executing.
    pub fn close_command_palette(&mut self)
        ensures
            final(self).palette.command_query@.len() == 0,
            final(self).palette.command_filtered == old(self).palette.command_filtered,
            final(self).palette.command_selected == old(self).palette.command_selected,
            *final(self) == (App { palette: final(self).palette, mode: AppMode::Normal, ..*old(self) }),
    {
        self.mode = AppMode::Normal;
        self.palette.close();
    }

    /// The selected command, if the selection is on a command.
    pub fn selected_command(&self) -> (r: Option<PaletteCommand>)
        ensures
            r == (if self.palette.command_selected < self.palette.command_filtered@.len()
                && self.palette.command_filtered@[self.palette.command_selected as int] < self.commands@.len() {
                Some(self.commands@[self.palette.command_filtered@[self.palette.command_selected as int] as int])
            } else {
                None
            }),
    {
        match self.palette.selected_command() {
            Some(ci) => if ci < self.commands.len() { Some(self.commands[ci]) } else { None },
            None => None,
        }
    }

    /// Execute the selected command (with the query typed, for its
    /// argument); the palette closes either way.
    pub fn execute_selected_command(&mut self) -> (e: CommandEffect)
        requires
            old(self).ready(),
        ensures
            final(self).wf(),
            final(self).palette.command_query@.len() == 0,
            e == CommandEffect::Quit ==> final(self).edits == old(self).edits && !old(self).edits.has_unsaved_changes,
            (match (if old(self).palette.command_selected < old(self).palette.command_filtered@.len() {
                Some(old(self).palette.command_filtered@[old(self).palette.command_selected as int])
            } else {
                None
            }) {
                Some(ci) => if ci < old(self).commands@.len() {
                    command_effect(old(self).commands@[ci as int].action, old(self).edits.has_unsaved_changes) == e
                } else {
                    e == CommandEffect::Continue && final(self).mode == AppMode::Normal
                },
                None => e == CommandEffect::Continue && final(self).mode == AppMode::Normal,
            }),
    {
        match self.palette.take_selected(self.commands.as_slice()) {
            Some((action, query)) => {
                self.mode = AppMode::Normal;
                self.execute_command_action(action, query.as_str())
            },
            None => {
                self.mode = AppMode::Normal;
                CommandEffect::Continue
            },
        }
    }

    /// Execute a palette command; what is left to do outside comes back.
    /// Level commands take the level from the last word of `query`
    /// (1 to 6), else act on all headings; quitting with unsaved changes
    /// asks to save first.
    pub fn execute_command_action(&mut self, action: CommandAction, query: &str) -> (e: CommandEffect)
        requires
            old(self).ready(),
        ensures
            final(self).wf(),
            action != CommandAction::Undo ==> final(self).ready(),
            e == command_effect(action, old(self).edits.has_unsaved_changes),
            e == CommandEffect::Quit ==> *final(self) == *old(self),
            action == CommandAction::Quit && old(self).edits.has_unsaved_changes ==> final(self).mode == AppMode::ConfirmSaveBeforeQuit,
            action == CommandAction::CollapseLevel ==> match level_spec(query@) {
                Some(l) => final(self).status_message matches Some(m) && m@ == crate::folding::collapsed_level_message(
                    crate::folding::collect_forest(old(self).tree@, crate::folding::HeadingFilter::LevelWithChildren(l)).len(),
                    l as nat,
                ),
                None => final(self).status_message matches Some(m) && m@ == crate::folding::collapsed_message(
                    final(self).outline.collapsed_headings@.len(),
                ),
            },
            final(self).palette == old(self).palette,
            final(self).commands == old(self).commands,
    {
        match action {
            CommandAction::SaveWidth => CommandEffect::SaveWidth,
            CommandAction::ToggleOutline => {
                self.toggle_outline();
                CommandEffect::Continue
            },
            CommandAction::ToggleHelp => {
                self.toggle_help();
                CommandEffect::Continue
            },
            CommandAction::ToggleRawSource => {
                self.toggle_raw_source();
                CommandEffect::Continue
            },
            CommandAction::JumpToTop => {
                self.first();
                CommandEffect::Continue
            },
            CommandAction::JumpToBottom => {
                self.last();
                CommandEffect::Continue
            },
            CommandAction::CollapseAll => {
                self.collapse_all();
                CommandEffect::Continue
            },
            CommandAction::ExpandAll => {
                self.expand_all();
                CommandEffect::Continue
            },
            CommandAction::CollapseLevel => {
                match parse_level_from_query(query) {
                    Some(level) => self.collapse_level(level),
                    None => self.collapse_all(),
                }
                CommandEffect::Continue
            },
            CommandAction::ExpandLevel => {
                match parse_level_from_query(query) {
                    Some(level) => self.expand_level(level),
                    None => self.expand_all(),
                }
                CommandEffect::Continue
            },
            CommandAction::SaveFile => CommandEffect::SaveFile,
            CommandAction::Undo => {
                if let Err(e) = self.undo_last_edit() {
                    let mut msg = string_from("✗ Undo failed: ");
                    push_str(&mut msg, e.as_str());
                    self.set_status_message(msg.as_str());
                }
                CommandEffect::Continue
            },
            CommandAction::Quit => {
                if self.edits.has_unsaved_changes {
                    self.mode = AppMode::ConfirmSaveBeforeQuit;
                    CommandEffect::Continue
                } else {
                    CommandEffect::Quit
                }
            },
        }
    }

    /// Report the outcome of writing the outline width to the
    /// configuration: on success a width saved on purpose counts as the
    /// configured one (custom unless standard).
    pub fn finish_save_width(&mut self, result: Result<(), String>)
        ensures
            match result {
                Ok(_) => {
                    &&& final(self).layout == (Layout {
                        config_has_custom_outline_width: !standard_width(old(self).layout.outline_width),
                        ..old(self).layout
                    })
                    &&& final(self).status_message matches Some(m) && m@ == width_saved_message(old(self).layout.outline_width)
                },
                Err(e) => {
                    &&& final(self).layout == old(self).layout
                    &&& final(self).status_message matches Some(m) && m@ == "✗ Failed to save: "@ + e@
                },
            },
            *final(self) == (App {
                layout: final(self).layout,
                status_message: final(self).status_message,
                status_message_fresh: true,
                ..*old(self)
            }),
    {
        match result {
            Ok(_) => {
                let w = self.layout.outline_width;
                self.layout.config_has_custom_outline_width = w != 20 && w != 30 && w != 40;
                let mut msg = string_from("✓ Width ");
                let d = decimal_string(w as u64);
                push_str(&mut msg, d.as_str());
                push_str(&mut msg, "% saved to config");
                self.set_status_message(msg.as_str());
            },
            Err(e) => {
                let mut msg = string_from("✗ Failed to save: ");
                push_str(&mut msg, e.as_str());
                self.set_status_message(msg.as_str());
            },
        }
    }

    /// Show confirmation modal for saving outline width.
    pub fn show_save_width_confirmation(&mut self)
        ensures
            *final(self) == (App { mode: AppMode::ConfirmSaveWidth, ..*old(self) }),
    {
        self.mode = AppMode::ConfirmSaveWidth;
    }

    /// After the width was written (or failed to be) from the confirmation:
    /// report it and go back to normal mode.
    pub fn confirm_save_outline_width(&mut self, result: Result<(), String>)
        ensures
            final(self).mode == AppMode::Normal,
            match result {
                Ok(_) => final(self).layout.config_has_custom_outline_width == !standard_width(old(self).layout.outline_width),
                Err(_) => final(self).layout == old(self).layout,
            },
    {
        self.finish_save_width(result);
        self.mode = AppMode::Normal;
    }

    /// Cancel the save width confirmation modal.
    pub fn cancel_save_width_confirmation(&mut self)
        ensures
            final(self).mode == AppMode::Normal,
            final(self).status_message matches Some(m) && m@ == "Save cancelled"@,
            *final(self) == (App { mode: AppMode::Normal, status_message: final(self).status_message, status_message_fresh: true, ..*old(self) }),
    {
        self.mode = AppMode::Normal;
        self.set_status_message("Save cancelled");
    }

    /// Whether there are pending edits to write; reports when there are none.
    pub fn begin_save_pending_edits(&mut self) -> (b: bool)
        ensures
            b == old(self).edits.has_unsaved_changes,
            !b ==> (final(self).status_message matches Some(m) && m@ == "No changes to save"@),
            *final(self) == (App { status_message: final(self).status_message, ..*old(self) }),
    {
        if !self.edits.has_unsaved_changes {
            self.status_message = Some(string_from("No changes to save"));
            return false;
        }
        true
    }

    /// After the pending edits were written to the file: the buffer is
    /// cleared and the count of changes saved is reported. `written` tells
    /// that the new content reached a temporary file next to it (so the
    /// file watcher is told to skip the change this program makes, even
    /// when moving it into place then failed).
    pub fn finish_save_pending_edits(&mut self, result: Result<(), String>, written: bool) -> (r: Result<(), String>)
        ensures
            r == result,
            final(self).suppress_file_watch == (old(self).suppress_file_watch || written),
            result is Ok ==> {
                let n = old(self).edits.pending_edits@.len();
                &&& final(self).edits.pending_edits@.len() == 0
                &&& !final(self).edits.has_unsaved_changes
                &&& final(self).status_message matches Some(m) && m@ == "✓ Saved "@ + decimal(n) + " change"@
                    + crate::edits::plural(n) + " to "@ + old(self).filename@
            },
            result is Err ==> *final(self) == (App { suppress_file_watch: final(self).suppress_file_watch, ..*old(self) }),
    {
        if written {
            self.suppress_file_watch = true;
        }
        if result.is_err() {
            return result;
        }
        let edit_count = self.edits.pending_edits.len();
        self.edits.pending_edits = Vec::new();
        self.edits.has_unsaved_changes = false;
        let mut msg = string_from("✓ Saved ");
        let d = decimal_string(edit_count as u64);
        push_str(&mut msg, d.as_str());
        push_str(&mut msg, " change");
        if edit_count != 1 {
            push_str(&mut msg, "s");
        }
        push_str(&mut msg, " to ");
        push_str(&mut msg, self.filename.as_str());
        proof {
            reveal_strlit("s");
        }
        assert(msg@ =~= "✓ Saved "@ + decimal(edit_count as nat) + " change"@ + crate::edits::plural(edit_count as nat) + " to "@ + self.filename@);
        self.status_message = Some(msg);
        result
    }
}

/// What executing `action` leaves to the driver.
pub open spec fn command_effect(action: CommandAction, unsaved: bool) -> CommandEffect {
    match action {
        CommandAction::SaveWidth => CommandEffect::SaveWidth,
        CommandAction::SaveFile => CommandEffect::SaveFile,
        CommandAction::Quit => if unsaved { CommandEffect::Continue } else { CommandEffect::Quit },
        _ => CommandEffect::Continue,
    }
}

impl App {
    /// After saving before quitting: quit when the save went through;
    /// otherwise report `✗ Save failed: <error>` and go back to normal mode.
    pub fn finish_save_and_quit(&mut self, saved: Result<(), String>) -> (quit: bool)
        ensures
            quit == saved is Ok,
            saved is Ok ==> *final(self) == *old(self),
            saved matches Err(e) ==> {
                &&& final(self).status_message matches Some(m) && m@ == "✗ Save failed: "@ + e@
                &&& *final(self) == (App { status_message: final(self).status_message, mode: AppMode::Normal, ..*old(self) })
            },
    {
        match saved {
            Ok(()) => true,
            Err(e) => {
                proof { reveal_strlit("✗ Save failed: "); }
                let mut m = string_from("✗ Save failed: ");
                push_str(&mut m, e.as_str());
                self.status_message = Some(m);
                self.mode = AppMode::Normal;
                false
            },
        }
    }

    /// After saving before navigating: carry out the waiting navigation
    /// when the save went through (see [`App::execute_pending_navigation`]);
    /// otherwise report `✗ Save failed: <error>`, drop the navigation and
    /// go back to normal mode.
    pub fn finish_save_and_navigate(&mut self, saved: Result<(), String>) -> (t: Option<Task>)
        requires
            old(self).wf(),
            old(self).history.file_history@.len() > 0 ==> document_wf(old(self).history.file_history@.last().document),
            old(self).history.file_future@.len() > 0 ==> document_wf(old(self).history.file_future@.last().document),
        ensures
            final(self).wf(),
            final(self).pending_navigation is None,
            saved matches Err(e) ==> {
                &&& t is None
                &&& final(self).status_message matches Some(m) && m@ == "✗ Save failed: "@ + e@
                &&& *final(self) == (App {
                    status_message: final(self).status_message,
                    mode: AppMode::Normal,
                    pending_navigation: None,
                    ..*old(self)
                })
            },
            saved is Ok ==> match old(self).pending_navigation {
                Some(PendingNavigation::LoadFile(p, a)) => t matches Some(Task::LoadFile(p2, a2)) && p2 == p && a2 == a,
                Some(PendingNavigation::Back) => t is None && (old(self).history.file_history@.len() > 0
                    ==> crate::history::went_back(*old(self), *final(self))),
                Some(PendingNavigation::Forward) => t is None && (old(self).history.file_future@.len() > 0
                    ==> crate::history::went_forward(*old(self), *final(self))),
                None => t is None && final(self).mode == AppMode::Normal,
            },
    {
        match saved {
            Ok(()) => self.execute_pending_navigation(),
            Err(e) => {
                proof { reveal_strlit("✗ Save failed: "); }
                let mut m = string_from("✗ Save failed: ");
                push_str(&mut m, e.as_str());
                self.status_message = Some(m);
                self.mode = AppMode::Normal;
                self.pending_navigation = None;
                None
            },
        }
    }
}

} // verus!
