//! Working on the displayed section: copying it or its anchor, keeping its
//! metrics, entering interactive mode, and the expiry of status messages.
//!
//! The clipboard and the markdown parser are the driver's: it copies the
//! text these functions hand out and reports back, and it parses the
//! displayed section into the blocks they take.

use vstd::prelude::*;
use crate::app::{App, AppMode, Layout, LinkPicker, Outline, displayed_spec, section_of, string_from};
use crate::blocks::{Block, LinkTarget, line_count, count_lines};
use crate::interactive::{index_upto, list_links_fit, reindexed_selection};
use crate::links::{heading_to_anchor, slug};
use crate::outline::{selected_text, lemma_lower_level_range};
use crate::app::entries;
use crate::text::{decimal, decimal_string, push_str};

verus! {

broadcast use vstd::string::group_string_axioms;

/// Why copying to the clipboard failed.
#[derive(Debug, Clone, PartialEq, Eq)]
pub enum ClipboardError {
    /// There is no clipboard.
    Unavailable,
    /// The clipboard refused the text with this error.
    Failed(String),
}

/// How a clipboard failure is reported.
pub open spec fn clipboard_failure(e: ClipboardError) -> Seq<char> {
    match e {
        ClipboardError::Unavailable => "✗ Clipboard not available"@,
        ClipboardError::Failed(m) => "✗ Clipboard error: "@ + m@,
    }
}

/// The selected heading's section, or why there is none to copy.
pub open spec fn section_to_copy(app: App) -> Result<Seq<char>, Seq<char>> {
    match selected_text(app.outline.items@, app.outline.selected) {
        None => Err("✗ No heading selected"@),
        Some(t) => match section_of(app.document, t) {
            None => Err("✗ Could not extract section"@),
            Some(s) => Ok(s),
        },
    }
}

impl App {
    /// Report a clipboard failure.
    fn report_clipboard_failure(&mut self, e: ClipboardError)
        ensures
            final(self).status_message matches Some(m) && m@ == clipboard_failure(e),
            *final(self) == (App { status_message: final(self).status_message, ..*old(self) }),
    {
        proof {
            reveal_strlit("✗ Clipboard not available");
            reveal_strlit("✗ Clipboard error: ");
        }
        let msg = match e {
            ClipboardError::Unavailable => string_from("✗ Clipboard not available"),
            ClipboardError::Failed(m) => {
                let mut s = string_from("✗ Clipboard error: ");
                push_str(&mut s, m.as_str());
                s
            },
        };
        self.status_message = Some(msg);
    }

    /// Start copying the selected heading's section: the text for the
    /// driver to put on the clipboard (then report with
    /// [`App::finish_copy_content`]), or `None` with the reason shown.
    pub fn copy_content(&mut self) -> (r: Option<String>)
        ensures
            match section_to_copy(*old(self)) {
                Ok(s) => r matches Some(t) && t@ == s && *final(self) == *old(self),
                Err(m) => {
                    &&& r is None
                    &&& final(self).status_message matches Some(x) && x@ == m
                    &&& *final(self) == (App { status_message: final(self).status_message, ..*old(self) })
                },
            },
    {
        proof {
            reveal_strlit("✗ No heading selected");
            reveal_strlit("✗ Could not extract section");
        }
        let section = match self.selected_heading_text() {
            None => {
                self.status_message = Some(string_from("✗ No heading selected"));
                return None;
            },
            Some(t) => self.document.extract_section(t),
        };
        match section {
            Some(s) => Some(s),
            None => {
                self.status_message = Some(string_from("✗ Could not extract section"));
                None
            },
        }
    }

    /// Report on copying the section: `✓ Section copied to clipboard`, or
    /// the failure.
    pub fn finish_copy_content(&mut self, copied: Result<(), ClipboardError>)
        ensures
            match copied {
                Ok(()) => final(self).status_message matches Some(m) && m@ == "✓ Section copied to clipboard"@,
                Err(e) => final(self).status_message matches Some(m) && m@ == clipboard_failure(e),
            },
            *final(self) == (App { status_message: final(self).status_message, ..*old(self) }),
    {
        match copied {
            Ok(()) => {
                proof { reveal_strlit("✓ Section copied to clipboard"); }
                self.status_message = Some(string_from("✓ Section copied to clipboard"));
            },
            Err(e) => self.report_clipboard_failure(e),
        }
    }

    /// Start copying the selected heading's anchor link: `#<slug>` for the
    /// driver to put on the clipboard (then report with
    /// [`App::finish_copy_anchor`]), or `None` with `✗ No heading selected`.
    pub fn copy_anchor(&mut self) -> (r: Option<String>)
        ensures
            match selected_text(old(self).outline.items@, old(self).outline.selected) {
                Some(t) => r matches Some(l) && l@ == "#"@ + slug(t) && *final(self) == *old(self),
                None => {
                    &&& r is None
                    &&& final(self).status_message matches Some(x) && x@ == "✗ No heading selected"@
                    &&& *final(self) == (App { status_message: final(self).status_message, ..*old(self) })
                },
            },
    {
        proof {
            reveal_strlit("✗ No heading selected");
            reveal_strlit("#");
        }
        match self.selected_heading_text() {
            None => {
                self.status_message = Some(string_from("✗ No heading selected"));
                None
            },
            Some(t) => {
                let anchor = heading_to_anchor(t);
                let mut link = string_from("#");
                push_str(&mut link, anchor.as_str());
                Some(link)
            },
        }
    }

    /// Report on copying the anchor link `link` (`#<anchor>`): `✓ Anchor
    /// link copied: #<anchor>`, or the failure.
    pub fn finish_copy_anchor(&mut self, link: &str, copied: Result<(), ClipboardError>)
        ensures
            match copied {
                Ok(()) => final(self).status_message matches Some(m) && m@ == "✓ Anchor link copied: "@ + link@,
                Err(e) => final(self).status_message matches Some(m) && m@ == clipboard_failure(e),
            },
            *final(self) == (App { status_message: final(self).status_message, ..*old(self) }),
    {
        match copied {
            Ok(()) => {
                proof { reveal_strlit("✓ Anchor link copied: "); }
                let mut m = string_from("✓ Anchor link copied: ");
                push_str(&mut m, link);
                self.status_message = Some(m);
            },
            Err(e) => self.report_clipboard_failure(e),
        }
    }

    /// Keep the content metrics of the displayed section: when the
    /// selected heading changed, scroll back to the top, remember the
    /// selection and index the interactive elements of `blocks` (the
    /// parsed displayed section); the content height is its number of
    /// lines.
    pub fn update_content_metrics(&mut self, blocks: &[Block])
        requires
            index_upto(blocks@, blocks@.len() as int, old(self).interactive_state.states()).2 <= usize::MAX,
            list_links_fit(blocks@),
        ensures
            ({
                let sel = selected_text(old(self).outline.items@, old(self).outline.selected);
                let prev = match old(self).outline.previous_selection {
                    Some(p) => Some(p@),
                    None => None,
                };
                let changed = sel != prev;
                &&& final(self).layout == (Layout {
                    content_scroll: if changed { 0 } else { old(self).layout.content_scroll },
                    content_height: line_count(displayed_spec(*old(self))) as u16,
                    ..old(self).layout
                })
                &&& changed ==> {
                    &&& final(self).interactive_state.element_views()
                        == index_upto(blocks@, blocks@.len() as int, old(self).interactive_state.states()).0
                    &&& final(self).interactive_state.current_index
                        == reindexed_selection(old(self).interactive_state.current_index, final(self).interactive_state.elements@.len())
                    &&& (match final(self).outline.previous_selection {
                        Some(p) => sel == Some(p@),
                        None => sel is None,
                    })
                }
                &&& !changed ==> final(self).interactive_state == old(self).interactive_state
                    && final(self).outline == old(self).outline
                &&& *final(self) == (App {
                    layout: final(self).layout,
                    interactive_state: final(self).interactive_state,
                    outline: Outline { previous_selection: final(self).outline.previous_selection, ..old(self).outline },
                    ..*old(self)
                })
            }),
    {
        let changed = match (self.selected_heading_text(), &self.outline.previous_selection) {
            (Some(t), Some(p)) => !crate::text::str_eq(t, p.as_str()),
            (None, None) => false,
            _ => true,
        };
        let content = self.displayed_content();
        if changed {
            self.layout.content_scroll = 0;
            self.sync_previous_selection();
            self.interactive_state.index_elements(blocks);
        }
        let lines = count_lines(content.as_str());
        self.layout.content_height = lines as u16;
    }

    /// Enter interactive mode over the elements of `blocks` (the parsed
    /// displayed section), leaving raw source view: the first element is
    /// selected and scrolled into view, and the number of elements (or
    /// that there is none) is shown.
    pub fn enter_interactive_mode(&mut self, blocks: &[Block])
        requires
            index_upto(blocks@, blocks@.len() as int, old(self).interactive_state.states()).2 <= usize::MAX,
            list_links_fit(blocks@),
        ensures
            !final(self).layout.show_raw_source,
            final(self).mode == AppMode::Interactive,
            final(self).interactive_state.element_views()
                == index_upto(blocks@, blocks@.len() as int, old(self).interactive_state.states()).0,
            final(self).interactive_state.elements@.len() > 0 ==> final(self).interactive_state.current_index == Some(0usize),
            final(self).status_message matches Some(m) && m@ == (if final(self).interactive_state.elements@.len() == 0 {
                "⚠ No interactive elements in this section"@
            } else {
                "✓ Interactive mode: "@ + decimal(final(self).interactive_state.elements@.len())
                    + " elements found (Tab to cycle)"@
            }),
            final(self).outline == old(self).outline,
            final(self).document == old(self).document,
            final(self).links == old(self).links,
    {
        proof {
            reveal_strlit("⚠ No interactive elements in this section");
            reveal_strlit("✓ Interactive mode: ");
            reveal_strlit(" elements found (Tab to cycle)");
        }
        self.layout.show_raw_source = false;
        self.interactive_state.index_elements(blocks);
        self.interactive_state.enter();
        self.mode = AppMode::Interactive;
        let viewport = self.layout.content_viewport_height;
        self.scroll_to_interactive_element(viewport);
        let n = self.interactive_state.elements.len();
        if n == 0 {
            self.status_message = Some(string_from("⚠ No interactive elements in this section"));
        } else {
            let mut m = string_from("✓ Interactive mode: ");
            push_str(&mut m, decimal_string(n as u64).as_str());
            push_str(&mut m, " elements found (Tab to cycle)");
            self.status_message = Some(m);
        }
    }

    /// Clear a timed status message once a second has passed since it was
    /// set (`elapsed_ms` is the time since then, if one is running).
    /// Returns whether it was cleared.
    pub fn clear_expired_status_message(&mut self, elapsed_ms: Option<u64>) -> (cleared: bool)
        ensures
            cleared == (elapsed_ms matches Some(e) && e >= 1000),
            cleared ==> *final(self) == (App { status_message: None, ..*old(self) }),
            !cleared ==> *final(self) == *old(self),
    {
        match elapsed_ms {
            Some(e) => {
                if e >= 1000 {
                    self.status_message = None;
                    true
                } else {
                    false
                }
            },
            None => false,
        }
    }
}

impl App {
    /// In link follow mode, move to the parent of the selected heading so
    /// that its links can be listed: returns whether it moved (the driver
    /// then extracts the links of the newly displayed section and hands
    /// them to [`App::set_parent_links`]); at a top-level heading
    /// `⚠ Already at top-level heading` is shown.
    pub fn jump_to_parent_links(&mut self) -> (moved: bool)
        ensures
            ({
                let o = old(self);
                if o.mode == AppMode::LinkFollow && o.outline.selected is Some && o.outline.selected->0 < o.outline.items@.len() {
                    let i = o.outline.selected->0;
                    match crate::outline::parent_index(entries(o.outline.items@), i as int) {
                        Some(p) => moved && *final(self) == o.with_selected(Some(p as usize)),
                        None => {
                            &&& !moved
                            &&& final(self).status_message matches Some(m) && m@ == "⚠ Already at top-level heading"@
                            &&& *final(self) == (App { status_message: final(self).status_message, ..*o })
                        },
                    }
                } else {
                    !moved && *final(self) == *o
                }
            }),
    {
        if self.mode != AppMode::LinkFollow {
            return false;
        }
        if let Some(current_idx) = self.outline.selected {
            if current_idx < self.outline.items.len() {
                match self.parent_of(current_idx) {
                    Some(p) => {
                        proof {
                            lemma_lower_level_range(entries(self.outline.items@), self.outline.items@[current_idx as int].level, current_idx - 1);
                        }
                        self.select_outline_index(p);
                        return true;
                    },
                    None => {
                        proof { reveal_strlit("⚠ Already at top-level heading"); }
                        self.status_message = Some(string_from("⚠ Already at top-level heading"));
                        return false;
                    },
                }
            }
        }
        false
    }

    /// The links of the parent's section, after [`App::jump_to_parent_links`]
    /// moved: they replace the listed links (the filter is kept), the
    /// first is selected, and their number is shown.
    pub fn set_parent_links(&mut self, link_texts: Vec<String>, link_targets: Vec<String>, link_destinations: Vec<LinkTarget>)
        ensures
            final(self).links == (LinkPicker {
                link_texts,
                link_targets,
                link_destinations,
                selected_link_idx: if link_texts@.len() > 0 { Some(0usize) } else { None },
                ..old(self).links
            }),
            final(self).status_message matches Some(m) && m@ == (if link_texts@.len() > 0 {
                "✓ Jumped to parent ("@ + decimal(link_texts@.len()) + " links found)"@
            } else {
                "⚠ Parent has no links"@
            }),
            *final(self) == (App { links: final(self).links, status_message: final(self).status_message, ..*old(self) }),
    {
        proof {
            reveal_strlit("✓ Jumped to parent (");
            reveal_strlit(" links found)");
            reveal_strlit("⚠ Parent has no links");
        }
        let n = link_texts.len();
        self.links.link_texts = link_texts;
        self.links.link_targets = link_targets;
        self.links.link_destinations = link_destinations;
        if n > 0 {
            self.links.selected_link_idx = Some(0);
            let mut m = string_from("✓ Jumped to parent (");
            push_str(&mut m, decimal_string(n as u64).as_str());
            push_str(&mut m, " links found)");
            self.status_message = Some(m);
        } else {
            self.links.selected_link_idx = None;
            self.status_message = Some(string_from("⚠ Parent has no links"));
        }
    }
}

/// What is kept across a reload of the current file.
#[derive(Debug, Clone, Copy, PartialEq, Eq, Structural)]
pub struct ReloadSnapshot {
    pub was_interactive: bool,
    pub content_scroll: u16,
    pub element_index: Option<usize>,
}

/// Why a reload was made, which decides what is restored and shown.
#[derive(Debug, Clone, Copy, PartialEq, Eq, Structural)]
pub enum ReloadReason {
    /// The file changed on disk.
    ExternalChange,
    /// A checkbox was toggled and saved (it was checked before when the
    /// flag is set).
    CheckboxSaved(bool),
}

/// The state after restoring a snapshot over freshly indexed `blocks`.
pub open spec fn restored(old: App, new: App, snap: ReloadSnapshot, blocks: Seq<Block>, reason: ReloadReason) -> bool {
    let reindex = match reason {
        ReloadReason::ExternalChange => snap.was_interactive,
        ReloadReason::CheckboxSaved(_) => true,
    };
    let limit: int = if old.layout.content_height > 0 { old.layout.content_height - 1 } else { 0 };
    &&& reindex ==> new.interactive_state.element_views()
        == index_upto(blocks, blocks.len() as int, old.interactive_state.states()).0
    &&& reindex ==> new.interactive_state.current_index == (match snap.element_index {
        Some(i) => if i < new.interactive_state.elements@.len() {
            Some(i)
        } else {
            reindexed_selection(old.interactive_state.current_index, new.interactive_state.elements@.len())
        },
        None => reindexed_selection(old.interactive_state.current_index, new.interactive_state.elements@.len()),
    })
    &&& !reindex ==> new.interactive_state == old.interactive_state
    &&& new.layout == (Layout {
        content_scroll: (if snap.content_scroll <= limit { snap.content_scroll as int } else { limit }) as u16,
        ..old.layout
    })
    &&& (match selected_text(old.outline.items@, old.outline.selected) {
        Some(t) => new.outline.previous_selection matches Some(p) && p@ == t,
        None => new.outline.previous_selection is None,
    })
    &&& new.outline == (Outline { previous_selection: new.outline.previous_selection, ..old.outline })
    &&& new.suppress_file_watch == (old.suppress_file_watch || reason is CheckboxSaved)
    &&& new.status_message matches Some(m) && m@ == (match reason {
        ReloadReason::ExternalChange => "↻ File reloaded (external change)"@,
        ReloadReason::CheckboxSaved(checked) => if checked {
            "✓ Checkbox unchecked and saved"@
        } else {
            "✓ Checkbox checked and saved"@
        },
    })
    &&& new == (App {
        interactive_state: new.interactive_state,
        layout: new.layout,
        outline: new.outline,
        suppress_file_watch: new.suppress_file_watch,
        status_message: new.status_message,
        ..old
    })
}

impl App {
    /// What to keep across a reload: whether interactive mode is on, the
    /// scroll position and the selected element.
    pub fn reload_snapshot(&self) -> (s: ReloadSnapshot)
        ensures
            s == (ReloadSnapshot {
                was_interactive: self.mode == AppMode::Interactive,
                content_scroll: self.layout.content_scroll,
                element_index: self.interactive_state.current_index,
            }),
    {
        ReloadSnapshot {
            was_interactive: self.mode == AppMode::Interactive,
            content_scroll: self.layout.content_scroll,
            element_index: self.interactive_state.current_index,
        }
    }

    /// Report a failed reload after an external change: `✗ Reload failed: <error>`.
    pub fn report_reload_failure(&mut self, error: &str)
        ensures
            final(self).status_message matches Some(m) && m@ == "✗ Reload failed: "@ + error@,
            *final(self) == (App { status_message: final(self).status_message, ..*old(self) }),
    {
        proof { reveal_strlit("✗ Reload failed: "); }
        let mut m = string_from("✗ Reload failed: ");
        push_str(&mut m, error);
        self.status_message = Some(m);
    }

    /// After the current file was reloaded ([`App::reload_current_file`]):
    /// index the elements of `blocks` (the parsed displayed section) again
    /// when interactive mode was on or a checkbox was saved, keeping the
    /// selected element when it still exists; keep the scroll position
    /// within the content; remember the selection; and report.
    #[verifier::rlimit(50)]
    pub fn restore_after_reload(&mut self, snapshot: ReloadSnapshot, blocks: &[Block], reason: ReloadReason)
        requires
            index_upto(blocks@, blocks@.len() as int, old(self).interactive_state.states()).2 <= usize::MAX,
            list_links_fit(blocks@),
        ensures
            restored(*old(self), *final(self), snapshot, blocks@, reason),
    {
        proof {
            reveal_strlit("↻ File reloaded (external change)");
            reveal_strlit("✓ Checkbox unchecked and saved");
            reveal_strlit("✓ Checkbox checked and saved");
        }
        let reindex = match reason {
            ReloadReason::ExternalChange => snapshot.was_interactive,
            ReloadReason::CheckboxSaved(_) => true,
        };
        if reindex {
            self.interactive_state.index_elements(blocks);
            if let Some(idx) = snapshot.element_index {
                if idx < self.interactive_state.elements.len() {
                    self.interactive_state.current_index = Some(idx);
                }
            }
        }
        let limit: u16 = if self.layout.content_height > 0 { self.layout.content_height - 1 } else { 0 };
        self.layout.content_scroll = if snapshot.content_scroll <= limit { snapshot.content_scroll } else { limit };
        self.sync_previous_selection();
        match reason {
            ReloadReason::ExternalChange => {
                self.status_message = Some(string_from("↻ File reloaded (external change)"));
            },
            ReloadReason::CheckboxSaved(checked) => {
                self.suppress_file_watch = true;
                self.status_message = Some(if checked {
                    string_from("✓ Checkbox unchecked and saved")
                } else {
                    string_from("✓ Checkbox checked and saved")
                });
            },
        }
    }

    /// Whether the file watcher's next events come from this program's own
    /// save; the flag is cleared (the driver then drains the events).
    pub fn take_watch_suppression(&mut self) -> (suppressed: bool)
        ensures
            suppressed == old(self).suppress_file_watch,
            *final(self) == (App { suppress_file_watch: false, ..*old(self) }),
    {
        let s = self.suppress_file_watch;
        self.suppress_file_watch = false;
        s
    }

    /// Whether the current file changed since the watcher last followed
    /// it; the flag is cleared.
    pub fn take_file_path_changed(&mut self) -> (changed: bool)
        ensures
            changed == old(self).file_path_changed,
            *final(self) == (App { file_path_changed: false, ..*old(self) }),
    {
        let c = self.file_path_changed;
        self.file_path_changed = false;
        c
    }
}

} // verus!
