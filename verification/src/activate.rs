//! Activating the selected element of interactive mode.

use vstd::prelude::*;
use crate::app::{App, string_from};
use crate::blocks::{Block, Link, LinkTarget};
use crate::content::{ClipboardError, ReloadSnapshot};
use crate::interactive::{
    DetailMode, ElementKind, ElementState, ElementType, InteractiveState, index_upto, list_links_fit,
    reindexed_selection, table_status_spec,
};
use crate::links::{LinkStep, PathInfo, interactive_follow};
use crate::text::push_str;

verus! {

broadcast use vstd::string::group_string_axioms;

/// What activating an element leaves to the driver.
#[derive(Debug)]
pub enum ElementStep {
    /// Nothing: the state shows the outcome.
    Done,
    /// Parse the displayed section again and hand its blocks to
    /// [`App::reindex_interactive_elements`].
    Reindex,
    /// Toggle the checkbox with this text in the file (it was checked when
    /// `checked` is set) with [`crate::checkbox::toggle_checkbox_by_content`],
    /// save the file, reload it ([`App::reload_current_file`]) and restore
    /// `snapshot` ([`App::restore_after_reload`]).
    ToggleCheckbox { content: String, checked: bool, snapshot: ReloadSnapshot },
    /// What following the link leaves to the driver.
    Link(LinkStep),
    /// Put this code on the clipboard and report with [`App::finish_copy_code`].
    CopyCode(String),
    /// Show this image full screen.
    ViewImage(String),
}

/// The selected element's view, if an element is selected.
pub open spec fn current_kind(st: InteractiveState) -> Option<ElementKind> {
    match st.current_index {
        Some(i) => if i < st.elements@.len() { Some(st.elements@[i as int].element_type@) } else { None },
        None => None,
    }
}

/// A table element's selected cell is within bounds for the status line.
pub open spec fn current_table_cursor_ok(st: InteractiveState) -> bool {
    match st.current_index {
        Some(i) => i < st.elements@.len() ==> match st.state_of(st.elements@[i as int].id) {
            Some(ElementState::Table { selected_row, selected_col }) => selected_row < usize::MAX && selected_col < usize::MAX,
            _ => true,
        },
        None => true,
    }
}

/// `📸 Viewing: <alt> (Esc:Close)`
pub open spec fn viewing_message(alt: Seq<char>) -> Seq<char> {
    "📸 Viewing: "@ + alt + " (Esc:Close)"@
}

impl App {
    /// Activate the selected element of interactive mode: a details block
    /// is toggled (its section is then indexed again), a checkbox is
    /// toggled in the file, a link is followed (see
    /// [`App::follow_link_from_interactive`]), a code block is copied, an
    /// image is shown (when images are enabled), a table enters table mode.
    pub fn activate_interactive_element(&mut self, facts: &Vec<(String, PathInfo)>, images_enabled: bool) -> (r: Result<ElementStep, String>)
        requires
            current_table_cursor_ok(old(self).interactive_state),
        ensures
            match current_kind(old(self).interactive_state) {
                None => r matches Err(e) && e@ == "No element selected"@ && *final(self) == *old(self),
                Some(ElementKind::Details { .. }) => {
                    let id = old(self).interactive_state.elements@[old(self).interactive_state.current_index->0 as int].id;
                    &&& r matches Ok(ElementStep::Reindex)
                    &&& final(self).interactive_state.states() == match old(self).interactive_state.state_of(id) {
                        Some(ElementState::Details { expanded }) => old(self).interactive_state.states().insert(id, ElementState::Details { expanded: !expanded }),
                        _ => old(self).interactive_state.states(),
                    }
                    &&& final(self).interactive_state.elements == old(self).interactive_state.elements
                    &&& final(self).interactive_state.current_index == old(self).interactive_state.current_index
                    &&& final(self).status_message matches Some(m) && m@ == "✓ Toggled details"@
                    &&& *final(self) == (App { interactive_state: final(self).interactive_state, status_message: final(self).status_message, ..*old(self) })
                },
                Some(ElementKind::Checkbox { content, checked, .. }) => {
                    &&& r matches Ok(ElementStep::ToggleCheckbox { content: c, checked: k, snapshot: s })
                        && c@ == content && k == checked && s == old(self).reload_snapshot_spec()
                    &&& *final(self) == *old(self)
                },
                Some(ElementKind::Link { target, .. }) => exists|t: LinkTarget, r1: Result<LinkStep, String>|
                    t@ == target && #[trigger] interactive_follow(*old(self), *final(self), r1, t, facts@)
                    && match r1 {
                        Ok(step) => r matches Ok(ElementStep::Link(s)) && s == step,
                        Err(e) => r == Err::<ElementStep, String>(e),
                    },
                Some(ElementKind::CodeBlock { content, .. }) => r matches Ok(ElementStep::CopyCode(c)) && c@ == content && *final(self) == *old(self),
                Some(ElementKind::Image { alt, src, .. }) => if images_enabled {
                    &&& r matches Ok(ElementStep::ViewImage(s)) && s@ == src
                    &&& final(self).status_message matches Some(m) && m@ == viewing_message(alt)
                    &&& *final(self) == (App { status_message: final(self).status_message, ..*old(self) })
                } else {
                    &&& r matches Ok(ElementStep::Done)
                    &&& final(self).status_message matches Some(m) && m@ == "Images disabled (use --images or config to enable)"@
                    &&& *final(self) == (App { status_message: final(self).status_message, ..*old(self) })
                },
                Some(ElementKind::Table { .. }) => {
                    let i = old(self).interactive_state.current_index->0;
                    &&& r matches Ok(ElementStep::Done)
                    &&& final(self).interactive_state.detail_mode == Some(DetailMode::Table { element_idx: i })
                    &&& final(self).interactive_state.elements == old(self).interactive_state.elements
                    &&& final(self).interactive_state.element_states == old(self).interactive_state.element_states
                    &&& final(self).interactive_state.current_index == old(self).interactive_state.current_index
                    &&& final(self).status_message matches Some(m) && m@ == table_status_spec(final(self).interactive_state.table_cursor())
                    &&& *final(self) == (App { interactive_state: final(self).interactive_state, status_message: final(self).status_message, ..*old(self) })
                },
            },
    {
        proof {
            reveal_strlit("No element selected");
            reveal_strlit("✓ Toggled details");
            reveal_strlit("📸 Viewing: ");
            reveal_strlit(" (Esc:Close)");
            reveal_strlit("Images disabled (use --images or config to enable)");
        }
        let idx = match self.interactive_state.current_index {
            Some(i) => if i < self.interactive_state.elements.len() { i } else { return Err(string_from("No element selected")) },
            None => return Err(string_from("No element selected")),
        };
        let id = self.interactive_state.elements[idx].id;
        match &self.interactive_state.elements[idx].element_type {
            ElementType::Details { .. } => {
                self.interactive_state.toggle_details(id);
                self.status_message = Some(string_from("✓ Toggled details"));
                Ok(ElementStep::Reindex)
            },
            ElementType::Checkbox { content, checked, .. } => {
                let snapshot = self.reload_snapshot();
                Ok(ElementStep::ToggleCheckbox { content: content.clone(), checked: *checked, snapshot })
            },
            ElementType::Link { link, .. } => {
                let link = Link::new(link.text.clone(), copy_link_target(&link.target), link.offset);
                match self.follow_link_from_interactive(&link, facts) {
                    Ok(step) => Ok(ElementStep::Link(step)),
                    Err(e) => Err(e),
                }
            },
            ElementType::CodeBlock { content, .. } => Ok(ElementStep::CopyCode(content.clone())),
            ElementType::Image { alt, src, .. } => {
                if images_enabled {
                    let mut m = string_from("📸 Viewing: ");
                    push_str(&mut m, alt.as_str());
                    push_str(&mut m, " (Esc:Close)");
                    let s = src.clone();
                    self.status_message = Some(m);
                    Ok(ElementStep::ViewImage(s))
                } else {
                    self.status_message = Some(string_from("Images disabled (use --images or config to enable)"));
                    Ok(ElementStep::Done)
                }
            },
            ElementType::Table { rows, cols, .. } => {
                let rows = *rows;
                let cols = *cols;
                let _ = self.interactive_state.enter_table_mode();
                let total = if rows < usize::MAX { rows + 1 } else { rows };
                let m = self.interactive_state.table_status_text(total, cols);
                self.status_message = Some(m);
                Ok(ElementStep::Done)
            },
        }
    }

    /// What [`App::reload_snapshot`] takes.
    pub open spec fn reload_snapshot_spec(self) -> ReloadSnapshot {
        ReloadSnapshot {
            was_interactive: self.mode == crate::app::AppMode::Interactive,
            content_scroll: self.layout.content_scroll,
            element_index: self.interactive_state.current_index,
        }
    }

    /// Index the interactive elements of `blocks` (the parsed displayed
    /// section) again, keeping the element states.
    pub fn reindex_interactive_elements(&mut self, blocks: &[Block])
        requires
            index_upto(blocks@, blocks@.len() as int, old(self).interactive_state.states()).2 <= usize::MAX,
            list_links_fit(blocks@),
        ensures
            final(self).interactive_state.element_views() == index_upto(blocks@, blocks@.len() as int, old(self).interactive_state.states()).0,
            final(self).interactive_state.states() == index_upto(blocks@, blocks@.len() as int, old(self).interactive_state.states()).1,
            final(self).interactive_state.current_index
                == reindexed_selection(old(self).interactive_state.current_index, final(self).interactive_state.elements@.len()),
            final(self).interactive_state.detail_mode == old(self).interactive_state.detail_mode,
            *final(self) == (App { interactive_state: final(self).interactive_state, ..*old(self) }),
    {
        self.interactive_state.index_elements(blocks);
    }

    /// Report on copying a code block: `✓ Code copied to clipboard`, or the
    /// failure as the error `Clipboard not available` or `Clipboard error: <error>`.
    pub fn finish_copy_code(&mut self, copied: Result<(), ClipboardError>) -> (r: Result<(), String>)
        ensures
            match copied {
                Ok(()) => {
                    &&& r is Ok
                    &&& final(self).status_message matches Some(m) && m@ == "✓ Code copied to clipboard"@
                    &&& *final(self) == (App { status_message: final(self).status_message, ..*old(self) })
                },
                Err(ClipboardError::Unavailable) => r matches Err(e) && e@ == "Clipboard not available"@ && *final(self) == *old(self),
                Err(ClipboardError::Failed(m)) => r matches Err(e) && e@ == "Clipboard error: "@ + m@ && *final(self) == *old(self),
            },
    {
        proof {
            reveal_strlit("✓ Code copied to clipboard");
            reveal_strlit("Clipboard not available");
            reveal_strlit("Clipboard error: ");
        }
        match copied {
            Ok(()) => {
                self.status_message = Some(string_from("✓ Code copied to clipboard"));
                Ok(())
            },
            Err(ClipboardError::Unavailable) => Err(string_from("Clipboard not available")),
            Err(ClipboardError::Failed(m)) => {
                let mut e = string_from("Clipboard error: ");
                push_str(&mut e, m.as_str());
                Err(e)
            },
        }
    }

    /// Report an error of an action: `✗ Error: <message>`.
    pub fn report_error(&mut self, message: &str)
        ensures
            final(self).status_message matches Some(m) && m@ == "✗ Error: "@ + message@,
            *final(self) == (App { status_message: final(self).status_message, ..*old(self) }),
    {
        proof { reveal_strlit("✗ Error: "); }
        let mut m = string_from("✗ Error: ");
        push_str(&mut m, message);
        self.status_message = Some(m);
    }
}

/// A copy of a link target.
fn copy_link_target(t: &LinkTarget) -> (c: LinkTarget)
    ensures
        c@ == t@,
{
    match t {
        LinkTarget::Anchor(a) => LinkTarget::Anchor(a.clone()),
        LinkTarget::RelativeFile { path, anchor } => LinkTarget::RelativeFile {
            path: path.clone(),
            anchor: match anchor {
                Some(a) => Some(a.clone()),
                None => None,
            },
        },
        LinkTarget::WikiLink { target } => LinkTarget::WikiLink { target: target.clone() },
        LinkTarget::External(u) => LinkTarget::External(u.clone()),
    }
}

} // verus!
