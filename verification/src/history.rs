//! Loading documents and moving back and forward through the files visited.

use vstd::prelude::*;
use crate::app::{
    App, Document, FileState, History, HeadingNode, Layout, Outline, document_wf, entries,
    outline_spec, shows_overview, string_from, text_set,
};
use crate::blocks::{count_lines, line_count};
use crate::outline::{first_text_index, selected_text};
use crate::links::{file_name_of, path_file_name};
use crate::text::str_eq;

verus! {

broadcast use vstd::string::group_string_axioms;

impl App {
    /// The state saved for the current file: path, document, tree, name,
    /// selected heading, scroll and selected row. The document and tree move
    /// into it; this state keeps empty ones until a document is loaded.
    fn take_current_state(&mut self) -> (st: FileState)
        ensures
            st.path == old(self).current_file_path,
            st.document == old(self).document,
            st.tree == old(self).tree,
            st.filename == old(self).filename,
            match selected_text(old(self).outline.items@, old(self).outline.selected) {
                Some(t) => st.selected_heading matches Some(h) && h@ == t,
                None => st.selected_heading is None,
            },
            st.content_scroll == old(self).layout.content_scroll,
            st.outline_state_selected == old(self).outline.selected,
            final(self).outline == old(self).outline,
            final(self).layout == old(self).layout,
            final(self).files == old(self).files,
            final(self).history == old(self).history,
            final(self).edits == old(self).edits,
            final(self).mode == old(self).mode,
            final(self).pending_navigation == old(self).pending_navigation,
            final(self).current_file_path == old(self).current_file_path,
            final(self).filename == old(self).filename,
            final(self).document.headings@.len() == 0,
            final(self).tree@.len() == 0,
            *final(self) == (App { document: final(self).document, tree: final(self).tree, ..*old(self) }),
    {
        let selected_heading = match self.selected_heading_text() {
            Some(t) => Some(string_from(t)),
            None => None,
        };
        let mut document = Document { content: String::new(), headings: Vec::new(), sections: Vec::new() };
        std::mem::swap(&mut document, &mut self.document);
        let mut tree: Vec<HeadingNode> = Vec::new();
        std::mem::swap(&mut tree, &mut self.tree);
        FileState {
            path: self.current_file_path.clone(),
            document,
            tree,
            filename: self.filename.clone(),
            selected_heading,
            content_scroll: self.layout.content_scroll,
            outline_state_selected: self.outline.selected,
        }
    }

    /// Load a new document (with its heading tree) and reset the outline
    /// and scrolling; a different path tells the file watcher to follow it.
    pub fn load_document(&mut self, document: Document, tree: Vec<HeadingNode>, filename: String, path: String)
        requires
            old(self).wf(),
            document_wf(document),
        ensures
            final(self).ready(),
            final(self).document == document,
            final(self).tree == tree,
            final(self).filename == filename,
            final(self).current_file_path == path,
            final(self).file_path_changed == (old(self).file_path_changed || old(self).current_file_path@ != path@),
            entries(final(self).outline.items@) == crate::todos::shown_outline(tree@, text_set(old(self).outline.collapsed_headings@), document, old(self).outline.filter_by_todos),
            final(self).outline == (Outline {
                items: final(self).outline.items,
                selected: if final(self).outline.items@.len() > 0 { Some(0usize) } else { None },
                previous_selection: None,
                ..old(self).outline
            }),
            final(self).layout == (Layout {
                content_scroll: 0,
                content_height: line_count(document.content@) as u16,
                ..old(self).layout
            }),
            final(self).history == old(self).history,
            final(self).edits == old(self).edits,
            final(self).mode == old(self).mode,
            final(self).pending_navigation == old(self).pending_navigation,
            *final(self) == (App {
                document: final(self).document,
                filename: final(self).filename,
                current_file_path: final(self).current_file_path,
                file_path_changed: final(self).file_path_changed,
                tree: final(self).tree,
                outline: final(self).outline,
                layout: final(self).layout,
                ..*old(self)
            }),
    {
        if !str_eq(self.current_file_path.as_str(), path.as_str()) {
            self.file_path_changed = true;
        }
        let content_lines = count_lines(document.content.as_str());
        self.document = document;
        self.filename = filename;
        self.current_file_path = path;
        self.tree = tree;
        self.rebuild_outline_items();
        self.outline.selected = if self.outline.items.len() > 0 { Some(0) } else { None };
        self.layout.content_scroll = 0;
        self.layout.content_height = content_lines as u16;
        self.outline.previous_selection = None;
    }

    /// Restore a file state from history: its document, then its selected
    /// row (when still in the outline) and scroll position.
    pub fn restore_file_state(&mut self, state: FileState)
        requires
            old(self).wf(),
            document_wf(state.document),
        ensures
            final(self).ready(),
            final(self).document == state.document,
            final(self).tree == state.tree,
            final(self).filename == state.filename,
            final(self).current_file_path == state.path,
            entries(final(self).outline.items@) == crate::todos::shown_outline(state.tree@, text_set(old(self).outline.collapsed_headings@), state.document, old(self).outline.filter_by_todos),
            final(self).outline.selected == (match state.outline_state_selected {
                Some(i) => if i < final(self).outline.items@.len() { Some(i) } else if final(self).outline.items@.len() > 0 { Some(0usize) } else { None },
                None => if final(self).outline.items@.len() > 0 { Some(0usize) } else { None },
            }),
            final(self).outline.collapsed_headings == old(self).outline.collapsed_headings,
            final(self).layout == (Layout {
                content_scroll: state.content_scroll,
                content_height: line_count(state.document.content@) as u16,
                ..old(self).layout
            }),
            final(self).history == old(self).history,
            final(self).edits == old(self).edits,
            final(self).mode == old(self).mode,
            final(self).pending_navigation == old(self).pending_navigation,
    {
        let FileState { path, document, tree, filename, selected_heading: _, content_scroll, outline_state_selected } = state;
        self.load_document(document, tree, filename, path);
        if let Some(selected_idx) = outline_state_selected {
            if selected_idx < self.outline.items.len() {
                self.select_outline_index(selected_idx);
            }
        }
        self.layout.content_scroll = content_scroll;
    }

    /// Navigate back in file history: the current file goes on the forward
    /// stack and the last file of the back stack is restored.
    pub fn go_back(&mut self) -> (r: Result<(), String>)
        requires
            old(self).wf(),
            old(self).history.file_history@.len() > 0 ==> document_wf(old(self).history.file_history@.last().document),
        ensures
            final(self).wf(),
            old(self).history.file_history@.len() > 0 ==> final(self).ready(),
            old(self).history.file_history@.len() == 0 ==> (r matches Err(e) && e@ == "No previous file in history"@ && *final(self) == *old(self)),
            old(self).history.file_history@.len() > 0 ==> r is Ok && went_back(*old(self), *final(self)),
            final(self).edits == old(self).edits,
            final(self).mode == old(self).mode,
            final(self).pending_navigation == old(self).pending_navigation,
    {
        if self.history.file_history.len() == 0 {
            return Err(string_from("No previous file in history"));
        }
        let previous_state = self.history.file_history.pop().unwrap();
        let current_state = self.take_current_state();
        self.history.file_future.push(current_state);
        assert(self.history.file_future@.drop_last() =~= old(self).history.file_future@);
        self.restore_file_state(previous_state);
        Ok(())
    }

    /// Navigate forward in file history: the current file goes on the back
    /// stack and the last file of the forward stack is restored.
    pub fn go_forward(&mut self) -> (r: Result<(), String>)
        requires
            old(self).wf(),
            old(self).history.file_future@.len() > 0 ==> document_wf(old(self).history.file_future@.last().document),
        ensures
            final(self).wf(),
            old(self).history.file_future@.len() > 0 ==> final(self).ready(),
            old(self).history.file_future@.len() == 0 ==> (r matches Err(e) && e@ == "No next file in history"@ && *final(self) == *old(self)),
            old(self).history.file_future@.len() > 0 ==> r is Ok && went_forward(*old(self), *final(self)),
            final(self).edits == old(self).edits,
            final(self).mode == old(self).mode,
            final(self).pending_navigation == old(self).pending_navigation,
    {
        if self.history.file_future.len() == 0 {
            return Err(string_from("No next file in history"));
        }
        let next_state = self.history.file_future.pop().unwrap();
        let current_state = self.take_current_state();
        self.history.file_history.push(current_state);
        assert(self.history.file_history@.drop_last() =~= old(self).history.file_history@);
        self.restore_file_state(next_state);
        Ok(())
    }

    /// Save the current state to history before navigating to another
    /// file (the caller loads the new document next); the forward history
    /// is cleared.
    pub fn save_to_history(&mut self)
        requires
            old(self).wf(),
        ensures
            final(self).history.file_history@.len() == old(self).history.file_history@.len() + 1,
            final(self).history.file_history@.drop_last() == old(self).history.file_history@,
            final(self).history.file_history@.last().document == old(self).document,
            final(self).history.file_history@.last().path == old(self).current_file_path,
            final(self).history.file_history@.last().content_scroll == old(self).layout.content_scroll,
            final(self).history.file_history@.last().outline_state_selected == old(self).outline.selected,
            final(self).history.file_future@.len() == 0,
            final(self).outline == old(self).outline,
            final(self).layout == old(self).layout,
            final(self).current_file_path == old(self).current_file_path,
            final(self).document.headings@.len() == 0,
            final(self).wf(),
            saves(final(self).history.file_history@.last(), *old(self)),
            *final(self) == (App { document: final(self).document, tree: final(self).tree, history: final(self).history, ..*old(self) }),
    {
        let state = self.take_current_state();
        self.history.file_history.push(state);
        self.history.file_future = Vec::new();
    }
}

/// The state saved for `a` is `st`: its document, tree, path, name, scroll
/// and selected row.
pub open spec fn saves(st: FileState, a: App) -> bool {
    &&& st.document == a.document
    &&& st.tree == a.tree
    &&& st.path == a.current_file_path
    &&& st.filename == a.filename
    &&& st.content_scroll == a.layout.content_scroll
    &&& st.outline_state_selected == a.outline.selected
}

/// `b` holds `a` saved at the top of its back stack (and no forward
/// stack), as loading another file leaves it.
pub open spec fn saved_on_back_stack(a: App, b: App) -> bool {
    &&& b.history.file_history@.len() == a.history.file_history@.len() + 1
    &&& b.history.file_history@.drop_last() == a.history.file_history@
    &&& saves(b.history.file_history@.last(), a)
    &&& b.history.file_future@.len() == 0
}

/// `f` is the file state `st` restored: its document, tree, path, name and
/// scroll, and its selected outline row when that row is still there.
pub open spec fn restores(f: App, st: FileState) -> bool {
    &&& f.document == st.document
    &&& f.tree == st.tree
    &&& f.current_file_path == st.path
    &&& f.filename == st.filename
    &&& f.layout.content_scroll == st.content_scroll
    &&& match st.outline_state_selected {
        Some(i) => i < f.outline.items@.len() ==> f.outline.selected == Some(i),
        None => true,
    }
}

/// `f` is `o` after going back: the last file of the back stack restored,
/// `o` saved on the forward stack.
pub open spec fn went_back(o: App, f: App) -> bool {
    &&& o.history.file_history@.len() > 0
    &&& f.history.file_history@ == o.history.file_history@.drop_last()
    &&& f.history.file_future@.len() == o.history.file_future@.len() + 1
    &&& f.history.file_future@.drop_last() == o.history.file_future@
    &&& saves(f.history.file_future@.last(), o)
    &&& restores(f, o.history.file_history@.last())
}

/// `f` is `o` after going forward: the last file of the forward stack
/// restored, `o` saved on the back stack.
pub open spec fn went_forward(o: App, f: App) -> bool {
    &&& o.history.file_future@.len() > 0
    &&& f.history.file_future@ == o.history.file_future@.drop_last()
    &&& f.history.file_history@.len() == o.history.file_history@.len() + 1
    &&& f.history.file_history@.drop_last() == o.history.file_history@
    &&& saves(f.history.file_history@.last(), o)
    &&& restores(f, o.history.file_future@.last())
}

/// Going back and then forward returns to the same file (document, tree,
/// path and name) at the same scroll position and selected row (when the
/// row is still in the outline), with the forward stack as it
/// was and the back stack as it was but for the state saved last, which
/// holds the same file.
pub proof fn law_back_then_forward(a: App, b: App, c: App)
    requires
        went_back(a, b),
        went_forward(b, c),
    ensures
        c.document == a.document,
        c.tree == a.tree,
        c.current_file_path == a.current_file_path,
        c.filename == a.filename,
        c.layout.content_scroll == a.layout.content_scroll,
        match a.outline.selected {
            Some(i) => i < c.outline.items@.len() ==> c.outline.selected == a.outline.selected,
            None => true,
        },
        c.history.file_future@ == a.history.file_future@,
        c.history.file_history@.len() == a.history.file_history@.len(),
        c.history.file_history@.drop_last() == a.history.file_history@.drop_last(),
        restores(c, b.history.file_future@.last()),
        c.history.file_history@.last().document == a.history.file_history@.last().document,
        c.history.file_history@.last().path == a.history.file_history@.last().path,
{
}

/// Going forward and then back returns to the same file at the same
/// scroll position and selected row (when the row is still in the outline), with the back stack as it was.
pub proof fn law_forward_then_back(a: App, b: App, c: App)
    requires
        went_forward(a, b),
        went_back(b, c),
    ensures
        c.document == a.document,
        c.tree == a.tree,
        c.current_file_path == a.current_file_path,
        c.filename == a.filename,
        c.layout.content_scroll == a.layout.content_scroll,
        match a.outline.selected {
            Some(i) => i < c.outline.items@.len() ==> c.outline.selected == a.outline.selected,
            None => true,
        },
        c.history.file_history@ == a.history.file_history@,
        c.history.file_future@.len() == a.history.file_future@.len(),
        c.history.file_future@.drop_last() == a.history.file_future@.drop_last(),
{
}

/// The file name of the current path, `file` when it has none.
pub open spec fn reload_name(p: Seq<char>) -> Seq<char> {
    match file_name_of(p) {
        Some(n) => n,
        None => "file"@,
    }
}

impl App {
    /// Reload the current file from what the driver read and parsed of it:
    /// the document is replaced, the selected heading is selected again
    /// when it is still there, and the scroll position is kept when it is
    /// still within the content.
    pub fn reload_current_file(&mut self, document: Document, tree: Vec<HeadingNode>)
        requires
            old(self).wf(),
            document_wf(document),
        ensures
            final(self).ready(),
            final(self).document == document,
            final(self).tree == tree,
            final(self).current_file_path == old(self).current_file_path,
            final(self).filename@ == reload_name(old(self).current_file_path@),
            entries(final(self).outline.items@) == crate::todos::shown_outline(tree@, text_set(old(self).outline.collapsed_headings@), document, old(self).outline.filter_by_todos),
            final(self).outline.selected == (match selected_text(old(self).outline.items@, old(self).outline.selected) {
                Some(t) => match first_text_index(entries(final(self).outline.items@), t) {
                    Some(i) => Some(i as usize),
                    None => if final(self).outline.items@.len() > 0 { Some(0usize) } else { None },
                },
                None => if final(self).outline.items@.len() > 0 { Some(0usize) } else { None },
            }),
            final(self).layout == (Layout {
                content_scroll: if old(self).layout.content_scroll < line_count(document.content@) as u16 {
                    old(self).layout.content_scroll
                } else {
                    0
                },
                content_height: line_count(document.content@) as u16,
                ..old(self).layout
            }),
            final(self).history == old(self).history,
            final(self).edits == old(self).edits,
            final(self).mode == old(self).mode,
            final(self).interactive_state == old(self).interactive_state,
    {
        proof { reveal_strlit("file"); }
        let current_selection = match self.selected_heading_text() {
            Some(t) => Some(string_from(t)),
            None => None,
        };
        let current_scroll = self.layout.content_scroll;
        let filename = match path_file_name(self.current_file_path.as_str()) {
            Some(n) => n,
            None => string_from("file"),
        };
        let path = self.current_file_path.clone();
        self.load_document(document, tree, filename, path);
        if let Some(heading) = current_selection {
            self.select_by_text(heading.as_str());
        }
        if current_scroll < self.layout.content_height {
            self.layout.content_scroll = current_scroll;
        }
    }
}

} // verus!
