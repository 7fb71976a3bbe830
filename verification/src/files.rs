//! Opening the file chosen in the file picker, and copies of documents for
//! the history.

use vstd::prelude::*;
use crate::app::{
    App, AppMode, Document, FilePicker, FileState, Heading, HeadingNode, document_wf, entries, outline_spec,
    shows_overview, string_from, text_set,
};
use crate::links::{file_name_of, path_file_name};
use crate::outline::selected_text;
use crate::text::{push_str, str_eq};

verus! {

broadcast use vstd::string::group_string_axioms;

/// Two heading lists hold the same headings.
pub open spec fn same_headings(a: Seq<Heading>, b: Seq<Heading>) -> bool {
    a == b
}

/// Two documents hold the same text, headings and sections.
pub open spec fn same_document(a: Document, b: Document) -> bool {
    &&& a.content == b.content
    &&& a.headings@ == b.headings@
    &&& a.sections@ == b.sections@
}

/// Two heading forests have the same shape and headings.
pub open spec fn same_forest(a: Seq<HeadingNode>, b: Seq<HeadingNode>) -> bool
    decreases a,
{
    &&& a.len() == b.len()
    &&& forall|i: int| 0 <= i < a.len() ==> #[trigger] a[i].heading == b[i].heading
        && same_forest(a[i].children@, b[i].children@)
}

/// A copy of a heading.
pub(crate) fn copy_heading(h: &Heading) -> (c: Heading)
    ensures
        c == *h,
{
    Heading { level: h.level, text: h.text.clone(), offset: h.offset }
}

/// A copy of a document.
pub fn copy_document(d: &Document) -> (c: Document)
    ensures
        same_document(c, *d),
{
    let mut headings: Vec<Heading> = Vec::new();
    let mut i: usize = 0;
    while i < d.headings.len()
        invariant
            i <= d.headings@.len(),
            headings@ == d.headings@.take(i as int),
        decreases d.headings@.len() - i,
    {
        headings.push(copy_heading(&d.headings[i]));
        i += 1;
        assert(headings@ =~= d.headings@.take(i as int));
    }
    assert(d.headings@.take(d.headings@.len() as int) =~= d.headings@);
    let mut sections: Vec<String> = Vec::new();
    let mut j: usize = 0;
    while j < d.sections.len()
        invariant
            j <= d.sections@.len(),
            sections@ == d.sections@.take(j as int),
        decreases d.sections@.len() - j,
    {
        sections.push(d.sections[j].clone());
        j += 1;
        assert(sections@ =~= d.sections@.take(j as int));
    }
    assert(d.sections@.take(d.sections@.len() as int) =~= d.sections@);
    Document { content: d.content.clone(), headings, sections }
}

/// A copy of a heading forest.
pub fn copy_forest(nodes: &Vec<HeadingNode>) -> (c: Vec<HeadingNode>)
    ensures
        same_forest(c@, nodes@),
    decreases nodes@,
{
    let mut out: Vec<HeadingNode> = Vec::new();
    let mut i: usize = 0;
    while i < nodes.len()
        invariant
            i <= nodes@.len(),
            out@.len() == i,
            forall|k: int| 0 <= k < i ==> #[trigger] out@[k].heading == nodes@[k].heading
                && same_forest(out@[k].children@, nodes@[k].children@),
        decreases nodes@.len() - i,
    {
        let node = &nodes[i];
        proof { assert(decreases_to!(nodes@ => nodes@[i as int])); }
        let children = copy_forest(&node.children);
        out.push(HeadingNode { heading: copy_heading(&node.heading), children });
        i += 1;
    }
    assert(out@.len() == nodes@.len());
    assert(forall|k: int| 0 <= k < i ==> #[trigger] out@[k].heading == nodes@[k].heading
        && same_forest(out@[k].children@, nodes@[k].children@));
    out
}

/// The file name of a chosen path, `unknown.md` when it has none.
pub open spec fn picked_name(p: Seq<char>) -> Seq<char> {
    match file_name_of(p) {
        Some(n) => n,
        None => "unknown.md"@,
    }
}

/// The picker is closed and its search cleared.
pub open spec fn picker_closed(old: App, new: App) -> bool {
    &&& new.mode == AppMode::Normal
    &&& new.files.file_search_query@.len() == 0
    &&& !new.files.file_search_active
    &&& new.files == (FilePicker {
        file_search_query: new.files.file_search_query,
        file_search_active: false,
        ..old.files
    })
}

impl App {
    /// The path of the file selected in the picker, if one is selected.
    pub open spec fn picked_path(self) -> Option<String> {
        match self.files.selected_file_idx {
            Some(s) => if s < self.files.filtered_file_indices@.len() {
                Some(self.files.files_in_directory@[self.files.filtered_file_indices@[s as int] as int])
            } else {
                None
            },
            None => None,
        }
    }

    /// Choose the file selected in the picker. The current file closes
    /// the picker; another file is returned for the driver to read and
    /// parse (then [`App::finish_select_file`]), the current state going
    /// to the history first.
    pub fn select_file_from_picker(&mut self) -> (r: Result<Option<String>, String>)
        requires
            match old(self).files.selected_file_idx {
                Some(s) => s < old(self).files.filtered_file_indices@.len()
                    ==> old(self).files.filtered_file_indices@[s as int] < old(self).files.files_in_directory@.len(),
                None => true,
            },
        ensures
            match old(self).files.selected_file_idx {
                None => r matches Err(e) && e@ == "No file selected"@ && *final(self) == *old(self),
                Some(s) => if s >= old(self).files.filtered_file_indices@.len() {
                    r matches Err(e) && e@ == "Invalid selection"@ && *final(self) == *old(self)
                } else {
                    let p = old(self).picked_path()->0;
                    if p@ == old(self).current_file_path@ {
                        &&& r matches Ok(None)
                        &&& picker_closed(*old(self), *final(self))
                        &&& *final(self) == (App { mode: AppMode::Normal, files: final(self).files, ..*old(self) })
                    } else {
                        let h = final(self).history.file_history@;
                        &&& r matches Ok(Some(q)) && q == p
                        &&& h.len() == old(self).history.file_history@.len() + 1
                        &&& h.drop_last() == old(self).history.file_history@
                        &&& same_document(h.last().document, old(self).document)
                        &&& same_forest(h.last().tree@, old(self).tree@)
                        &&& h.last().path == old(self).current_file_path
                        &&& h.last().filename == old(self).filename
                        &&& h.last().content_scroll == old(self).layout.content_scroll
                        &&& h.last().outline_state_selected == old(self).outline.selected
                        &&& (match selected_text(old(self).outline.items@, old(self).outline.selected) {
                            Some(t) => h.last().selected_heading matches Some(x) && x@ == t,
                            None => h.last().selected_heading is None,
                        })
                        &&& final(self).history.file_future@.len() == 0
                        &&& *final(self) == (App { history: final(self).history, ..*old(self) })
                    }
                },
            },
    {
        proof {
            reveal_strlit("No file selected");
            reveal_strlit("Invalid selection");
        }
        let s = match self.files.selected_file_idx {
            Some(s) => s,
            None => return Err(string_from("No file selected")),
        };
        if s >= self.files.filtered_file_indices.len() {
            return Err(string_from("Invalid selection"));
        }
        let real_idx = self.files.filtered_file_indices[s];
        let file_path = self.files.files_in_directory[real_idx].clone();
        if str_eq(file_path.as_str(), self.current_file_path.as_str()) {
            self.mode = AppMode::Normal;
            self.files.file_search_query = String::new();
            self.files.file_search_active = false;
            return Ok(None);
        }
        let selected_heading = match self.selected_heading_text() {
            Some(t) => Some(string_from(t)),
            None => None,
        };
        let state = FileState {
            path: self.current_file_path.clone(),
            document: copy_document(&self.document),
            tree: copy_forest(&self.tree),
            filename: self.filename.clone(),
            selected_heading,
            content_scroll: self.layout.content_scroll,
            outline_state_selected: self.outline.selected,
        };
        self.history.file_history.push(state);
        self.history.file_future = Vec::new();
        assert(self.history.file_history@.drop_last() =~= old(self).history.file_history@);
        Ok(Some(file_path))
    }

    /// Open the chosen file with what the driver read and parsed of it
    /// (`Failed to read file: <error>` when reading failed), and close
    /// the picker.
    pub fn finish_select_file(&mut self, path: String, parsed: Result<(Document, Vec<HeadingNode>), String>) -> (r: Result<(), String>)
        requires
            old(self).wf(),
            parsed matches Ok((d, _)) ==> document_wf(d),
        ensures
            match parsed {
                Err(e) => r matches Err(m) && m@ == "Failed to read file: "@ + e@ && *final(self) == *old(self),
                Ok((d, t)) => {
                    &&& r is Ok
                    &&& final(self).ready()
                    &&& final(self).document == d
                    &&& final(self).tree == t
                    &&& final(self).current_file_path == path
                    &&& final(self).filename@ == picked_name(path@)
                    &&& entries(final(self).outline.items@) == crate::todos::shown_outline(t@, text_set(old(self).outline.collapsed_headings@), d, old(self).outline.filter_by_todos)
                    &&& final(self).outline.selected == (if final(self).outline.items@.len() > 0 { Some(0usize) } else { None })
                    &&& final(self).history == old(self).history
                    &&& picker_closed(*old(self), *final(self))
                },
            },
    {
        proof {
            reveal_strlit("Failed to read file: ");
            reveal_strlit("unknown.md");
        }
        match parsed {
            Err(e) => {
                let mut m = string_from("Failed to read file: ");
                push_str(&mut m, e.as_str());
                Err(m)
            },
            Ok((document, tree)) => {
                let filename = match path_file_name(path.as_str()) {
                    Some(n) => n,
                    None => string_from("unknown.md"),
                };
                self.load_document(document, tree, filename, path);
                self.mode = AppMode::Normal;
                self.files.file_search_query = String::new();
                self.files.file_search_active = false;
                Ok(())
            },
        }
    }
}

} // verus!
