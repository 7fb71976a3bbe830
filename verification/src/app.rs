//! The navigator's state: the document and its heading tree, the flattened
//! outline with its collapsed headings and selection, scrolling, modes,
//! searches, file history and buffered table edits.
//!
//! Terminal widgets, images, the clipboard and the file system stay with
//! the program that drives this state; it hands the state plain values and
//! reads plain values back.

use vstd::prelude::*;
use crate::interactive::InteractiveState;
use crate::modal::ImageModal;
use crate::blocks::{count_lines, line_count, LinkTarget};
use crate::palette::{CommandPalette, PaletteCommand, PALETTE_COMMAND_COUNT, palette_commands};
use crate::text::{is_ws, is_whitespace, chars_of, push_str, str_eq};
use crate::todos::{headings_with_open_todos, preamble_has_open_todos, retain_listed, shown_outline};
use vstd::utf8::{encode_utf8, decode_utf8, encode_utf8_decode_utf8, is_char_boundary};
use vstd::string::StringSliceAdditionalSpecFns;

verus! {

broadcast use vstd::string::group_string_axioms;

/// Special marker for the document overview entry (shows entire file content)
pub const DOCUMENT_OVERVIEW: &'static str = "(Document)";

/// Result of executing an action
#[derive(Debug)]
pub enum ActionResult {
    /// Continue the main loop
    Continue,
    /// Exit the application
    Quit,
    /// Run an editor on a file, optionally at a specific line
    RunEditor(String, Option<u32>),
}

#[derive(Debug, Clone, Copy, PartialEq, Eq, Structural)]
pub enum Focus {
    Outline,
    Content,
}

#[derive(Debug, Clone, Copy, PartialEq, Eq, Structural)]
pub enum AppMode {
    Normal,
    Interactive,
    LinkFollow,
    Search,
    ThemePicker,
    Help,
    CellEdit,
    ConfirmFileCreate,
    /// In-document search mode (n/N navigation)
    DocSearch,
    /// Fuzzy-searchable command palette
    CommandPalette,
    /// Modal confirmation for saving outline width
    ConfirmSaveWidth,
    /// Prompt to save unsaved changes before quitting
    ConfirmSaveBeforeQuit,
    /// Prompt to save unsaved changes before navigating
    ConfirmSaveBeforeNav,
    /// File picker modal for switching files
    FilePicker,
    /// File picker search/filter mode
    FileSearch,
}

/// Type of pending navigation when user has unsaved changes
#[derive(Debug, Clone)]
pub enum PendingNavigation {
    /// Navigate back in file history
    Back,
    /// Navigate forward in file history
    Forward,
    /// Load a file (relative path, optional anchor)
    LoadFile(String, Option<String>),
}

/// A match found during search
#[derive(Debug, Clone, Copy, PartialEq, Eq, Structural)]
pub struct SearchMatch {
    /// Line number (0-indexed)
    pub line: usize,
    /// Start column (byte offset in line)
    pub col_start: usize,
    /// Length of match in bytes
    pub len: usize,
}

/// A pending table cell edit that hasn't been saved to file yet
#[derive(Debug, Clone)]
pub struct PendingEdit {
    /// Which table in the file (0-indexed)
    pub table_index: usize,
    /// Row within the table (0 = header, 1+ = data rows, excludes separator)
    pub row: usize,
    /// Column within the table (0-indexed)
    pub col: usize,
    /// The original value before editing (for undo)
    pub original_value: String,
    /// The new value after editing
    pub new_value: String,
}

/// A heading of the document: its level (1 for `#`), text and the byte
/// offset of its line in the document.
#[derive(Debug, Clone)]
pub struct Heading {
    pub level: usize,
    pub text: String,
    pub offset: usize,
}

/// A heading with the headings nested under it.
#[derive(Debug)]
pub struct HeadingNode {
    pub heading: Heading,
    pub children: Vec<HeadingNode>,
}

/// A markdown document: its text, its headings in order, and the section
/// of each heading as the parser extracts it (its text up to the next
/// heading that is not nested under it).
#[derive(Debug, Clone)]
pub struct Document {
    pub content: String,
    pub headings: Vec<Heading>,
    /// `sections[i]` is the section of `headings[i]`
    pub sections: Vec<String>,
}

/// Saved state for file navigation history
#[derive(Debug)]
pub struct FileState {
    pub path: String,
    pub document: Document,
    /// The heading tree of the document
    pub tree: Vec<HeadingNode>,
    pub filename: String,
    pub selected_heading: Option<String>,
    pub content_scroll: u16,
    pub outline_state_selected: Option<usize>,
}

#[derive(Debug, Clone)]
pub struct OutlineItem {
    pub level: usize,
    pub text: String,
    pub expanded: bool,
    /// Whether this heading has children in the tree
    pub has_children: bool,
}

/// An outline entry as a value: level, text, expanded, has children.
pub type OutlineEntry = (usize, Seq<char>, bool, bool);

impl View for OutlineItem {
    type V = OutlineEntry;

    open spec fn view(&self) -> OutlineEntry {
        (self.level, self.text@, self.expanded, self.has_children)
    }
}

/// The entries of a list of outline items.
pub open spec fn entries(items: Seq<OutlineItem>) -> Seq<OutlineEntry> {
    items.map_values(|i: OutlineItem| i@)
}

/// The set of texts held in a list of strings.
pub open spec fn text_set(v: Seq<String>) -> Set<Seq<char>> {
    Set::new(|t: Seq<char>| exists|i: int| 0 <= i < v.len() && (#[trigger] v[i])@ == t)
}

/// No text occurs twice in the list.
pub open spec fn distinct_texts(v: Seq<String>) -> bool {
    forall|i: int, j: int| 0 <= i < j < v.len() ==> (#[trigger] v[i])@ != (#[trigger] v[j])@
}

// ---------------------------------------------------------------------------
// Flattening the heading tree
// ---------------------------------------------------------------------------

/// The outline entry of a heading node.
pub open spec fn node_entry(node: HeadingNode, collapsed: Set<Seq<char>>) -> OutlineEntry {
    (node.heading.level, node.heading.text@, !collapsed.contains(node.heading.text@), node.children@.len() > 0)
}

/// A node and, when it is not collapsed, its descendants, in document order.
pub open spec fn flatten_node(node: HeadingNode, collapsed: Set<Seq<char>>) -> Seq<OutlineEntry>
    decreases node, 0int,
{
    if collapsed.contains(node.heading.text@) {
        seq![node_entry(node, collapsed)]
    } else {
        seq![node_entry(node, collapsed)] + flatten_nodes(node.children@, node.children@.len() as int, collapsed)
    }
}

/// The flattened first `n` nodes of a forest.
pub open spec fn flatten_nodes(ns: Seq<HeadingNode>, n: int, collapsed: Set<Seq<char>>) -> Seq<OutlineEntry>
    decreases ns, n,
{
    if n <= 0 || n > ns.len() {
        seq![]
    } else {
        flatten_nodes(ns, n - 1, collapsed) + flatten_node(ns[n - 1], collapsed)
    }
}

/// The flattened forest.
pub open spec fn flatten_forest(ns: Seq<HeadingNode>, collapsed: Set<Seq<char>>) -> Seq<OutlineEntry> {
    flatten_nodes(ns, ns.len() as int, collapsed)
}

/// Whether `text` is in the list (by its characters).
pub fn contains_text(v: &Vec<String>, text: &String) -> (b: bool)
    ensures
        b == text_set(v@).contains(text@),
{
    let mut i: usize = 0;
    while i < v.len()
        invariant
            i <= v.len(),
            forall|k: int| 0 <= k < i ==> (#[trigger] v@[k])@ != text@,
        decreases v.len() - i,
    {
        if v[i] == *text {
            assert(text_set(v@).contains(text@)) by {
                assert(v@[i as int]@ == text@);
            }
            return true;
        }
        i += 1;
    }
    proof {
        if text_set(v@).contains(text@) {
            let k = choose|k: int| 0 <= k < v@.len() && (#[trigger] v@[k])@ == text@;
            assert(v@[k]@ == text@);
        }
    }
    false
}

/// Appends the outline items of `node` (and its visible descendants).
fn flatten_node_into(node: &HeadingNode, collapsed: &Vec<String>, items: &mut Vec<OutlineItem>)
    ensures
        entries(final(items)@) == entries(old(items)@) + flatten_node(*node, text_set(collapsed@)),
    decreases *node, 0int,
{
    let ghost start = entries(items@);
    let is_collapsed = contains_text(collapsed, &node.heading.text);
    let item = OutlineItem {
        level: node.heading.level,
        text: node.heading.text.clone(),
        expanded: !is_collapsed,
        has_children: node.children.len() > 0,
    };
    items.push(item);
    assert(entries(items@) =~= start + seq![node_entry(*node, text_set(collapsed@))]);
    if !is_collapsed {
        let ghost mid = entries(items@);
        flatten_nodes_into(node.children.as_slice(), collapsed, items);
        assert(entries(items@) =~= start + flatten_node(*node, text_set(collapsed@)));
    }
}

/// Appends the outline items of every node of `nodes`, in order.
fn flatten_nodes_into(nodes: &[HeadingNode], collapsed: &Vec<String>, items: &mut Vec<OutlineItem>)
    ensures
        entries(final(items)@) == entries(old(items)@) + flatten_nodes(nodes@, nodes@.len() as int, text_set(collapsed@)),
    decreases nodes@, 1int,
{
    let ghost start = entries(items@);
    let mut i: usize = 0;
    while i < nodes.len()
        invariant
            i <= nodes.len(),
            entries(items@) == start + flatten_nodes(nodes@, i as int, text_set(collapsed@)),
        decreases nodes.len() - i,
    {
        flatten_node_into(&nodes[i], collapsed, items);
        i += 1;
        assert(entries(items@) =~= start + flatten_nodes(nodes@, i as int, text_set(collapsed@)));
    }
}

/// A copy of a string slice.
pub fn string_from(t: &str) -> (s: String)
    ensures
        s@ == t@,
{
    let mut s = String::new();
    push_str(&mut s, t);
    s
}

/// Adds `text` to a list of distinct texts unless it is already there.
pub fn insert_text(v: &mut Vec<String>, text: String)
    requires
        distinct_texts(old(v)@),
    ensures
        distinct_texts(final(v)@),
        text_set(final(v)@) == text_set(old(v)@).insert(text@),
{
    if !contains_text(v, &text) {
        let ghost old_v = v@;
        v.push(text);
        proof {
            assert forall|t: Seq<char>| #[trigger] text_set(v@).contains(t) <==> text_set(old_v).insert(text@).contains(t) by {
                if text_set(v@).contains(t) {
                    let k = choose|k: int| 0 <= k < v@.len() && (#[trigger] v@[k])@ == t;
                    if k < old_v.len() {
                        assert(old_v[k]@ == t);
                    }
                }
                if text_set(old_v).contains(t) {
                    let k = choose|k: int| 0 <= k < old_v.len() && (#[trigger] old_v[k])@ == t;
                    assert(v@[k]@ == t);
                }
                if t == text@ {
                    assert(v@[old_v.len() as int]@ == t);
                }
            }
            assert(text_set(v@) =~= text_set(old_v).insert(text@));
            assert forall|i: int, j: int| 0 <= i < j < v@.len() implies (#[trigger] v@[i])@ != (#[trigger] v@[j])@ by {
                if j == old_v.len() {
                    assert(old_v[i]@ == v@[i]@);
                    assert(text_set(old_v).contains(old_v[i]@));
                }
            }
        }
    }
}

/// Removes `text` from a list of distinct texts; tells whether it was there.
pub fn remove_text(v: &mut Vec<String>, text: &str) -> (removed: bool)
    requires
        distinct_texts(old(v)@),
    ensures
        distinct_texts(final(v)@),
        removed == text_set(old(v)@).contains(text@),
        text_set(final(v)@) == text_set(old(v)@).remove(text@),
{
    let ghost old_v = v@;
    let mut i: usize = 0;
    while i < v.len()
        invariant
            v@ == old_v,
            old(v)@ == old_v,
            distinct_texts(old_v),
            i <= v@.len(),
            forall|k: int| 0 <= k < i ==> (#[trigger] v@[k])@ != text@,
        decreases v@.len() - i,
    {
        if str_eq(v[i].as_str(), text) {
            v.remove(i);
            proof {
                assert(v@ == old_v.remove(i as int));
                assert forall|t: Seq<char>| #[trigger] text_set(v@).contains(t) <==> text_set(old_v).remove(text@).contains(t) by {
                    if text_set(v@).contains(t) {
                        let k = choose|k: int| 0 <= k < v@.len() && (#[trigger] v@[k])@ == t;
                        if k < i {
                            assert(old_v[k]@ == t);
                        } else {
                            assert(old_v[k + 1]@ == t);
                            assert(old_v[i as int]@ == text@);
                        }
                    }
                    if text_set(old_v).remove(text@).contains(t) {
                        let k = choose|k: int| 0 <= k < old_v.len() && (#[trigger] old_v[k])@ == t;
                        assert(k != i);
                        if k < i {
                            assert(v@[k]@ == t);
                        } else {
                            assert(v@[k - 1]@ == t);
                        }
                    }
                }
                assert(text_set(v@) =~= text_set(old_v).remove(text@));
                assert(text_set(old_v).contains(text@)) by {
                    assert(old_v[i as int]@ == text@);
                }
                assert forall|a: int, b: int| 0 <= a < b < v@.len() implies (#[trigger] v@[a])@ != (#[trigger] v@[b])@ by {
                    let oa = if a < i { a } else { a + 1 };
                    let ob = if b < i { b } else { b + 1 };
                    assert(v@[a] == old_v[oa]);
                    assert(v@[b] == old_v[ob]);
                }
            }
            return true;
        }
        i += 1;
    }
    proof {
        assert(!text_set(old_v).contains(text@)) by {
            if text_set(old_v).contains(text@) {
                let k = choose|k: int| 0 <= k < old_v.len() && (#[trigger] old_v[k])@ == text@;
                assert(old_v[k]@ == text@);
            }
        }
        assert(text_set(v@) =~= text_set(old_v).remove(text@));
    }
    false
}

// ---------------------------------------------------------------------------
// The navigator state
// ---------------------------------------------------------------------------

/// The outline pane: its items, selection and collapsed headings.
pub struct Outline {
    pub items: Vec<OutlineItem>,
    /// The selected row, as the outline list shows it.
    pub selected: Option<usize>,
    /// Texts of the collapsed headings (each once)
    pub collapsed_headings: Vec<String>,
    /// Bookmarked heading text
    pub bookmark_position: Option<String>,
    /// Previous selection, to detect changes
    pub previous_selection: Option<String>,
    /// Show only the headings with open todos
    pub filter_by_todos: bool,
}

/// Layout and scrolling of the panes.
#[derive(Debug, Clone, Copy, PartialEq, Eq, Structural)]
pub struct Layout {
    pub focus: Focus,
    pub content_scroll: u16,
    pub content_height: u16,
    /// Actual viewport height for scroll calculations
    pub content_viewport_height: u16,
    pub show_outline: bool,
    /// Percentage: 20, 30, or 40
    pub outline_width: u16,
    /// Whether the configured outline width was a custom (non-standard)
    /// value; standard values are 20, 30 and 40.
    pub config_has_custom_outline_width: bool,
    pub show_help: bool,
    pub help_scroll: u16,
    pub show_raw_source: bool,
}

/// Filtering the outline by heading text.
pub struct OutlineSearch {
    pub show_search: bool,
    /// Whether search input is active (cursor visible)
    pub outline_search_active: bool,
    pub search_query: String,
}

/// In-document search (n/N navigation).
pub struct DocSearch {
    pub doc_search_query: String,
    pub doc_search_matches: Vec<SearchMatch>,
    pub doc_search_current_idx: Option<usize>,
    pub doc_search_active: bool,
    /// Whether search was started from interactive mode
    pub doc_search_from_interactive: bool,
    /// Index into the links in view if the match is in a link
    pub doc_search_selected_link_idx: Option<usize>,
}

/// Choosing a link of the displayed section.
pub struct LinkPicker {
    /// Texts of the links in the displayed content
    pub link_texts: Vec<String>,
    /// Targets of the links in the displayed content, as written
    pub link_targets: Vec<String>,
    /// Where each of those links points
    pub link_destinations: Vec<LinkTarget>,
    /// Indices into the links after filtering
    pub filtered_link_indices: Vec<usize>,
    /// Currently selected index in filtered list
    pub selected_link_idx: Option<usize>,
    pub link_search_query: String,
    pub link_search_active: bool,
}

/// Choosing a markdown file of the directory.
pub struct FilePicker {
    /// Paths of the markdown files of the directory, sorted
    pub files_in_directory: Vec<String>,
    /// The file name of each of those paths
    pub file_names: Vec<String>,
    pub filtered_file_indices: Vec<usize>,
    pub selected_file_idx: Option<usize>,
    pub file_search_query: String,
    pub file_search_active: bool,
}

/// Back and forward file navigation.
pub struct History {
    /// Back navigation stack
    pub file_history: Vec<FileState>,
    /// Forward navigation stack
    pub file_future: Vec<FileState>,
}

/// Table cell editing and the edits not yet written to the file.
pub struct Edits {
    pub cell_edit_value: String,
    /// Original value before editing (for undo)
    pub cell_edit_original_value: String,
    pub cell_edit_row: usize,
    pub cell_edit_col: usize,
    /// Stack of uncommitted edits
    pub pending_edits: Vec<PendingEdit>,
    pub has_unsaved_changes: bool,
}

/// The colour theme and its picker, by index in the theme list.
#[derive(Debug, Clone, Copy, PartialEq, Eq, Structural)]
pub struct ThemePicker {
    pub current_theme: usize,
    pub show_theme_picker: bool,
    pub theme_picker_selected: usize,
    /// Theme before the picker opened (restored on cancel)
    pub theme_picker_original: Option<usize>,
}

pub struct App {
    pub document: Document,
    pub filename: String,
    pub tree: Vec<HeadingNode>,
    /// Path to current file for resolving relative links
    pub current_file_path: String,
    /// Flag to signal file watcher needs update
    pub file_path_changed: bool,
    /// Skip next file watch check (after internal save)
    pub suppress_file_watch: bool,
    pub outline: Outline,
    pub layout: Layout,
    pub outline_search: OutlineSearch,
    pub doc_search: DocSearch,
    pub palette: CommandPalette,
    /// The commands the palette offers
    pub commands: Vec<PaletteCommand>,
    pub links: LinkPicker,
    pub files: FilePicker,
    pub history: History,
    pub edits: Edits,
    pub themes: ThemePicker,
    pub mode: AppMode,
    /// Vim-style count prefix for motion commands (e.g., 5j moves down 5)
    pub count_prefix: Option<usize>,
    /// Temporary status message to display
    pub status_message: Option<String>,
    /// Set when a timed status message was just set; the driver records the
    /// time and clears it.
    pub status_message_fresh: bool,
    pub interactive_state: InteractiveState,
    pub pending_navigation: Option<PendingNavigation>,
    /// File to open in the external editor (consumed by the main loop)
    pub pending_editor_file: Option<String>,
    /// File to create, awaiting confirmation
    pub pending_file_create: Option<String>,
    pub pending_file_create_message: Option<String>,
    /// The full-screen image viewer
    pub image_modal: ImageModal,
}

/// The text has a character that is not whitespace (its trim is not empty).
pub open spec fn has_non_ws(s: Seq<char>) -> bool {
    exists|i: int| 0 <= i < s.len() && !is_ws(#[trigger] s[i])
}

/// The byte offset of the first heading lies on a character boundary.
pub open spec fn document_wf(d: Document) -> bool {
    d.headings@.len() > 0 ==> {
        &&& d.headings@[0].offset <= encode_utf8(d.content@).len()
        &&& is_char_boundary(encode_utf8(d.content@), d.headings@[0].offset as int)
    }
}

/// Non-whitespace content before the first heading (all of the document
/// when it has no headings).
pub open spec fn has_preamble_spec(d: Document) -> bool {
    if d.headings@.len() == 0 {
        has_non_ws(d.content@)
    } else if d.headings@[0].offset == 0 {
        false
    } else {
        has_non_ws(decode_utf8(encode_utf8(d.content@).take(d.headings@[0].offset as int)))
    }
}

/// The document overview entry shows when there is a preamble or no heading.
pub open spec fn shows_overview(d: Document) -> bool {
    has_preamble_spec(d) || d.headings@.len() == 0
}

/// The overview entry.
pub open spec fn overview_entry(has_children: bool) -> OutlineEntry {
    (0, DOCUMENT_OVERVIEW@, true, has_children)
}

/// The full outline: the flattened tree, after the overview entry when it shows.
pub open spec fn outline_spec(tree: Seq<HeadingNode>, collapsed: Set<Seq<char>>, overview: bool) -> Seq<OutlineEntry> {
    let f = flatten_forest(tree, collapsed);
    if overview { seq![overview_entry(f.len() > 0)] + f } else { f }
}

/// Whether the text has a non-whitespace character.
fn str_has_non_ws(s: &str) -> (b: bool)
    ensures
        b == has_non_ws(s@),
{
    let v = chars_of(s);
    let mut i: usize = 0;
    while i < v.len()
        invariant
            i <= v.len(),
            v@ == s@,
            forall|k: int| 0 <= k < i ==> is_ws(#[trigger] v@[k]),
        decreases v.len() - i,
    {
        if !is_whitespace(v[i]) {
            return true;
        }
        i += 1;
    }
    false
}

/// The outline item of the document overview.
fn overview_item(has_children: bool) -> (item: OutlineItem)
    ensures
        item@ == overview_entry(has_children),
{
    let mut text = String::new();
    push_str(&mut text, DOCUMENT_OVERVIEW);
    OutlineItem { level: 0, text, expanded: true, has_children }
}

impl App {
    /// Check if the document has non-whitespace content before the first heading
    pub fn has_preamble_content(document: &Document) -> (b: bool)
        requires
            document_wf(*document),
        ensures
            b == has_preamble_spec(*document),
    {
        if document.headings.len() == 0 {
            return str_has_non_ws(document.content.as_str());
        }
        let first_heading_offset = document.headings[0].offset;
        if first_heading_offset == 0 {
            return false;
        }
        let content = document.content.as_str();
        let (preamble, _) = content.split_at(first_heading_offset);
        proof {
            encode_utf8_decode_utf8(preamble@);
            assert(preamble.spec_bytes() =~= encode_utf8(document.content@).take(first_heading_offset as int));
        }
        str_has_non_ws(preamble)
    }

    /// The outline for a tree and a set of collapsed headings (see [`flatten_forest`]).
    pub fn flatten_tree(tree: &[HeadingNode], collapsed_headings: &Vec<String>) -> (items: Vec<OutlineItem>)
        ensures
            entries(items@) == flatten_forest(tree@, text_set(collapsed_headings@)),
    {
        let mut items: Vec<OutlineItem> = Vec::new();
        assert(entries(items@) =~= Seq::<OutlineEntry>::empty());
        flatten_nodes_into(tree, collapsed_headings, &mut items);
        assert(entries(items@) =~= flatten_forest(tree@, text_set(collapsed_headings@)));
        items
    }

    /// Rebuild outline items from the tree (see [`shown_outline`]): the
    /// flattened tree, after the document overview entry when there is a
    /// preamble or no heading; when filtering by todos, only the headings
    /// with open todos, after the overview entry when the preamble has open
    /// todos.
    pub fn rebuild_outline_items(&mut self)
        requires
            document_wf(old(self).document),
        ensures
            entries(final(self).outline.items@) == shown_outline(
                old(self).tree@,
                text_set(old(self).outline.collapsed_headings@),
                old(self).document,
                old(self).outline.filter_by_todos,
            ),
            *final(self) == (App { outline: Outline { items: final(self).outline.items, ..old(self).outline }, ..*old(self) }),
    {
        let mut items = Self::flatten_tree(self.tree.as_slice(), &self.outline.collapsed_headings);
        if self.outline.filter_by_todos {
            let keep = headings_with_open_todos(&self.document, &self.tree);
            items = retain_listed(items, &keep);
            if preamble_has_open_todos(self.document.content.as_str()) {
                let ghost f = entries(items@);
                let overview = overview_item(items.len() > 0);
                items.insert(0, overview);
                assert(entries(items@) =~= seq![overview_entry(f.len() > 0)] + f);
            }
        } else {
            let has_preamble = Self::has_preamble_content(&self.document);
            if has_preamble || self.document.headings.len() == 0 {
                let ghost f = entries(items@);
                let overview = overview_item(items.len() > 0);
                items.insert(0, overview);
                assert(entries(items@) =~= seq![overview_entry(f.len() > 0)] + f);
            }
        }
        self.outline.items = items;
    }
}

/// The palette's command indices `0..n`, in order.
pub open spec fn all_indices(n: nat) -> Seq<usize> {
    Seq::new(n, |i: int| i as usize)
}

/// `0..n` as a vector.
pub fn index_range(n: usize) -> (v: Vec<usize>)
    ensures
        v@ == all_indices(n as nat),
{
    let mut v: Vec<usize> = Vec::new();
    let mut i: usize = 0;
    while i < n
        invariant
            i <= n,
            v@ == all_indices(i as nat),
        decreases n - i,
    {
        v.push(i);
        i += 1;
        assert(v@ =~= all_indices(i as nat));
    }
    v
}

impl App {
    /// The navigator for a document and its heading tree, at the top of the
    /// outline with every heading expanded.
    pub fn new(
        document: Document,
        tree: Vec<HeadingNode>,
        filename: String,
        file_path: String,
        outline_width: u16,
        images_enabled: bool,
        kitty_terminal: bool,
    ) -> (app: App)
        requires
            document_wf(document),
        ensures
            app.image_modal.wf(),
            app.image_modal.images_enabled == images_enabled,
            app.image_modal.use_kitty_animation == (images_enabled && kitty_terminal),
            app.image_modal.viewing_image_path is None,
            app.image_modal.kitty_animation is None,
            entries(app.outline.items@) == outline_spec(tree@, Set::empty(), shows_overview(document)),
            app.outline.selected == (if app.outline.items@.len() > 0 { Some(0usize) } else { None }),
            app.outline.collapsed_headings@.len() == 0,
            app.layout == (Layout {
                focus: Focus::Outline,
                content_scroll: 0,
                content_height: line_count(document.content@) as u16,
                content_viewport_height: 20,
                show_outline: true,
                outline_width,
                config_has_custom_outline_width: outline_width != 20 && outline_width != 30 && outline_width != 40,
                show_help: false,
                help_scroll: 0,
                show_raw_source: false,
            }),
            app.mode == AppMode::Normal,
            app.history.file_history@.len() == 0 && app.history.file_future@.len() == 0,
            app.document == document,
            app.tree == tree,
            app.filename == filename,
            app.current_file_path == file_path,
            app.palette.command_filtered@ == all_indices(PALETTE_COMMAND_COUNT as nat),
            app.palette.command_selected == 0,
            app.commands@.len() == PALETTE_COMMAND_COUNT,
            app.count_prefix is None,
            app.edits.pending_edits@.len() == 0 && !app.edits.has_unsaved_changes,
            app.doc_search.doc_search_matches@.len() == 0,
            app.doc_search.doc_search_current_idx is None,
    {
        let content_lines = count_lines(document.content.as_str());
        let mut app = App {
            document,
            filename,
            tree,
            current_file_path: file_path,
            file_path_changed: false,
            suppress_file_watch: false,
            outline: Outline {
                items: Vec::new(),
                selected: None,
                collapsed_headings: Vec::new(),
                bookmark_position: None,
                previous_selection: None,
                filter_by_todos: false,
            },
            layout: Layout {
                focus: Focus::Outline,
                content_scroll: 0,
                content_height: content_lines as u16,
                content_viewport_height: 20,
                show_outline: true,
                outline_width,
                config_has_custom_outline_width: outline_width != 20 && outline_width != 30 && outline_width != 40,
                show_help: false,
                help_scroll: 0,
                show_raw_source: false,
            },
            outline_search: OutlineSearch { show_search: false, outline_search_active: false, search_query: String::new() },
            doc_search: DocSearch {
                doc_search_query: String::new(),
                doc_search_matches: Vec::new(),
                doc_search_current_idx: None,
                doc_search_active: false,
                doc_search_from_interactive: false,
                doc_search_selected_link_idx: None,
            },
            palette: CommandPalette {
                command_query: String::new(),
                command_filtered: index_range(PALETTE_COMMAND_COUNT),
                command_selected: 0,
            },
            commands: palette_commands(),
            links: LinkPicker {
                link_texts: Vec::new(),
                link_targets: Vec::new(),
                link_destinations: Vec::new(),
                filtered_link_indices: Vec::new(),
                selected_link_idx: None,
                link_search_query: String::new(),
                link_search_active: false,
            },
            files: FilePicker {
                files_in_directory: Vec::new(),
                file_names: Vec::new(),
                filtered_file_indices: Vec::new(),
                selected_file_idx: None,
                file_search_query: String::new(),
                file_search_active: false,
            },
            history: History { file_history: Vec::new(), file_future: Vec::new() },
            edits: Edits {
                cell_edit_value: String::new(),
                cell_edit_original_value: String::new(),
                cell_edit_row: 0,
                cell_edit_col: 0,
                pending_edits: Vec::new(),
                has_unsaved_changes: false,
            },
            themes: ThemePicker { current_theme: 0, show_theme_picker: false, theme_picker_selected: 0, theme_picker_original: None },
            mode: AppMode::Normal,
            count_prefix: None,
            status_message: None,
            status_message_fresh: false,
            interactive_state: InteractiveState::new(),
            pending_navigation: None,
            pending_editor_file: None,
            pending_file_create: None,
            pending_file_create_message: None,
            image_modal: ImageModal::new(images_enabled, kitty_terminal),
        };
        assert(text_set(app.outline.collapsed_headings@) =~= Set::<Seq<char>>::empty());
        app.rebuild_outline_items();
        if app.outline.items.len() > 0 {
            app.outline.selected = Some(0);
        }
        app
    }
}

impl App {
    /// The state's invariant: the collapsed headings are distinct, and the
    /// file picker has a name for each path.
    pub open spec fn wf(&self) -> bool {
        &&& distinct_texts(self.outline.collapsed_headings@)
        &&& self.files.file_names@.len() == self.files.files_in_directory@.len()
    }

    /// The invariant, and the first heading's offset is a character
    /// boundary of the current document (an edited table before the first
    /// heading can move it), as rebuilding the outline needs.
    pub open spec fn ready(&self) -> bool {
        &&& self.wf()
        &&& document_wf(self.document)
    }

    /// Whether the first heading's offset is a character boundary of the
    /// document (see [`document_wf`]).
    pub fn document_is_wf(document: &Document) -> (b: bool)
        ensures
            b == document_wf(*document),
    {
        if document.headings.len() == 0 {
            return true;
        }
        let off = document.headings[0].offset;
        let s = document.content.as_str();
        off <= s.as_bytes().len() && s.is_char_boundary(off)
    }

    /// Set a timed status message.
    pub fn set_status_message(&mut self, msg: &str)
        ensures
            final(self).status_message matches Some(m) && m@ == msg@,
            *final(self) == (App { status_message: final(self).status_message, status_message_fresh: true, ..*old(self) }),
    {
        self.status_message = Some(string_from(msg));
        self.status_message_fresh = true;
    }
}

/// The first heading at or after `i` with text `t`.
pub open spec fn first_heading_from(hs: Seq<Heading>, t: Seq<char>, i: int) -> Option<int>
    decreases hs.len() - i,
{
    if i < 0 || i >= hs.len() {
        None
    } else if hs[i].text@ == t {
        Some(i)
    } else {
        first_heading_from(hs, t, i + 1)
    }
}

/// The section of the first heading with text `t`, when there is one.
pub open spec fn section_of(d: Document, t: Seq<char>) -> Option<Seq<char>> {
    match first_heading_from(d.headings@, t, 0) {
        Some(i) => if i < d.sections@.len() { Some(d.sections@[i]@) } else { None },
        None => None,
    }
}

/// The text shown in the content pane: the selected heading's section, or
/// the whole document when no heading (or no section) is selected.
pub open spec fn displayed_spec(app: App) -> Seq<char> {
    match app.outline.selected {
        Some(i) => if i < app.outline.items@.len() {
            match section_of(app.document, app.outline.items@[i as int].text@) {
                Some(s) => s,
                None => app.document.content@,
            }
        } else {
            app.document.content@
        },
        None => app.document.content@,
    }
}

impl Document {
    /// The section of the first heading with this text (see [`section_of`]).
    pub fn extract_section(&self, heading_text: &str) -> (r: Option<String>)
        ensures
            opt_view(r) == section_of(*self, heading_text@),
    {
        let mut i: usize = 0;
        while i < self.headings.len()
            invariant
                i <= self.headings@.len(),
                first_heading_from(self.headings@, heading_text@, 0) == first_heading_from(self.headings@, heading_text@, i as int),
            decreases self.headings@.len() - i,
        {
            if str_eq(self.headings[i].text.as_str(), heading_text) {
                if i < self.sections.len() {
                    return Some(string_from(self.sections[i].as_str()));
                }
                return None;
            }
            i += 1;
        }
        None
    }
}

/// The characters of an optional string.
pub open spec fn opt_view(o: Option<String>) -> Option<Seq<char>> {
    match o {
        Some(s) => Some(s@),
        None => None,
    }
}

impl App {
    /// The text shown in the content pane (see [`displayed_spec`]).
    pub fn displayed_content(&self) -> (s: String)
        ensures
            s@ == displayed_spec(*self),
    {
        if let Some(i) = self.outline.selected {
            if i < self.outline.items.len() {
                if let Some(sec) = self.document.extract_section(self.outline.items[i].text.as_str()) {
                    return sec;
                }
            }
        }
        string_from(self.document.content.as_str())
    }
}

} // verus!
