//! Filtering the outline down to the headings with open todos (`- [ ]` or
//! `* [ ]` in their section, or in the section of a heading nested under
//! them).

use vstd::prelude::*;
use crate::app::{
    App, Document, HeadingNode, OutlineEntry, OutlineItem, entries, flatten_forest, outline_spec,
    overview_entry, section_of, shows_overview, text_set, contains_text,
};
use crate::outline::{first_text_index, selected_text};
use crate::text::{chars_of, contains, contains_spec, decimal, decimal_string, find_from, find_from_spec, lemma_find_from_found, push_str};

verus! {

broadcast use vstd::string::group_string_axioms;

/// The text holds an open todo: `- [ ]` or `* [ ]`.
pub open spec fn has_open_todo(s: Seq<char>) -> bool {
    contains_spec(s, "- [ ]"@) || contains_spec(s, "* [ ]"@)
}

/// The section of the first heading with text `t` holds an open todo.
pub open spec fn section_has_open_todo(d: Document, t: Seq<char>) -> bool {
    match section_of(d, t) {
        Some(s) => has_open_todo(s),
        None => false,
    }
}

/// The node's heading, or a heading nested under it, has an open todo.
pub open spec fn node_has_todos(d: Document, node: HeadingNode) -> bool
    decreases node, 0int,
{
    section_has_open_todo(d, node.heading.text@) || nodes_have_todos(d, node.children@, node.children@.len() as int)
}

/// One of the first `n` nodes has open todos (see [`node_has_todos`]).
pub open spec fn nodes_have_todos(d: Document, ns: Seq<HeadingNode>, n: int) -> bool
    decreases ns, n,
{
    if n <= 0 || n > ns.len() {
        false
    } else {
        nodes_have_todos(d, ns, n - 1) || node_has_todos(d, ns[n - 1])
    }
}

/// The texts of the headings shown when filtering by todos, from a node:
/// the node's text and those of its children, when it has open todos.
pub open spec fn node_todo_texts(d: Document, node: HeadingNode) -> Set<Seq<char>>
    decreases node, 0int,
{
    if node_has_todos(d, node) {
        set![node.heading.text@].union(nodes_todo_texts(d, node.children@, node.children@.len() as int))
    } else {
        Set::empty()
    }
}

/// The texts of [`node_todo_texts`] over the first `n` nodes.
pub open spec fn nodes_todo_texts(d: Document, ns: Seq<HeadingNode>, n: int) -> Set<Seq<char>>
    decreases ns, n,
{
    if n <= 0 || n > ns.len() {
        Set::empty()
    } else {
        nodes_todo_texts(d, ns, n - 1).union(node_todo_texts(d, ns[n - 1]))
    }
}

/// The texts of the headings with open todos in the tree.
pub open spec fn todo_texts(d: Document, tree: Seq<HeadingNode>) -> Set<Seq<char>> {
    nodes_todo_texts(d, tree, tree.len() as int)
}

/// The first `n` entries whose text is in `keep`, in order.
pub open spec fn kept_entries(es: Seq<OutlineEntry>, keep: Set<Seq<char>>, n: int) -> Seq<OutlineEntry>
    decreases n,
{
    if n <= 0 || n > es.len() {
        seq![]
    } else if keep.contains(es[n - 1].1) {
        kept_entries(es, keep, n - 1).push(es[n - 1])
    } else {
        kept_entries(es, keep, n - 1)
    }
}

/// The text before the first line that starts a heading (`\n#`) holds an
/// open todo; without such a line there is no preamble to look at.
pub open spec fn preamble_has_todos(content: Seq<char>) -> bool {
    match find_from_spec(content, "\n#"@, 0) {
        Some(i) => has_open_todo(content.take(i)),
        None => false,
    }
}

/// The outline when filtering by todos: the entries of headings with open
/// todos, after the overview entry when the preamble has open todos.
pub open spec fn todo_outline(tree: Seq<HeadingNode>, collapsed: Set<Seq<char>>, d: Document) -> Seq<OutlineEntry> {
    let f = flatten_forest(tree, collapsed);
    let k = kept_entries(f, todo_texts(d, tree), f.len() as int);
    if preamble_has_todos(d.content@) { seq![overview_entry(k.len() > 0)] + k } else { k }
}

/// The outline shown, with or without the todo filter.
pub open spec fn shown_outline(tree: Seq<HeadingNode>, collapsed: Set<Seq<char>>, d: Document, filter: bool) -> Seq<OutlineEntry> {
    if filter { todo_outline(tree, collapsed, d) } else { outline_spec(tree, collapsed, shows_overview(d)) }
}

/// Whether the text holds an open todo.
pub fn text_has_open_todo(s: &str) -> (b: bool)
    ensures
        b == has_open_todo(s@),
{
    let v = chars_of(s);
    let dash = chars_of("- [ ]");
    let star = chars_of("* [ ]");
    contains(&v, &dash) || contains(&v, &star)
}

/// Whether the section of the first heading with this text holds an open todo.
pub fn heading_has_open_todos(d: &Document, heading_text: &str) -> (b: bool)
    ensures
        b == section_has_open_todo(*d, heading_text@),
{
    match d.extract_section(heading_text) {
        Some(section) => text_has_open_todo(section.as_str()),
        None => false,
    }
}

/// Whether a heading or any heading nested under it has open todos.
pub fn heading_tree_has_open_todos(d: &Document, node: &HeadingNode) -> (b: bool)
    ensures
        b == node_has_todos(*d, *node),
    decreases *node, 0int,
{
    if heading_has_open_todos(d, node.heading.text.as_str()) {
        return true;
    }
    nodes_have_open_todos(d, node.children.as_slice())
}

/// Whether one of the nodes has open todos.
fn nodes_have_open_todos(d: &Document, nodes: &[HeadingNode]) -> (b: bool)
    ensures
        b == nodes_have_todos(*d, nodes@, nodes@.len() as int),
    decreases nodes@, 1int,
{
    let mut i: usize = 0;
    while i < nodes.len()
        invariant
            i <= nodes.len(),
            !nodes_have_todos(*d, nodes@, i as int),
        decreases nodes.len() - i,
    {
        if heading_tree_has_open_todos(d, &nodes[i]) {
            proof { lemma_nodes_have_todos_mono(*d, nodes@, i as int + 1, nodes@.len() as int); }
            return true;
        }
        i += 1;
    }
    false
}

/// Once one of the first `m` nodes has open todos, so does one of the first `n >= m`.
proof fn lemma_nodes_have_todos_mono(d: Document, ns: Seq<HeadingNode>, m: int, n: int)
    requires
        0 <= m <= n <= ns.len(),
        nodes_have_todos(d, ns, m),
    ensures
        nodes_have_todos(d, ns, n),
    decreases n - m,
{
    if m < n {
        lemma_nodes_have_todos_mono(d, ns, m, n - 1);
    }
}

/// Append the texts of [`node_todo_texts`] to `out`.
fn collect_headings_with_todos(d: &Document, node: &HeadingNode, out: &mut Vec<String>)
    ensures
        text_set(final(out)@) == text_set(old(out)@).union(node_todo_texts(*d, *node)),
    decreases *node, 0int,
{
    let ghost start = text_set(out@);
    if heading_tree_has_open_todos(d, node) {
        out.push(node.heading.text.clone());
        assert(text_set(out@) =~= start.union(set![node.heading.text@])) by {
            assert(out@.last()@ == node.heading.text@);
            assert forall|t: Seq<char>| text_set(out@).contains(t) implies start.union(set![node.heading.text@]).contains(t) by {
                let k = choose|k: int| 0 <= k < out@.len() && (#[trigger] out@[k])@ == t;
                if k < out@.len() - 1 {
                    assert(old(out)@[k] == out@[k]);
                }
            }
            assert forall|t: Seq<char>| start.union(set![node.heading.text@]).contains(t) implies text_set(out@).contains(t) by {
                if start.contains(t) {
                    let k = choose|k: int| 0 <= k < old(out)@.len() && (#[trigger] old(out)@[k])@ == t;
                    assert(out@[k] == old(out)@[k]);
                } else {
                    assert(out@[out@.len() - 1]@ == t);
                }
            }
        }
        collect_nodes_with_todos(d, node.children.as_slice(), out);
        assert(text_set(out@) =~= start.union(node_todo_texts(*d, *node)));
    } else {
        assert(node_todo_texts(*d, *node) =~= Set::empty());
        assert(text_set(out@) =~= start.union(node_todo_texts(*d, *node)));
    }
}

/// Append the texts of [`nodes_todo_texts`] over all the nodes to `out`.
fn collect_nodes_with_todos(d: &Document, nodes: &[HeadingNode], out: &mut Vec<String>)
    ensures
        text_set(final(out)@) == text_set(old(out)@).union(nodes_todo_texts(*d, nodes@, nodes@.len() as int)),
    decreases nodes@, 1int,
{
    let ghost start = text_set(out@);
    let mut i: usize = 0;
    assert(start.union(nodes_todo_texts(*d, nodes@, 0)) =~= start);
    while i < nodes.len()
        invariant
            i <= nodes.len(),
            text_set(out@) == start.union(nodes_todo_texts(*d, nodes@, i as int)),
        decreases nodes.len() - i,
    {
        collect_headings_with_todos(d, &nodes[i], out);
        i += 1;
        assert(text_set(out@) =~= start.union(nodes_todo_texts(*d, nodes@, i as int)));
    }
}

/// The texts of the headings with open todos (see [`todo_texts`]).
pub fn headings_with_open_todos(d: &Document, tree: &Vec<HeadingNode>) -> (v: Vec<String>)
    ensures
        text_set(v@) == todo_texts(*d, tree@),
{
    let mut v: Vec<String> = Vec::new();
    assert(text_set(v@) =~= Set::<Seq<char>>::empty());
    collect_nodes_with_todos(d, tree.as_slice(), &mut v);
    assert(text_set(v@) =~= todo_texts(*d, tree@));
    v
}

/// The items whose text is in `keep`, in order.
pub fn retain_listed(items: Vec<OutlineItem>, keep: &Vec<String>) -> (r: Vec<OutlineItem>)
    ensures
        entries(r@) == kept_entries(entries(items@), text_set(keep@), items@.len() as int),
{
    let mut r: Vec<OutlineItem> = Vec::new();
    let mut i: usize = 0;
    while i < items.len()
        invariant
            i <= items.len(),
            entries(r@) == kept_entries(entries(items@), text_set(keep@), i as int),
        decreases items.len() - i,
    {
        if contains_text(keep, &items[i].text) {
            let item = OutlineItem {
                level: items[i].level,
                text: items[i].text.clone(),
                expanded: items[i].expanded,
                has_children: items[i].has_children,
            };
            r.push(item);
        }
        i += 1;
        assert(entries(r@) =~= kept_entries(entries(items@), text_set(keep@), i as int));
    }
    r
}

/// Whether the text before the first heading line holds an open todo
/// (see [`preamble_has_todos`]).
pub fn preamble_has_open_todos(content: &str) -> (b: bool)
    ensures
        b == preamble_has_todos(content@),
{
    let v = chars_of(content);
    let marker = chars_of("\n#");
    match find_from(&v, &marker, 0) {
        Some(i) => {
            proof { lemma_find_from_found(v@, marker@, 0, i as int); }
            let mut pre = String::new();
            crate::text::push_range(&mut pre, &v, 0, i);
            assert(pre@ =~= content@.take(i as int));
            text_has_open_todo(pre.as_str())
        },
        None => false,
    }
}

/// `Todo filter ON: <n> heading<s> with open todos`
pub open spec fn todo_on_message(n: nat) -> Seq<char> {
    "Todo filter ON: "@ + decimal(n) + " heading"@ + crate::edits::plural(n) + " with open todos"@
}

/// `b` is `a` with the todo filter switched: the flag flipped and the
/// outline rebuilt over the same tree, collapsed headings and document.
pub open spec fn todo_filter_toggled(a: App, b: App) -> bool {
    &&& b.outline.filter_by_todos == !a.outline.filter_by_todos
    &&& entries(b.outline.items@) == shown_outline(
        a.tree@,
        text_set(a.outline.collapsed_headings@),
        a.document,
        !a.outline.filter_by_todos,
    )
    &&& b.outline.collapsed_headings == a.outline.collapsed_headings
    &&& b.document == a.document
    &&& b.tree == a.tree
}

impl App {
    /// Toggle filtering the outline by open todos: the outline is rebuilt
    /// (see [`shown_outline`]), the selected heading stays selected when it
    /// still shows, else the first row is, and the new state is reported.
    pub fn toggle_todo_filter(&mut self)
        requires
            old(self).ready(),
        ensures
            final(self).ready(),
            todo_filter_toggled(*old(self), *final(self)),
            final(self).outline.selected == ({
                let items = entries(final(self).outline.items@);
                match selected_text(old(self).outline.items@, old(self).outline.selected) {
                    Some(t) => match first_text_index(items, t) {
                        Some(k) => Some(k as usize),
                        None => if items.len() > 0 { Some(0usize) } else { old(self).outline.selected },
                    },
                    None => if items.len() > 0 { Some(0usize) } else { old(self).outline.selected },
                }
            }),
            final(self).status_message matches Some(m) && m@ == (if final(self).outline.filter_by_todos {
                todo_on_message(final(self).outline.items@.len() as nat)
            } else {
                "Todo filter OFF: showing all headings"@
            }),
            final(self).mode == old(self).mode,
            final(self).layout == old(self).layout,
    {
        self.outline.filter_by_todos = !self.outline.filter_by_todos;
        let selected = match self.selected_heading_text() {
            Some(t) => Some(crate::app::string_from(t)),
            None => None,
        };
        self.rebuild_outline_items();
        let mut placed = false;
        if let Some(text) = selected {
            placed = self.select_by_text(text.as_str());
        }
        if !placed && self.outline.items.len() > 0 {
            self.outline.selected = Some(0);
        }
        if self.outline.filter_by_todos {
            let count = self.outline.items.len();
            let mut m = crate::app::string_from("Todo filter ON: ");
            push_str(&mut m, decimal_string(count as u64).as_str());
            push_str(&mut m, " heading");
            if count != 1 {
                push_str(&mut m, "s");
            }
            push_str(&mut m, " with open todos");
            proof { reveal_strlit("s"); }
            assert(m@ =~= todo_on_message(count as nat));
            self.set_status_message(m.as_str());
        } else {
            self.set_status_message("Todo filter OFF: showing all headings");
        }
    }
}

} // verus!
