//! Collapsing and expanding headings of the outline.

use vstd::prelude::*;
use crate::app::{
    App, Focus, HeadingNode, Outline, OutlineEntry, OutlineItem, distinct_texts, entries,
    insert_text, outline_spec, remove_text, shows_overview, string_from, text_set,
};
use crate::outline::{first_text_index, lemma_lower_level_range, parent_index, selected_text};
use crate::text::{decimal, decimal_string, push_str};

verus! {

broadcast use vstd::string::group_string_axioms;

/// The collapsed set with `t` toggled: removed when present, else added.
pub open spec fn toggled(c: Set<Seq<char>>, t: Seq<char>) -> Set<Seq<char>> {
    if c.contains(t) { c.remove(t) } else { c.insert(t) }
}

/// Which headings of a tree to collect.
#[derive(Debug, Clone, Copy, PartialEq, Eq, Structural)]
pub enum HeadingFilter {
    /// Headings that have children.
    HasChildren,
    /// Headings of the given level that have children.
    LevelWithChildren(usize),
    /// Headings of the given level.
    Level(usize),
}

/// The filter keeps this node's heading.
pub open spec fn keeps(f: HeadingFilter, node: HeadingNode) -> bool {
    match f {
        HeadingFilter::HasChildren => node.children@.len() > 0,
        HeadingFilter::LevelWithChildren(l) => node.heading.level == l && node.children@.len() > 0,
        HeadingFilter::Level(l) => node.heading.level == l,
    }
}

/// Texts of the kept headings of a node and its descendants, in document order.
pub open spec fn collect_node(node: HeadingNode, f: HeadingFilter) -> Seq<Seq<char>>
    decreases node, 0int,
{
    (if keeps(f, node) { seq![node.heading.text@] } else { seq![] })
        + collect_nodes(node.children@, node.children@.len() as int, f)
}

/// Texts of the kept headings of the first `n` nodes of a forest.
pub open spec fn collect_nodes(ns: Seq<HeadingNode>, n: int, f: HeadingFilter) -> Seq<Seq<char>>
    decreases ns, n,
{
    if n <= 0 || n > ns.len() {
        seq![]
    } else {
        collect_nodes(ns, n - 1, f) + collect_node(ns[n - 1], f)
    }
}

/// Texts of the kept headings of a forest.
pub open spec fn collect_forest(ns: Seq<HeadingNode>, f: HeadingFilter) -> Seq<Seq<char>> {
    collect_nodes(ns, ns.len() as int, f)
}

/// The texts of a list of strings.
pub open spec fn texts(v: Seq<String>) -> Seq<Seq<char>> {
    v.map_values(|s: String| s@)
}

/// The selection after the outline was rebuilt: the first item with the
/// remembered text; when it is gone, the first item if `fallback` (and
/// there is one); otherwise the selection stays as it was.
pub open spec fn restored_selection(items: Seq<OutlineItem>, sel: Option<usize>, text: Option<Seq<char>>, fallback: bool) -> Option<usize> {
    match text {
        Some(t) => match first_text_index(entries(items), t) {
            Some(k) => Some(k as usize),
            None => if fallback && items.len() > 0 { Some(0usize) } else { sel },
        },
        None => sel,
    }
}

/// The selection after toggling row `i`: the row with text `t`, else `i`
/// clamped to the outline.
pub open spec fn reselected(items: Seq<OutlineItem>, t: Seq<char>, i: usize) -> Option<usize> {
    match first_text_index(entries(items), t) {
        Some(k) => Some(k as usize),
        None => Some(if i + 1 <= items.len() { i } else if items.len() > 0 { (items.len() - 1) as usize } else { 0usize }),
    }
}

/// The number of texts of `l` found, and removed, one after the other
/// from the set `c`.
pub open spec fn removal_count(c: Set<Seq<char>>, l: Seq<Seq<char>>, k: int) -> nat
    decreases k,
{
    if k <= 0 || k > l.len() {
        0
    } else {
        removal_count(c, l, k - 1) + if c.contains(l[k - 1]) && !l.take(k - 1).contains(l[k - 1]) { 1nat } else { 0nat }
    }
}

/// Appends the kept headings of a node and its descendants.
fn collect_node_into(node: &HeadingNode, f: HeadingFilter, out: &mut Vec<String>)
    ensures
        texts(final(out)@) == texts(old(out)@) + collect_node(*node, f),
    decreases *node, 0int,
{
    let ghost start = texts(out@);
    let keep = match f {
        HeadingFilter::HasChildren => node.children.len() > 0,
        HeadingFilter::LevelWithChildren(l) => node.heading.level == l && node.children.len() > 0,
        HeadingFilter::Level(l) => node.heading.level == l,
    };
    if keep {
        out.push(node.heading.text.clone());
    }
    assert(texts(out@) =~= start + (if keeps(f, *node) { seq![node.heading.text@] } else { seq![] }));
    let ghost mid = texts(out@);
    collect_nodes_into(node.children.as_slice(), f, out);
    assert(texts(out@) =~= start + collect_node(*node, f));
}

/// Appends the kept headings of each node of a forest, in order.
fn collect_nodes_into(nodes: &[HeadingNode], f: HeadingFilter, out: &mut Vec<String>)
    ensures
        texts(final(out)@) == texts(old(out)@) + collect_nodes(nodes@, nodes@.len() as int, f),
    decreases nodes@, 1int,
{
    let ghost start = texts(out@);
    let mut i: usize = 0;
    while i < nodes.len()
        invariant
            i <= nodes.len(),
            texts(out@) == start + collect_nodes(nodes@, i as int, f),
        decreases nodes.len() - i,
    {
        collect_node_into(&nodes[i], f, out);
        i += 1;
        assert(texts(out@) =~= start + collect_nodes(nodes@, i as int, f));
    }
}

/// The kept headings of a forest.
fn collect_tree(tree: &[HeadingNode], f: HeadingFilter) -> (v: Vec<String>)
    ensures
        texts(v@) == collect_forest(tree@, f),
{
    let mut v: Vec<String> = Vec::new();
    assert(texts(v@) =~= Seq::<Seq<char>>::empty());
    collect_nodes_into(tree, f, &mut v);
    assert(texts(v@) =~= collect_forest(tree@, f));
    v
}

/// Message after collapsing: `Collapsed N headings`.
pub open spec fn collapsed_message(n: nat) -> Seq<char> {
    "Collapsed "@ + decimal(n) + " headings"@
}

/// Message after expanding: `Expanded N headings`.
pub open spec fn expanded_message(n: nat) -> Seq<char> {
    "Expanded "@ + decimal(n) + " headings"@
}

/// Message after collapsing a level: `Collapsed N hL headings`.
pub open spec fn collapsed_level_message(n: nat, level: nat) -> Seq<char> {
    "Collapsed "@ + decimal(n) + " h"@ + decimal(level) + " headings"@
}

/// Message after expanding a level: `Expanded N hL headings`.
pub open spec fn expanded_level_message(n: nat, level: nat) -> Seq<char> {
    "Expanded "@ + decimal(n) + " h"@ + decimal(level) + " headings"@
}

/// `prefix N middle` or `prefix N middle L suffix`.
fn count_message(prefix: &str, n: usize, level: Option<usize>, suffix: &str) -> (s: String)
    ensures
        s@ == (match level {
            Some(l) => prefix@ + decimal(n as nat) + " h"@ + decimal(l as nat) + suffix@,
            None => prefix@ + decimal(n as nat) + suffix@,
        }),
{
    let mut s = string_from(prefix);
    let d = decimal_string(n as u64);
    push_str(&mut s, d.as_str());
    match level {
        Some(l) => {
            push_str(&mut s, " h");
            let dl = decimal_string(l as u64);
            push_str(&mut s, dl.as_str());
        },
        None => {},
    }
    push_str(&mut s, suffix);
    s
}

impl App {
    /// Recursively collect all heading texts that have children.
    pub fn collect_collapsible_headings(node: &HeadingNode) -> (v: Vec<String>)
        ensures
            texts(v@) == collect_node(*node, HeadingFilter::HasChildren),
    {
        let mut v: Vec<String> = Vec::new();
        assert(texts(v@) =~= Seq::<Seq<char>>::empty());
        collect_node_into(node, HeadingFilter::HasChildren, &mut v);
        assert(texts(v@) =~= collect_node(*node, HeadingFilter::HasChildren));
        v
    }

    /// Recursively collect headings at a specific level that have children.
    pub fn collect_headings_at_level_with_children(node: &HeadingNode, target_level: usize) -> (v: Vec<String>)
        ensures
            texts(v@) == collect_node(*node, HeadingFilter::LevelWithChildren(target_level)),
    {
        let mut v: Vec<String> = Vec::new();
        assert(texts(v@) =~= Seq::<Seq<char>>::empty());
        collect_node_into(node, HeadingFilter::LevelWithChildren(target_level), &mut v);
        assert(texts(v@) =~= collect_node(*node, HeadingFilter::LevelWithChildren(target_level)));
        v
    }

    /// Collect heading texts at a specific level.
    pub fn collect_headings_at_level(&self, node: &HeadingNode, target_level: usize) -> (v: Vec<String>)
        ensures
            texts(v@) == collect_node(*node, HeadingFilter::Level(target_level)),
    {
        let mut v: Vec<String> = Vec::new();
        assert(texts(v@) =~= Seq::<Seq<char>>::empty());
        collect_node_into(node, HeadingFilter::Level(target_level), &mut v);
        assert(texts(v@) =~= collect_node(*node, HeadingFilter::Level(target_level)));
        v
    }

    /// The selected heading's text, copied.
    fn selected_text_owned(&self) -> (r: Option<String>)
        ensures
            match selected_text(self.outline.items@, self.outline.selected) {
                Some(t) => r matches Some(s) && s@ == t,
                None => r is None,
            },
    {
        match self.selected_heading_text() {
            Some(t) => Some(string_from(t)),
            None => None,
        }
    }

    /// After a rebuild: select the first item with `text`; when it is gone,
    /// the first item if `fallback`.
    fn restore_selection(&mut self, text: Option<String>, fallback: bool)
        ensures
            *final(self) == old(self).with_selected(restored_selection(
                old(self).outline.items@,
                old(self).outline.selected,
                match text { Some(t) => Some(t@), None => None },
                fallback,
            )),
    {
        if let Some(t) = text {
            if !self.select_by_text(t.as_str()) {
                if fallback && self.outline.items.len() > 0 {
                    self.select_outline_index(0);
                }
            }
        }
    }

    /// Adds every text of `list` to the collapsed headings.
    fn collapse_texts(&mut self, list: Vec<String>)
        requires
            distinct_texts(old(self).outline.collapsed_headings@),
        ensures
            distinct_texts(final(self).outline.collapsed_headings@),
            text_set(final(self).outline.collapsed_headings@)
                == text_set(old(self).outline.collapsed_headings@).union(texts(list@).to_set()),
            *final(self) == (App {
                outline: Outline { collapsed_headings: final(self).outline.collapsed_headings, ..old(self).outline },
                ..*old(self)
            }),
    {
        let ghost l = texts(list@);
        let ghost c0 = text_set(self.outline.collapsed_headings@);
        let mut list = list;
        let mut i: usize = 0;
        let n = list.len();
        let mut rest: Vec<String> = Vec::new();
        std::mem::swap(&mut rest, &mut list);
        while i < n
            invariant
                i <= n == rest@.len(),
                texts(rest@) == l,
                distinct_texts(self.outline.collapsed_headings@),
                text_set(self.outline.collapsed_headings@) == c0.union(l.take(i as int).to_set()),
                *self == (App {
                    outline: Outline { collapsed_headings: self.outline.collapsed_headings, ..old(self).outline },
                    ..*old(self)
                }),
            decreases n - i,
        {
            let t = rest[i].clone();
            insert_text(&mut self.outline.collapsed_headings, t);
            proof {
                assert(l.take(i + 1) =~= l.take(i as int).push(l[i as int]));
                assert(l.take(i + 1).to_set() =~= l.take(i as int).to_set().insert(l[i as int])) by {
                    l.take(i as int).lemma_push_to_set_commute(l[i as int]);
                }
                assert(text_set(self.outline.collapsed_headings@) =~= c0.union(l.take(i + 1).to_set()));
            }
            i += 1;
        }
        assert(l.take(n as int) =~= l);
    }

    /// What [`App::toggle_expand`] does: `post` is `pre` after it.
    pub open spec fn toggle_expand_effect(pre: App, post: App) -> bool {
        &&& post.ready()
        &&& ({
        let o = pre.outline;
        match o.selected {
            Some(i) => if pre.layout.focus == Focus::Outline && i < o.items@.len() && o.items@[i as int].has_children {
                let t = o.items@[i as int].text@;
                let c = toggled(text_set(o.collapsed_headings@), t);
                &&& text_set(post.outline.collapsed_headings@) == c
                &&& entries(post.outline.items@) == crate::todos::shown_outline(pre.tree@, c, pre.document, pre.outline.filter_by_todos)
                &&& post.outline.selected == reselected(post.outline.items@, t, i)
                &&& post == (App { outline: Outline {
                    items: post.outline.items,
                    selected: post.outline.selected,
                    collapsed_headings: post.outline.collapsed_headings,
                    ..o
                }, ..pre })
            } else {
                post == pre
            },
            None => post == pre,
        }
    })
    }

    /// Toggle expand/collapse of the selected heading (when it has children),
    /// keeping it selected.
    pub fn toggle_expand(&mut self)
        requires
            old(self).ready(),
        ensures
            Self::toggle_expand_effect(*old(self), *final(self)),
    {
        if self.layout.focus == Focus::Outline {
            if let Some(i) = self.outline.selected {
                if i < self.outline.items.len() && self.outline.items[i].has_children {
                    let heading_text = self.outline.items[i].text.clone();
                    if contains_text_str(&self.outline.collapsed_headings, heading_text.as_str()) {
                        remove_text(&mut self.outline.collapsed_headings, heading_text.as_str());
                    } else {
                        insert_text(&mut self.outline.collapsed_headings, heading_text.clone());
                    }
                    self.rebuild_outline_items();
                    self.reselect(heading_text.as_str(), i);
                }
            }
        }
    }

    /// Select the row with `text`, else row `i` clamped to the outline.
    fn reselect(&mut self, text: &str, i: usize)
        ensures
            *final(self) == old(self).with_selected(reselected(old(self).outline.items@, text@, i)),
    {
        if !self.select_by_text(text) {
            let safe_idx = if i < self.outline.items.len().saturating_sub(1) { i } else { self.outline.items.len().saturating_sub(1) };
            self.select_outline_index(safe_idx);
        }
    }

    /// What [`App::expand`] does: `post` is `pre` after it.
    pub open spec fn expand_effect(pre: App, post: App) -> bool {
        &&& post.ready()
        &&& ({
        let o = pre.outline;
        match o.selected {
            Some(i) => if pre.layout.focus == Focus::Outline && i < o.items@.len() && o.items@[i as int].has_children {
                let t = o.items@[i as int].text@;
                let c = text_set(o.collapsed_headings@).remove(t);
                &&& text_set(post.outline.collapsed_headings@) == c
                &&& entries(post.outline.items@) == crate::todos::shown_outline(pre.tree@, c, pre.document, pre.outline.filter_by_todos)
                &&& post.outline.selected == reselected(post.outline.items@, t, i)
                &&& post == (App { outline: Outline {
                    items: post.outline.items,
                    selected: post.outline.selected,
                    collapsed_headings: post.outline.collapsed_headings,
                    ..o
                }, ..pre })
            } else {
                post == pre
            },
            None => post == pre,
        }
    })
    }

    /// Expand the selected heading (when it has children).
    pub fn expand(&mut self)
        requires
            old(self).ready(),
        ensures
            Self::expand_effect(*old(self), *final(self)),
    {
        if self.layout.focus == Focus::Outline {
            if let Some(i) = self.outline.selected {
                if i < self.outline.items.len() && self.outline.items[i].has_children {
                    let heading_text = self.outline.items[i].text.clone();
                    remove_text(&mut self.outline.collapsed_headings, heading_text.as_str());
                    self.rebuild_outline_items();
                    self.reselect(heading_text.as_str(), i);
                }
            }
        }
    }

    /// Collapse all headings that have children.
    pub fn collapse_all(&mut self)
        requires
            old(self).ready(),
        ensures
            final(self).ready(),
            ({
                let c = text_set(old(self).outline.collapsed_headings@)
                    .union(collect_forest(old(self).tree@, HeadingFilter::HasChildren).to_set());
                &&& text_set(final(self).outline.collapsed_headings@) == c
                &&& entries(final(self).outline.items@) == crate::todos::shown_outline(old(self).tree@, c, old(self).document, old(self).outline.filter_by_todos)
                &&& final(self).outline.selected == restored_selection(
                    final(self).outline.items@,
                    old(self).outline.selected,
                    selected_text(old(self).outline.items@, old(self).outline.selected),
                    true,
                )
                &&& final(self).status_message matches Some(m)
                    && m@ == collapsed_message(final(self).outline.collapsed_headings@.len())
                &&& *final(self) == (App {
                    outline: Outline {
                        items: final(self).outline.items,
                        selected: final(self).outline.selected,
                        collapsed_headings: final(self).outline.collapsed_headings,
                        ..old(self).outline
                    },
                    status_message: final(self).status_message,
                    status_message_fresh: true,
                    ..*old(self)
                })
            }),
    {
        let headings_to_collapse = collect_tree(self.tree.as_slice(), HeadingFilter::HasChildren);
        self.collapse_texts(headings_to_collapse);
        let selected = self.selected_text_owned();
        self.rebuild_outline_items();
        self.restore_selection(selected, true);
        let count = self.outline.collapsed_headings.len();
        let msg = count_message("Collapsed ", count, None, " headings");
        self.set_status_message(msg.as_str());
    }
}

impl App {
    /// Removes every text of `list` from the collapsed headings; returns how
    /// many were there.
    fn expand_texts(&mut self, list: Vec<String>) -> (count: usize)
        requires
            distinct_texts(old(self).outline.collapsed_headings@),
        ensures
            distinct_texts(final(self).outline.collapsed_headings@),
            text_set(final(self).outline.collapsed_headings@)
                == text_set(old(self).outline.collapsed_headings@).difference(texts(list@).to_set()),
            count == removal_count(text_set(old(self).outline.collapsed_headings@), texts(list@), list@.len() as int),
            *final(self) == (App {
                outline: Outline { collapsed_headings: final(self).outline.collapsed_headings, ..old(self).outline },
                ..*old(self)
            }),
    {
        let ghost l = texts(list@);
        let ghost c0 = text_set(self.outline.collapsed_headings@);
        let n = list.len();
        let mut count: usize = 0;
        let mut i: usize = 0;
        while i < n
            invariant
                i <= n == list@.len(),
                texts(list@) == l,
                distinct_texts(self.outline.collapsed_headings@),
                text_set(self.outline.collapsed_headings@) == c0.difference(l.take(i as int).to_set()),
                count == removal_count(c0, l, i as int),
                count <= i,
                *self == (App {
                    outline: Outline { collapsed_headings: self.outline.collapsed_headings, ..old(self).outline },
                    ..*old(self)
                }),
            decreases n - i,
        {
            let removed = remove_text(&mut self.outline.collapsed_headings, list[i].as_str());
            proof {
                assert(l[i as int] == list@[i as int]@);
                assert(l.take(i + 1) =~= l.take(i as int).push(l[i as int]));
                assert(l.take(i + 1).to_set() =~= l.take(i as int).to_set().insert(l[i as int])) by {
                    l.take(i as int).lemma_push_to_set_commute(l[i as int]);
                }
                assert(text_set(self.outline.collapsed_headings@) =~= c0.difference(l.take(i + 1).to_set()));
                assert(l.take(i as int).contains(l[i as int]) <==> l.take(i as int).to_set().contains(l[i as int]));
            }
            if removed {
                count += 1;
            }
            i += 1;
        }
        assert(l.take(n as int) =~= l);
        count
    }

    /// What [`App::collapse`] does: `post` is `pre` after it.
    pub open spec fn collapse_effect(pre: App, post: App) -> bool {
        &&& post.ready()
        &&& ({
        let o = pre.outline;
        match o.selected {
            Some(i) => if pre.layout.focus == Focus::Outline && i < o.items@.len() {
                if o.items@[i as int].has_children {
                    let t = o.items@[i as int].text@;
                    let c = text_set(o.collapsed_headings@).insert(t);
                    &&& text_set(post.outline.collapsed_headings@) == c
                    &&& entries(post.outline.items@) == crate::todos::shown_outline(pre.tree@, c, pre.document, pre.outline.filter_by_todos)
                    &&& post.outline.selected == reselected(post.outline.items@, t, i)
                    &&& post == (App { outline: Outline {
                        items: post.outline.items,
                        selected: post.outline.selected,
                        collapsed_headings: post.outline.collapsed_headings,
                        ..o
                    }, ..pre })
                } else {
                    match parent_index(entries(o.items@), i as int) {
                        Some(p) => {
                            let t = o.items@[p].text@;
                            let c = text_set(o.collapsed_headings@).insert(t);
                            &&& text_set(post.outline.collapsed_headings@) == c
                            &&& entries(post.outline.items@) == crate::todos::shown_outline(pre.tree@, c, pre.document, pre.outline.filter_by_todos)
                            &&& post.outline.selected == restored_selection(post.outline.items@, o.selected, Some(t), true)
                            &&& post == (App { outline: Outline {
                                items: post.outline.items,
                                selected: post.outline.selected,
                                collapsed_headings: post.outline.collapsed_headings,
                                ..o
                            }, ..pre })
                        },
                        None => post == pre,
                    }
                }
            } else {
                post == pre
            },
            None => post == pre,
        }
    })
    }

    /// Collapse the selected heading when it has children; otherwise collapse
    /// its parent and select the parent.
    pub fn collapse(&mut self)
        requires
            old(self).ready(),
        ensures
            Self::collapse_effect(*old(self), *final(self)),
    {
        if self.layout.focus == Focus::Outline {
            if let Some(i) = self.outline.selected {
                if i < self.outline.items.len() {
                    let current_text = self.outline.items[i].text.clone();
                    if self.outline.items[i].has_children {
                        insert_text(&mut self.outline.collapsed_headings, current_text.clone());
                        self.rebuild_outline_items();
                        self.reselect(current_text.as_str(), i);
                    } else {
                        if let Some(p) = self.parent_of(i) {
                            proof {
                                lemma_lower_level_range(entries(self.outline.items@), self.outline.items@[i as int].level, i - 1);
                            }
                            let parent = self.outline.items[p].text.clone();
                            insert_text(&mut self.outline.collapsed_headings, parent.clone());
                            self.rebuild_outline_items();
                            self.restore_selection(Some(parent), true);
                        }
                    }
                }
            }
        }
    }

    /// Expand all headings.
    pub fn expand_all(&mut self)
        requires
            old(self).ready(),
        ensures
            final(self).ready(),
            final(self).outline.collapsed_headings@.len() == 0,
            entries(final(self).outline.items@) == crate::todos::shown_outline(old(self).tree@, Set::empty(), old(self).document, old(self).outline.filter_by_todos),
            final(self).outline.selected == restored_selection(
                final(self).outline.items@,
                old(self).outline.selected,
                selected_text(old(self).outline.items@, old(self).outline.selected),
                false,
            ),
            final(self).status_message matches Some(m)
                && m@ == expanded_message(old(self).outline.collapsed_headings@.len()),
            *final(self) == (App {
                outline: Outline {
                    items: final(self).outline.items,
                    selected: final(self).outline.selected,
                    collapsed_headings: final(self).outline.collapsed_headings,
                    ..old(self).outline
                },
                status_message: final(self).status_message,
                status_message_fresh: true,
                ..*old(self)
            }),
    {
        let count = self.outline.collapsed_headings.len();
        self.outline.collapsed_headings = Vec::new();
        assert(text_set(self.outline.collapsed_headings@) =~= Set::<Seq<char>>::empty());
        let selected = self.selected_text_owned();
        self.rebuild_outline_items();
        self.restore_selection(selected, false);
        let msg = count_message("Expanded ", count, None, " headings");
        self.set_status_message(msg.as_str());
    }

    /// Collapse all headings at a specific level that have children.
    pub fn collapse_level(&mut self, level: usize)
        requires
            old(self).ready(),
        ensures
            final(self).ready(),
            ({
                let l = collect_forest(old(self).tree@, HeadingFilter::LevelWithChildren(level));
                let c = text_set(old(self).outline.collapsed_headings@).union(l.to_set());
                &&& text_set(final(self).outline.collapsed_headings@) == c
                &&& entries(final(self).outline.items@) == crate::todos::shown_outline(old(self).tree@, c, old(self).document, old(self).outline.filter_by_todos)
                &&& final(self).outline.selected == restored_selection(
                    final(self).outline.items@,
                    old(self).outline.selected,
                    selected_text(old(self).outline.items@, old(self).outline.selected),
                    true,
                )
                &&& final(self).status_message matches Some(m)
                    && m@ == collapsed_level_message(l.len(), level as nat)
                &&& *final(self) == (App {
                    outline: Outline {
                        items: final(self).outline.items,
                        selected: final(self).outline.selected,
                        collapsed_headings: final(self).outline.collapsed_headings,
                        ..old(self).outline
                    },
                    status_message: final(self).status_message,
                    status_message_fresh: true,
                    ..*old(self)
                })
            }),
    {
        let headings_to_collapse = collect_tree(self.tree.as_slice(), HeadingFilter::LevelWithChildren(level));
        let count = headings_to_collapse.len();
        self.collapse_texts(headings_to_collapse);
        let selected = self.selected_text_owned();
        self.rebuild_outline_items();
        self.restore_selection(selected, true);
        let msg = count_message("Collapsed ", count, Some(level), " headings");
        self.set_status_message(msg.as_str());
    }

    /// Expand all collapsed headings at a specific level.
    pub fn expand_level(&mut self, level: usize)
        requires
            old(self).ready(),
        ensures
            final(self).ready(),
            ({
                let l = collect_forest(old(self).tree@, HeadingFilter::Level(level));
                let c0 = text_set(old(self).outline.collapsed_headings@);
                let c = c0.difference(l.to_set());
                &&& text_set(final(self).outline.collapsed_headings@) == c
                &&& entries(final(self).outline.items@) == crate::todos::shown_outline(old(self).tree@, c, old(self).document, old(self).outline.filter_by_todos)
                &&& final(self).outline.selected == restored_selection(
                    final(self).outline.items@,
                    old(self).outline.selected,
                    selected_text(old(self).outline.items@, old(self).outline.selected),
                    false,
                )
                &&& final(self).status_message matches Some(m)
                    && m@ == expanded_level_message(removal_count(c0, l, l.len() as int), level as nat)
                &&& *final(self) == (App {
                    outline: Outline {
                        items: final(self).outline.items,
                        selected: final(self).outline.selected,
                        collapsed_headings: final(self).outline.collapsed_headings,
                        ..old(self).outline
                    },
                    status_message: final(self).status_message,
                    status_message_fresh: true,
                    ..*old(self)
                })
            }),
    {
        let headings_at_level = collect_tree(self.tree.as_slice(), HeadingFilter::Level(level));
        let count = self.expand_texts(headings_at_level);
        let selected = self.selected_text_owned();
        self.rebuild_outline_items();
        self.restore_selection(selected, false);
        let msg = count_message("Expanded ", count, Some(level), " headings");
        self.set_status_message(msg.as_str());
    }
}

/// Whether `text` is in the list.
fn contains_text_str(v: &Vec<String>, text: &str) -> (b: bool)
    ensures
        b == text_set(v@).contains(text@),
{
    let t = string_from(text);
    crate::app::contains_text(v, &t)
}

} // verus!
