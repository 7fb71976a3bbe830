//! Properties of the navigator that hold across calls.

use vstd::prelude::*;
use crate::app::{App, HeadingNode, OutlineEntry, entries, flatten_forest, flatten_node, flatten_nodes, node_entry, text_set};
use crate::todos::{shown_outline, todo_filter_toggled};
use crate::history::{saved_on_back_stack, went_back};
use crate::edits::{replace_cell_spec, sanitize_spec};
use crate::folding::toggled;
use crate::interactive::{next_index, previous_index};
use crate::outline::{first_text_from, first_text_index};
use crate::pickers::{cycle_next, cycle_prev};
use crate::text::{join_char, lemma_join_split, lemma_split_char_nonempty, split_char};
use crate::view::{MAX_COUNT, accumulated, next_width};

verus! {

/// Widening the outline three times from a standard width (20, 30 or 40%)
/// comes back to it, and so does narrowing it three times.
pub proof fn law_width_cycle(w: u16, increase: bool)
    requires
        w == 20 || w == 30 || w == 40,
    ensures
        next_width(next_width(next_width(w, increase), increase), increase) == w,
{
}

/// Narrowing undoes widening, and widening undoes narrowing, on a
/// standard width.
pub proof fn law_width_step_back(w: u16, increase: bool)
    requires
        w == 20 || w == 30 || w == 40,
    ensures
        next_width(next_width(w, increase), !increase) == w,
{
}

/// Moving to the next entry of a cyclic list (links, files) and back to
/// the previous one returns to the same entry, and the other way round.
pub proof fn law_cycle_round_trip(i: usize, len: nat)
    requires
        i < len <= usize::MAX,
    ensures
        cycle_prev(cycle_next(Some(i), len), len) == Some(i),
        cycle_next(cycle_prev(Some(i), len), len) == Some(i),
{
}

/// Stepping to the next interactive element and back returns to the same
/// element, and the other way round.
pub proof fn law_element_round_trip(i: usize, len: nat)
    requires
        i < len <= usize::MAX,
    ensures
        previous_index(next_index(Some(i), len), len) == Some(i),
        next_index(previous_index(Some(i), len), len) == Some(i),
{
}

/// The next match (or palette entry) and then the previous one is where
/// the search started, and the other way round: `(i + 1) mod n` and
/// `(i + n - 1) mod n` undo each other.
pub proof fn law_match_round_trip(i: int, n: int)
    requires
        0 <= i < n,
    ensures
        ((((i + 1) % n) + n - 1) % n) == i,
        ((((i + n - 1) % n) + 1) % n) == i,
{
    if i + 1 < n {
        vstd::arithmetic::div_mod::lemma_small_mod((i + 1) as nat, n as nat);
        vstd::arithmetic::div_mod::lemma_small_mod(i as nat, n as nat);
        assert((i + 1 + n - 1) % n == (i + n) % n);
    } else {
        vstd::arithmetic::div_mod::lemma_mod_self_0(n);
        vstd::arithmetic::div_mod::lemma_small_mod((n - 1) as nat, n as nat);
    }
    vstd::arithmetic::div_mod::lemma_mod_add_multiples_vanish(i, n);
    vstd::arithmetic::div_mod::lemma_small_mod(i as nat, n as nat);
    if i > 0 {
        vstd::arithmetic::div_mod::lemma_mod_add_multiples_vanish(i - 1, n);
        vstd::arithmetic::div_mod::lemma_small_mod((i - 1) as nat, n as nat);
    } else {
        vstd::arithmetic::div_mod::lemma_small_mod((n - 1) as nat, n as nat);
        vstd::arithmetic::div_mod::lemma_mod_self_0(n);
    }
}

/// Toggling a heading twice leaves the collapsed headings as they were.
pub proof fn law_toggle_twice(c: Set<Seq<char>>, t: Seq<char>)
    ensures
        toggled(toggled(c, t), t) == c,
{
    if c.contains(t) {
        assert(c.remove(t).insert(t) =~= c);
    } else {
        assert(c.insert(t).remove(t) =~= c);
    }
}

proof fn lemma_collapse_node(node: HeadingNode, c1: Set<Seq<char>>, c2: Set<Seq<char>>)
    requires
        c1.subset_of(c2),
    ensures
        flatten_node(node, c2).len() <= flatten_node(node, c1).len(),
    decreases node, 0int,
{
    lemma_collapse_nodes(node.children@, node.children@.len() as int, c1, c2);
}

proof fn lemma_collapse_nodes(ns: Seq<HeadingNode>, n: int, c1: Set<Seq<char>>, c2: Set<Seq<char>>)
    requires
        c1.subset_of(c2),
    ensures
        flatten_nodes(ns, n, c2).len() <= flatten_nodes(ns, n, c1).len(),
    decreases ns, n,
{
    if 0 < n <= ns.len() {
        lemma_collapse_nodes(ns, n - 1, c1, c2);
        lemma_collapse_node(ns[n - 1], c1, c2);
    }
}

/// Collapsing more headings never adds rows to the outline.
pub proof fn law_collapse_shrinks(tree: Seq<HeadingNode>, c1: Set<Seq<char>>, c2: Set<Seq<char>>)
    requires
        c1.subset_of(c2),
    ensures
        flatten_forest(tree, c2).len() <= flatten_forest(tree, c1).len(),
{
    lemma_collapse_nodes(tree, tree.len() as int, c1, c2);
}

/// When the selected row is the first with its text, jumping to a bookmark
/// of it selects that row again.
pub proof fn law_bookmark_returns(es: Seq<OutlineEntry>, i: int)
    requires
        0 <= i < es.len(),
        forall|j: int| 0 <= j < i ==> es[j].1 != es[i].1,
    ensures
        first_text_index(es, es[i].1) == Some(i),
{
    lemma_first_text_reaches(es, es[i].1, 0, i);
}

proof fn lemma_first_text_reaches(es: Seq<OutlineEntry>, t: Seq<char>, k: int, i: int)
    requires
        0 <= k <= i < es.len(),
        es[i].1 == t,
        forall|j: int| k <= j < i ==> es[j].1 != t,
    ensures
        first_text_from(es, t, k) == Some(i),
    decreases i - k,
{
    if k < i {
        lemma_first_text_reaches(es, t, k + 1, i);
    }
}

/// A sanitized cell value is on one line: it holds no `\n` and no `\r`.
pub proof fn law_sanitized_single_line(s: Seq<char>)
    ensures
        !sanitize_spec(s).contains('\n'),
        !sanitize_spec(s).contains('\r'),
    decreases s.len(),
{
    if s.len() > 0 {
        law_sanitized_single_line(s.drop_last());
        let c = s.last();
        let tail: Seq<char> = if c == '|' {
            seq!['\\', '|']
        } else if c == '\n' || c == '\r' {
            seq![' ']
        } else {
            seq![c]
        };
        assert(sanitize_spec(s) == sanitize_spec(s.drop_last()) + tail);
        assert forall|k: int| 0 <= k < sanitize_spec(s).len() implies sanitize_spec(s)[k] != '\n' && sanitize_spec(s)[k] != '\r' by {
            let p = sanitize_spec(s.drop_last());
            if k < p.len() {
                assert(sanitize_spec(s)[k] == p[k]);
                assert(!p.contains(p[k]) ==> false);
            } else {
                assert(sanitize_spec(s)[k] == tail[k - p.len()]);
            }
        }
    }
}

/// The count prefix never exceeds its cap.
pub proof fn law_count_capped(count: Option<usize>, d: int)
    requires
        0 <= d <= 9,
    ensures
        accumulated(count, d) <= MAX_COUNT,
{
}

/// Splitting a row at `|` and joining the pieces back gives the row.
pub proof fn law_split_join(line: Seq<char>, c: char)
    ensures
        join_char(split_char(line, c), c) == line,
{
    lemma_join_split(line, c);
}

/// Loading another file (after following a link) and then going back
/// returns to the file that was left: its document, heading tree, path,
/// name and scroll position, with the back stack as it was before.
pub proof fn law_load_then_back(a: App, b: App, c: App)
    requires
        saved_on_back_stack(a, b),
        went_back(b, c),
    ensures
        c.document == a.document,
        c.tree == a.tree,
        c.current_file_path == a.current_file_path,
        c.filename == a.filename,
        c.layout.content_scroll == a.layout.content_scroll,
        c.history.file_history@ == a.history.file_history@,
{
}

/// Switching the todo filter twice gives back the outline shown before:
/// the filter is as it was and the outline is rebuilt the way it was.
pub proof fn law_todo_filter_twice(a: App, b: App, c: App)
    requires
        todo_filter_toggled(a, b),
        todo_filter_toggled(b, c),
    ensures
        c.outline.filter_by_todos == a.outline.filter_by_todos,
        entries(c.outline.items@) == shown_outline(
            a.tree@,
            text_set(a.outline.collapsed_headings@),
            a.document,
            a.outline.filter_by_todos,
        ),
{
}

} // verus!
