//! The file picker's listing of a directory: the markdown files among its
//! entries, sorted by name.

use vstd::prelude::*;
use vstd::relations::{sorted_by, total_ordering};
use crate::links::{extension_of, joined, opt_chars, path_extension, path_join};
use crate::text::{chars_of, str_eq};

verus! {

broadcast use vstd::string::group_string_axioms;

/// Names in order, character by character (by code point); a name comes
/// before the longer names it begins. For the entries of one directory
/// this is the order of their paths.
pub open spec fn name_le(a: Seq<char>, b: Seq<char>) -> bool
    decreases a.len(),
{
    if a.len() == 0 {
        true
    } else if b.len() == 0 {
        false
    } else if a[0] != b[0] {
        a[0] < b[0]
    } else {
        name_le(a.drop_first(), b.drop_first())
    }
}

/// [`name_le`] as a relation.
pub open spec fn name_order() -> spec_fn(Seq<char>, Seq<char>) -> bool {
    |a: Seq<char>, b: Seq<char>| name_le(a, b)
}

/// A directory entry (its name, and whether it is a file) that the picker
/// lists: a file whose extension is `md` or `markdown`.
pub open spec fn is_markdown_entry(e: (Seq<char>, bool)) -> bool {
    e.1 && (extension_of(e.0) == Some("md"@) || extension_of(e.0) == Some("markdown"@))
}

/// The names of the first `n` entries that the picker lists, in order.
pub open spec fn markdown_names(es: Seq<(Seq<char>, bool)>, n: int) -> Seq<Seq<char>>
    decreases n,
{
    if n <= 0 || n > es.len() {
        seq![]
    } else if is_markdown_entry(es[n - 1]) {
        markdown_names(es, n - 1).push(es[n - 1].0)
    } else {
        markdown_names(es, n - 1)
    }
}

/// The entries as plain values.
pub open spec fn entry_views(es: Seq<(String, bool)>) -> Seq<(Seq<char>, bool)> {
    es.map_values(|e: (String, bool)| (e.0@, e.1))
}

/// The names the picker lists, sorted (see [`name_le`]).
pub open spec fn listed_names(es: Seq<(String, bool)>) -> Seq<Seq<char>> {
    let v = entry_views(es);
    markdown_names(v, v.len() as int).sort_by(name_order())
}

proof fn lemma_name_le_reflexive(a: Seq<char>)
    ensures
        name_le(a, a),
    decreases a.len(),
{
    if a.len() > 0 {
        lemma_name_le_reflexive(a.drop_first());
    }
}

proof fn lemma_name_le_antisymmetric(a: Seq<char>, b: Seq<char>)
    requires
        name_le(a, b),
        name_le(b, a),
    ensures
        a == b,
    decreases a.len(),
{
    if a.len() > 0 && b.len() > 0 {
        lemma_name_le_antisymmetric(a.drop_first(), b.drop_first());
        assert(a =~= seq![a[0]] + a.drop_first());
        assert(b =~= seq![b[0]] + b.drop_first());
    } else {
        assert(a =~= b);
    }
}

proof fn lemma_name_le_transitive(a: Seq<char>, b: Seq<char>, c: Seq<char>)
    requires
        name_le(a, b),
        name_le(b, c),
    ensures
        name_le(a, c),
    decreases a.len(),
{
    if a.len() > 0 && b.len() > 0 && c.len() > 0 && a[0] == b[0] && b[0] == c[0] {
        lemma_name_le_transitive(a.drop_first(), b.drop_first(), c.drop_first());
    }
}

proof fn lemma_name_le_total(a: Seq<char>, b: Seq<char>)
    ensures
        name_le(a, b) || name_le(b, a),
    decreases a.len(),
{
    if a.len() > 0 && b.len() > 0 && a[0] == b[0] {
        lemma_name_le_total(a.drop_first(), b.drop_first());
    }
}

/// [`name_le`] is a total order.
pub proof fn lemma_name_order_total()
    ensures
        total_ordering(name_order()),
{
    let r = name_order();
    assert forall|x: Seq<char>| #[trigger] r(x, x) by {
        lemma_name_le_reflexive(x);
    }
    assert forall|x: Seq<char>, y: Seq<char>| #[trigger] r(x, y) && #[trigger] r(y, x) implies x == y by {
        lemma_name_le_antisymmetric(x, y);
    }
    assert forall|x: Seq<char>, y: Seq<char>, z: Seq<char>| #[trigger] r(x, y) && #[trigger] r(y, z) implies r(x, z) by {
        lemma_name_le_transitive(x, y, z);
    }
    assert forall|x: Seq<char>, y: Seq<char>| #[trigger] r(x, y) || #[trigger] r(y, x) by {
        lemma_name_le_total(x, y);
    }
}

/// Whether `a` comes no later than `b` (see [`name_le`]).
pub fn chars_le(a: &Vec<char>, b: &Vec<char>) -> (r: bool)
    ensures
        r == name_le(a@, b@),
{
    let mut i: usize = 0;
    assert(a@.skip(0) =~= a@ && b@.skip(0) =~= b@);
    while i < a.len() && i < b.len() && a[i] == b[i]
        invariant
            i <= a.len(),
            i <= b.len(),
            name_le(a@, b@) == name_le(a@.skip(i as int), b@.skip(i as int)),
        decreases a.len() - i,
    {
        assert(a@.skip(i as int + 1) =~= a@.skip(i as int).drop_first());
        assert(b@.skip(i as int + 1) =~= b@.skip(i as int).drop_first());
        i += 1;
    }
    if i == a.len() {
        true
    } else if i == b.len() {
        false
    } else {
        a[i] < b[i]
    }
}

/// Whether the path's extension is `md` or `markdown`.
fn has_listed_extension(name: &str) -> (b: bool)
    ensures
        b == (extension_of(name@) == Some("md"@) || extension_of(name@) == Some("markdown"@)),
{
    match path_extension(name) {
        Some(e) => str_eq(e.as_str(), "md") || str_eq(e.as_str(), "markdown"),
        None => false,
    }
}

/// Insert `x` into the sorted `v` after the names that come no later than it.
fn insert_sorted(v: &mut Vec<String>, x: String)
    requires
        sorted_by(old(v)@.map_values(|s: String| s@), name_order()),
    ensures
        sorted_by(final(v)@.map_values(|s: String| s@), name_order()),
        final(v)@.map_values(|s: String| s@).to_multiset()
            == old(v)@.map_values(|s: String| s@).to_multiset().insert(x@),
{
    proof { lemma_name_order_total(); }
    let ghost names = v@.map_values(|s: String| s@);
    let xc = chars_of(x.as_str());
    let mut p: usize = 0;
    let mut stop = false;
    while !stop && p < v.len()
        invariant
            p <= v.len(),
            names == v@.map_values(|s: String| s@),
            xc@ == x@,
            forall|k: int| 0 <= k < p ==> name_le(#[trigger] names[k], x@),
            stop ==> p < names.len() && !name_le(names[p as int], x@),
        decreases v.len() - p + (if stop { 0int } else { 1int }),
    {
        let vc = chars_of(v[p].as_str());
        if !chars_le(&vc, &xc) {
            stop = true;
        } else {
            p += 1;
        }
    }
    proof {
        let r = name_order();
        if p < names.len() {
            lemma_name_le_total(names[p as int], x@);
            assert forall|k: int| p <= k < names.len() implies name_le(x@, #[trigger] names[k]) by {
                if k > p {
                    assert(r(names[p as int], names[k]));
                    lemma_name_le_transitive(x@, names[p as int], names[k]);
                }
            }
        }
    }
    v.insert(p, x);
    proof {
        let n2 = v@.map_values(|s: String| s@);
        assert(n2 =~= names.insert(p as int, x@));
        vstd::seq_lib::to_multiset_insert(names, p as int, x@);
        let r = name_order();
        assert forall|i: int, j: int| 0 <= i < j < n2.len() implies #[trigger] r(n2[i], n2[j]) by {
            if j < p {
                assert(n2[i] == names[i] && n2[j] == names[j]);
            } else if j == p {
                assert(n2[j] == x@);
                assert(n2[i] == names[i]);
            } else if i == p {
                assert(n2[i] == x@);
                assert(n2[j] == names[j - 1]);
            } else if i < p {
                assert(n2[i] == names[i]);
                assert(n2[j] == names[j - 1]);
                lemma_name_le_transitive(names[i], x@, names[j - 1]);
            } else {
                assert(n2[i] == names[i - 1] && n2[j] == names[j - 1]);
            }
        }
    }
}

/// The markdown files among a directory's entries (each its name and
/// whether it is a file), sorted by name (see [`listed_names`]): their
/// paths in `dir`, and their names.
pub fn markdown_files(dir: &str, entries: &Vec<(String, bool)>) -> (r: (Vec<String>, Vec<String>))
    ensures
        r.1@.map_values(|s: String| s@) == listed_names(entries@),
        r.0@.len() == r.1@.len(),
        forall|i: int| 0 <= i < r.0@.len() ==> (#[trigger] r.0@[i])@ == joined(dir@, r.1@[i]@),
{
    proof { lemma_name_order_total(); }
    let ghost es = entry_views(entries@);
    let mut names: Vec<String> = Vec::new();
    let mut i: usize = 0;
    assert(names@.map_values(|s: String| s@) =~= markdown_names(es, 0));
    while i < entries.len()
        invariant
            i <= entries.len(),
            es == entry_views(entries@),
            sorted_by(names@.map_values(|s: String| s@), name_order()),
            names@.map_values(|s: String| s@).to_multiset() == markdown_names(es, i as int).to_multiset(),
        decreases entries.len() - i,
    {
        let (name, is_file) = (&entries[i].0, entries[i].1);
        assert(es[i as int] == (name@, is_file));
        if is_file && has_listed_extension(name.as_str()) {
            insert_sorted(&mut names, name.clone());
            proof {
                vstd::seq_lib::to_multiset_build(markdown_names(es, i as int), name@);
            }
        }
        i += 1;
    }
    proof {
        let m = markdown_names(es, es.len() as int);
        m.lemma_sort_by_ensures(name_order());
        vstd::seq_lib::lemma_sorted_unique(names@.map_values(|s: String| s@), m.sort_by(name_order()), name_order());
    }
    let mut paths: Vec<String> = Vec::new();
    let mut k: usize = 0;
    while k < names.len()
        invariant
            k <= names.len(),
            paths@.len() == k,
            forall|j: int| 0 <= j < k ==> (#[trigger] paths@[j])@ == joined(dir@, names@[j]@),
        decreases names.len() - k,
    {
        paths.push(path_join(dir, names[k].as_str()));
        k += 1;
    }
    (paths, names)
}

} // verus!
