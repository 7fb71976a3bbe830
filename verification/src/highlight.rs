//! Highlighting the matches of a search query in a line of text: the line
//! cut into spans, each marked as a match or not.

use vstd::prelude::*;
use crate::text::{chars_of, find_from, find_from_spec, lemma_find_from_found, lowercase, push_range, to_lowercase};

verus! {

broadcast use vstd::string::group_string_axioms;

/// The spans of `t` from `last` on, searching the lowercased text `tl` for
/// the lowercased query `ql` from `i` on: the text before each match, the
/// match (at the same character positions of `t`), and the text after the
/// last match. A match that runs past the end of `t` is passed over.
pub open spec fn spans_from(t: Seq<char>, tl: Seq<char>, ql: Seq<char>, i: int, last: int) -> Seq<(Seq<char>, bool)>
    decreases tl.len() + 1 - i,
{
    if ql.len() == 0 || i < 0 || i > tl.len() || last < 0 || last > t.len() {
        seq![]
    } else {
        match find_from_spec(tl, ql, i) {
            None => if last < t.len() { seq![(t.subrange(last, t.len() as int), false)] } else { seq![] },
            Some(p) => {
                proof { lemma_find_from_found(tl, ql, i, p); }
                if p + ql.len() > t.len() || p < last {
                    spans_from(t, tl, ql, p + 1, last)
                } else {
                    let before: Seq<(Seq<char>, bool)> = if p > last { seq![(t.subrange(last, p), false)] } else { seq![] };
                    before + seq![(t.subrange(p, p + ql.len()), true)] + spans_from(t, tl, ql, p + ql.len(), p + ql.len())
                }
            },
        }
    }
}

/// The spans of `text` for `query` (compared after lowercasing both): the
/// whole text as one plain span when the query is empty or nothing
/// matches.
pub open spec fn highlight_spec(text: Seq<char>, query: Seq<char>) -> Seq<(Seq<char>, bool)> {
    let s = spans_from(text, lowercase(text), lowercase(query), 0, 0);
    if query.len() == 0 || s.len() == 0 { seq![(text, false)] } else { s }
}

/// The spans as plain values.
pub open spec fn span_views(v: Seq<(String, bool)>) -> Seq<(Seq<char>, bool)> {
    v.map_values(|s: (String, bool)| (s.0@, s.1))
}

/// The characters `from..to` of `v` as a string.
fn piece(v: &Vec<char>, from: usize, to: usize) -> (s: String)
    requires
        from <= to <= v@.len(),
    ensures
        s@ == v@.subrange(from as int, to as int),
{
    let mut s = String::new();
    push_range(&mut s, v, from, to);
    s
}

/// Cut `text` into spans, marking the matches of `query` (see [`highlight_spec`]).
pub fn highlight_matches(text: &str, query: &str) -> (spans: Vec<(String, bool)>)
    ensures
        span_views(spans@) == highlight_spec(text@, query@),
{
    let t = chars_of(text);
    let whole = piece(&t, 0, t.len());
    assert(t@.subrange(0, t@.len() as int) =~= t@);
    if query.is_empty() {
        let mut v: Vec<(String, bool)> = Vec::new();
        v.push((whole, false));
        assert(span_views(v@) =~= highlight_spec(text@, query@));
        return v;
    }
    let tl = chars_of(to_lowercase(text).as_str());
    let ql = chars_of(to_lowercase(query).as_str());
    let ghost total = spans_from(t@, tl@, ql@, 0, 0);
    let mut spans: Vec<(String, bool)> = Vec::new();
    if ql.len() == 0 {
        assert(total =~= Seq::<(Seq<char>, bool)>::empty());
    } else {
        let mut i: usize = 0;
        let mut last: usize = 0;
        let mut done = false;
        assert(span_views(spans@) + spans_from(t@, tl@, ql@, 0, 0) =~= total);
        while !done
            invariant
                ql@.len() > 0,
                i <= tl@.len() + 1,
                last <= t@.len(),
                done ==> span_views(spans@) == total,
                !done ==> i <= tl@.len() && span_views(spans@) + spans_from(t@, tl@, ql@, i as int, last as int) == total,
            decreases tl@.len() + 1 - i + (if done { 0int } else { 1int }),
        {
            let ghost before = span_views(spans@);
            match find_from(&tl, &ql, i) {
                None => {
                    if last < t.len() {
                        spans.push((piece(&t, last, t.len()), false));
                    }
                    assert(span_views(spans@) =~= total);
                    done = true;
                },
                Some(p) => {
                    proof { lemma_find_from_found(tl@, ql@, i as int, p as int); }
                    let tn = tl.len();
                    assert(p + ql@.len() <= tn);
                    if p > t.len() || ql.len() > t.len() - p || p < last {
                        i = p + 1;
                    } else {
                        let end = p + ql.len();
                        if p > last {
                            spans.push((piece(&t, last, p), false));
                        }
                        spans.push((piece(&t, p, end), true));
                        assert(span_views(spans@) =~= before + (if p > last {
                            seq![(t@.subrange(last as int, p as int), false)]
                        } else {
                            Seq::<(Seq<char>, bool)>::empty()
                        }) + seq![(t@.subrange(p as int, end as int), true)]);
                        i = end;
                        last = end;
                    }
                },
            }
        }
    }
    if spans.len() == 0 {
        spans.push((whole, false));
    }
    assert(span_views(spans@) =~= highlight_spec(text@, query@));
    spans
}

} // verus!
