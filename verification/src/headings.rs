//! The structure a document's headings give it: each heading holds the
//! headings that follow it up to the next heading of its level or a lower
//! one, both as a tree and as the text of its section.

use vstd::prelude::*;
use crate::app::{Heading, HeadingNode, string_from};
use crate::files::copy_heading;
use vstd::utf8::{
    decode_utf8, encode_utf8, encode_utf8_decode_utf8, encode_utf8_valid_utf8, is_char_boundary, is_char_boundary_iff_not_is_continuation_byte,
    is_char_boundary_start_end_of_seq, valid_utf8, valid_utf8_split,
};
use vstd::string::StringSliceAdditionalSpecFns;

verus! {

broadcast use vstd::string::group_string_axioms;

/// The first position from `j` on, before `b`, of a heading whose level is
/// at most that of heading `i`; `b` when there is none.
pub open spec fn run_end(hs: Seq<Heading>, i: int, j: int, b: int) -> int
    decreases b - j,
{
    if j >= b {
        b
    } else if hs[j].level <= hs[i].level {
        j
    } else {
        run_end(hs, i, j + 1, b)
    }
}

/// Where the headings nested under heading `i` end, within `b`.
pub open spec fn section_end(hs: Seq<Heading>, i: int, b: int) -> int {
    run_end(hs, i, i + 1, b)
}

proof fn lemma_run_end_range(hs: Seq<Heading>, i: int, j: int, b: int)
    requires
        j <= b,
    ensures
        j <= run_end(hs, i, j, b) <= b,
    decreases b - j,
{
    if j < b && hs[j].level > hs[i].level {
        lemma_run_end_range(hs, i, j + 1, b);
    }
}

/// `ns` is the forest the headings `a..b` form: the first heading with the
/// headings nested under it, then the forest of the rest.
pub open spec fn forest_of(ns: Seq<HeadingNode>, hs: Seq<Heading>, a: int, b: int) -> bool
    decreases b - a, 1int,
{
    if a >= b {
        ns.len() == 0
    } else {
        let e = section_end(hs, a, b);
        if a < e <= b {
            &&& ns.len() > 0
            &&& node_of(ns[0], hs, a, b)
            &&& forest_of(ns.drop_first(), hs, e, b)
        } else {
            false
        }
    }
}

/// `n` is heading `a` with the forest of the headings nested under it.
pub open spec fn node_of(n: HeadingNode, hs: Seq<Heading>, a: int, b: int) -> bool
    decreases b - a, 0int,
{
    let e = section_end(hs, a, b);
    if a < e <= b {
        &&& n.heading == hs[a]
        &&& forest_of(n.children@, hs, a + 1, e)
    } else {
        false
    }
}

/// The tree of a document's headings.
pub open spec fn heading_tree(ns: Seq<HeadingNode>, hs: Seq<Heading>) -> bool {
    forest_of(ns, hs, 0, hs.len() as int)
}

/// Where the headings nested under heading `i` end, within `b`.
fn nested_end(hs: &Vec<Heading>, i: usize, b: usize) -> (e: usize)
    requires
        i < b <= hs@.len(),
    ensures
        e == section_end(hs@, i as int, b as int),
        i < e <= b,
{
    let mut j = i + 1;
    proof { lemma_run_end_range(hs@, i as int, j as int, b as int); }
    while j < b && hs[j].level > hs[i].level
        invariant
            i < j <= b <= hs@.len(),
            run_end(hs@, i as int, j as int, b as int) == section_end(hs@, i as int, b as int),
        decreases b - j,
    {
        j += 1;
    }
    j
}

/// The forest of the headings `a..b` (see [`forest_of`]).
fn build_forest(hs: &Vec<Heading>, a: usize, b: usize) -> (ns: Vec<HeadingNode>)
    requires
        a <= b <= hs@.len(),
    ensures
        forest_of(ns@, hs@, a as int, b as int),
    decreases b - a,
{
    if a >= b {
        return Vec::new();
    }
    let e = nested_end(hs, a, b);
    let children = build_forest(hs, a + 1, e);
    let node = HeadingNode { heading: copy_heading(&hs[a]), children };
    let ghost g = node;
    assert(node_of(g, hs@, a as int, b as int));
    let mut ns = build_forest(hs, e, b);
    let ghost rest = ns@;
    ns.insert(0, node);
    assert(ns@[0] == g);
    assert(ns@.drop_first() =~= rest);
    ns
}

/// The tree of the headings (see [`heading_tree`]): each heading holds
/// the headings that follow it up to the next one of its level or lower.
pub fn build_tree(headings: &Vec<Heading>) -> (tree: Vec<HeadingNode>)
    ensures
        heading_tree(tree@, headings@),
{
    build_forest(headings, 0, headings.len())
}

/// The byte range of heading `i`'s section in a text of `len` bytes: from
/// its offset to that of the next heading of its level or lower (or the
/// end), both kept within the text.
pub open spec fn section_span(hs: Seq<Heading>, i: int, len: int) -> (int, int) {
    let s = if hs[i].offset <= len { hs[i].offset as int } else { len };
    let j = section_end(hs, i, hs.len() as int);
    let e0 = if j < hs.len() { hs[j].offset as int } else { len };
    let e = if e0 < s { s } else if e0 > len { len } else { e0 };
    (s, e)
}

/// The text of heading `i`'s section; empty when its bounds are not on
/// character boundaries.
pub open spec fn section_text(content: Seq<char>, hs: Seq<Heading>, i: int) -> Seq<char> {
    let bytes = encode_utf8(content);
    let (s, e) = section_span(hs, i, bytes.len() as int);
    if is_char_boundary(bytes, s) && is_char_boundary(bytes, e) {
        decode_utf8(bytes.subrange(s, e))
    } else {
        seq![]
    }
}

/// A character boundary stays one in a prefix that ends on a boundary.
proof fn lemma_prefix_boundary(bytes: Seq<u8>, s: int, e: int)
    requires
        valid_utf8(bytes),
        is_char_boundary(bytes, s),
        is_char_boundary(bytes, e),
        0 <= s <= e <= bytes.len(),
    ensures
        valid_utf8(bytes.subrange(0, e)),
        is_char_boundary(bytes.subrange(0, e), s),
{
    valid_utf8_split(bytes, e);
    let f = bytes.subrange(0, e);
    if s == e {
        is_char_boundary_start_end_of_seq(f);
    } else {
        is_char_boundary_iff_not_is_continuation_byte(bytes, s);
        is_char_boundary_iff_not_is_continuation_byte(f, s);
    }
}

/// The section of each heading (see [`section_text`]).
pub fn heading_sections(content: &str, headings: &Vec<Heading>) -> (v: Vec<String>)
    ensures
        v@.len() == headings@.len(),
        forall|i: int| 0 <= i < v@.len() ==> (#[trigger] v@[i])@ == section_text(content@, headings@, i),
{
    let len = content.as_bytes().len();
    let n = headings.len();
    let mut v: Vec<String> = Vec::new();
    let mut i: usize = 0;
    while i < n
        invariant
            i <= n == headings@.len(),
            len == content.spec_bytes().len(),
            v@.len() == i,
            forall|k: int| 0 <= k < i ==> (#[trigger] v@[k])@ == section_text(content@, headings@, k),
        decreases n - i,
    {
        let ghost span = section_span(headings@, i as int, len as int);
        let s = if headings[i].offset <= len { headings[i].offset } else { len };
        let j = nested_end(headings, i, n);
        let e0 = if j < n { headings[j].offset } else { len };
        let e = if e0 < s { s } else if e0 > len { len } else { e0 };
        assert((s as int, e as int) == span);
        let text = if content.is_char_boundary(s) && content.is_char_boundary(e) {
            let (front, _) = content.split_at(e);
            proof {
                encode_utf8_valid_utf8(content@);
                lemma_prefix_boundary(content.spec_bytes(), s as int, e as int);
            }
            let (_, sec) = front.split_at(s);
            proof {
                assert(sec.spec_bytes() =~= content.spec_bytes().subrange(s as int, e as int));
                encode_utf8_decode_utf8(sec@);
            }
            string_from(sec)
        } else {
            String::new()
        };
        v.push(text);
        i += 1;
    }
    v
}

} // verus!
