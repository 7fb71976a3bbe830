//! Whether the current document-search match falls on a link of the
//! displayed section, so that Enter can follow it.

use vstd::prelude::*;
use crate::app::{App, DocSearch, LinkPicker, all_indices, displayed_spec, index_range};
use crate::blocks::LinkTarget;
use crate::edits::lines_of;
use crate::text::{lines_spec, string_of};
use vstd::utf8::encode_utf8;

verus! {

broadcast use vstd::string::group_string_axioms;

/// `x`, or `usize::MAX` when it is larger.
pub open spec fn sat(x: int) -> int {
    if x > usize::MAX { usize::MAX as int } else { x }
}

/// The byte offset in the section of column `col` of line `line`, each
/// line counted as its UTF-8 length and one byte for its line break
/// (all the lines when `line` is past them), added from `acc` on line `k`.
pub open spec fn offset_from(lines: Seq<Seq<char>>, k: int, line: int, col: int, acc: int) -> int
    decreases lines.len() - k,
{
    if k < 0 || k >= lines.len() {
        acc
    } else if k == line {
        sat(acc + col)
    } else {
        offset_from(lines, k + 1, line, col, sat(acc + encode_utf8(lines[k]).len() + 1))
    }
}

/// The byte offset of a match's line and column in the section.
pub open spec fn match_byte_offset(section: Seq<char>, line: int, col: int) -> int {
    offset_from(lines_spec(section), 0, line, col, 0)
}

/// A link starting at `start` with text `text` is taken to reach 20 bytes
/// past its text (room for its markup); a match from `off` to `end`
/// falls on it when the two ranges overlap.
pub open spec fn falls_on(start: int, text: Seq<char>, off: int, end: int) -> bool {
    off < sat(start + encode_utf8(text).len() + 20) && end > start
}

/// The first link from `i` on that the match from `off` to `end` falls on.
pub open spec fn first_link_hit(offsets: Seq<usize>, texts: Seq<String>, off: int, end: int, i: int) -> Option<int>
    decreases offsets.len() - i,
{
    if i < 0 || i >= offsets.len() {
        None
    } else if falls_on(offsets[i] as int, texts[i]@, off, end) {
        Some(i)
    } else {
        first_link_hit(offsets, texts, off, end, i + 1)
    }
}

/// The link the current match falls on, if there is a current match and it does.
pub open spec fn link_at_match(app: App, offsets: Seq<usize>, texts: Seq<String>) -> Option<int> {
    let d = app.doc_search;
    match d.doc_search_current_idx {
        Some(i) => if i < d.doc_search_matches@.len() {
            let m = d.doc_search_matches@[i as int];
            let off = match_byte_offset(displayed_spec(app), m.line as int, m.col_start as int);
            first_link_hit(offsets, texts, off, sat(off + m.len), 0)
        } else {
            None
        },
        None => None,
    }
}

/// The UTF-8 length of the characters.
fn utf8_len(v: &Vec<char>) -> (n: usize)
    ensures
        n == encode_utf8(v@).len(),
{
    let s = string_of(v);
    s.as_str().as_bytes().len()
}

/// `a + b`, or `usize::MAX` when that is larger.
fn sat_add(a: usize, b: usize) -> (r: usize)
    ensures
        r == sat(a + b),
{
    if a <= usize::MAX - b { a + b } else { usize::MAX }
}

/// The byte offset of a line and column in the section (see [`match_byte_offset`]).
fn byte_offset_of(section: &str, line: usize, col: usize) -> (off: usize)
    ensures
        off == match_byte_offset(section@, line as int, col as int),
{
    let lines = lines_of(section);
    let ghost ls = lines_spec(section@);
    let mut acc: usize = 0;
    let mut k: usize = 0;
    while k < lines.len()
        invariant
            k <= lines@.len() == ls.len(),
            ls == lines_spec(section@),
            forall|j: int| 0 <= j < lines@.len() ==> (#[trigger] lines@[j])@ == ls[j],
            k <= line,
            offset_from(ls, 0, line as int, col as int, 0) == offset_from(ls, k as int, line as int, col as int, acc as int),
        decreases lines@.len() - k,
    {
        if k == line {
            let r = sat_add(acc, col);
            assert(offset_from(ls, k as int, line as int, col as int, acc as int) == sat(acc + col));
            return r;
        }
        let n = utf8_len(&lines[k]);
        acc = sat_add(sat_add(acc, n), 1);
        k += 1;
    }
    acc
}

impl App {
    /// When the current document-search match falls on a link of the
    /// displayed section (see [`link_at_match`]), the section's links
    /// (their texts, targets as written, destinations and byte offsets,
    /// as the driver extracted them) become the links in view and that
    /// link is selected; with a current match and no link under it, the
    /// links are still taken. Nothing happens without a current match.
    pub fn detect_link_at_search_match(
        &mut self,
        link_texts: Vec<String>,
        link_targets: Vec<String>,
        link_destinations: Vec<LinkTarget>,
        link_offsets: Vec<usize>,
    )
        requires
            link_offsets@.len() == link_texts@.len(),
        ensures
            ({
                let o = old(self);
                let d = o.doc_search;
                let current = d.doc_search_current_idx matches Some(i) && i < d.doc_search_matches@.len();
                if !current {
                    *final(self) == *o
                } else {
                    let hit = link_at_match(*o, link_offsets@, link_texts@);
                    &&& final(self).links == (LinkPicker {
                        link_texts,
                        link_targets,
                        link_destinations,
                        filtered_link_indices: final(self).links.filtered_link_indices,
                        selected_link_idx: match hit { Some(h) => Some(h as usize), None => o.links.selected_link_idx },
                        ..o.links
                    })
                    &&& final(self).links.filtered_link_indices@ == all_indices(link_texts@.len())
                    &&& final(self).doc_search == (DocSearch {
                        doc_search_selected_link_idx: match hit { Some(h) => Some(h as usize), None => d.doc_search_selected_link_idx },
                        ..d
                    })
                    &&& *final(self) == (App { links: final(self).links, doc_search: final(self).doc_search, ..*o })
                }
            }),
    {
        let idx = match self.doc_search.doc_search_current_idx {
            Some(i) => i,
            None => return,
        };
        if idx >= self.doc_search.doc_search_matches.len() {
            return;
        }
        let m = self.doc_search.doc_search_matches[idx];
        let section = self.displayed_content();
        let off = byte_offset_of(section.as_str(), m.line, m.col_start);
        let end = sat_add(off, m.len);
        let mut hit: Option<usize> = None;
        let mut i: usize = 0;
        while hit.is_none() && i < link_offsets.len()
            invariant
                i <= link_offsets@.len() == link_texts@.len(),
                hit is None ==> first_link_hit(link_offsets@, link_texts@, off as int, end as int, 0)
                    == first_link_hit(link_offsets@, link_texts@, off as int, end as int, i as int),
                hit matches Some(h) ==> first_link_hit(link_offsets@, link_texts@, off as int, end as int, 0)
                    == Some(h as int),
            decreases link_offsets@.len() - i + (if hit is None { 1int } else { 0int }),
        {
            let n = link_texts[i].as_str().as_bytes().len();
            let reach = sat_add(sat_add(link_offsets[i], n), 20);
            if off < reach && end > link_offsets[i] {
                hit = Some(i);
            } else {
                i += 1;
            }
        }
        let count = link_texts.len();
        self.links.link_texts = link_texts;
        self.links.link_targets = link_targets;
        self.links.link_destinations = link_destinations;
        self.links.filtered_link_indices = index_range(count);
        if let Some(h) = hit {
            self.doc_search.doc_search_selected_link_idx = Some(h);
            self.links.selected_link_idx = Some(h);
        }
    }
}

} // verus!
