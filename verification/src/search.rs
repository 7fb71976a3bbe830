//! Searching: filtering the outline by heading text, and finding, stepping
//! through and reporting matches inside the displayed section.

use vstd::prelude::*;
use vstd::string::StringSliceAdditionalSpecFns;
use vstd::utf8::encode_utf8;
use crate::app::{
    displayed_spec,
    App, AppMode, DocSearch, DOCUMENT_OVERVIEW, Layout, Outline, OutlineEntry, OutlineItem,
    OutlineSearch, SearchMatch, entries, flatten_forest, overview_entry, shows_overview,
    string_from, text_set,
};
use crate::edits::lines_of;
use crate::folding::restored_selection;
use crate::outline::{first_text_index, selected_text};
use crate::text::{
    contains, contains_spec, chars_of, decimal, decimal_string, lines_spec, lowercase, pop_char,
    push_char, push_str, string_of, to_lowercase,
};
use crate::view::sat_sub;

verus! {

broadcast use vstd::string::group_string_axioms;

/// Maximum search query length (in bytes).
pub const MAX_SEARCH_LEN: usize = 256;

/// `char::is_control`: the C0 and C1 control characters.
pub open spec fn is_control(c: char) -> bool {
    (c as u32) <= 0x1F || (0x7F <= (c as u32) && (c as u32) <= 0x9F)
}

/// A typed character is taken into a search query: not a control
/// character, though a tab is.
pub open spec fn accepts_char(c: char) -> bool {
    !is_control(c) || c == '\t'
}

/// The entries whose text contains `q` once both are lowercased, in order.
pub open spec fn matching_entries(es: Seq<OutlineEntry>, q: Seq<char>, n: int) -> Seq<OutlineEntry>
    decreases n,
{
    if n <= 0 || n > es.len() {
        seq![]
    } else {
        matching_entries(es, q, n - 1) + if contains_spec(lowercase(es[n - 1].1), lowercase(q)) {
            seq![es[n - 1]]
        } else {
            seq![]
        }
    }
}

/// The outline for a non-empty search: the matching headings of the full
/// tree, after the overview entry when the document has one and its name
/// matches too.
pub open spec fn filtered_outline(app: App, q: Seq<char>) -> Seq<OutlineEntry> {
    let f = flatten_forest(app.tree@, text_set(app.outline.collapsed_headings@));
    let m = matching_entries(f, q, f.len() as int);
    if shows_overview(app.document) && contains_spec(lowercase(DOCUMENT_OVERVIEW@), lowercase(q)) {
        seq![overview_entry(app.tree@.len() > 0)] + m
    } else {
        m
    }
}

/// Positions of the non-overlapping occurrences of `n` in `h` at or after
/// `i`, taking each leftmost occurrence and resuming after it.
pub open spec fn occurrences(h: Seq<u8>, n: Seq<u8>, i: int) -> Seq<int>
    decreases h.len() - i,
{
    if n.len() == 0 || i < 0 || i + n.len() > h.len() {
        seq![]
    } else if h.subrange(i, i + n.len()) == n {
        seq![i] + occurrences(h, n, i + n.len())
    } else {
        occurrences(h, n, i + 1)
    }
}

/// The matches of line `k`.
pub open spec fn line_matches(line: Seq<char>, k: int, q: Seq<char>) -> Seq<SearchMatch> {
    let n = encode_utf8(lowercase(q));
    occurrences(encode_utf8(lowercase(line)), n, 0).map_values(
        |p: int| SearchMatch { line: k as usize, col_start: p as usize, len: n.len() as usize },
    )
}

/// The matches of the first `k` lines.
pub open spec fn lines_matches(lines: Seq<Seq<char>>, k: int, q: Seq<char>) -> Seq<SearchMatch>
    decreases k,
{
    if k <= 0 || k > lines.len() {
        seq![]
    } else {
        lines_matches(lines, k - 1, q) + line_matches(lines[k - 1], k - 1, q)
    }
}

/// Every case-insensitive match of `q` in a text: line by line, byte
/// offsets within the lowercased line.
pub open spec fn doc_matches(text: Seq<char>, q: Seq<char>) -> Seq<SearchMatch> {
    let lines = lines_spec(text);
    lines_matches(lines, lines.len() as int, q)
}

/// Byte positions of the occurrences of `n` in `h` (see [`occurrences`]).
fn find_occurrences(h: &[u8], n: &[u8]) -> (ps: Vec<usize>)
    requires
        n@.len() > 0,
    ensures
        ps@.len() == occurrences(h@, n@, 0).len(),
        forall|k: int| 0 <= k < ps@.len() ==> (#[trigger] ps@[k]) as int == occurrences(h@, n@, 0)[k],
{
    let mut ps: Vec<usize> = Vec::new();
    let mut i: usize = 0;
    while n.len() <= h.len() - i
        invariant
            i <= h@.len(),
            n@.len() > 0,
            ({
                let done = ps@.map_values(|p: usize| p as int);
                done + occurrences(h@, n@, i as int) == occurrences(h@, n@, 0)
            }),
        decreases h@.len() - i,
    {
        let mut j: usize = 0;
        while j < n.len() && h[i + j] == n[j]
            invariant
                j <= n@.len(),
                i + n@.len() <= h@.len(),
                h@.len() == h.len(),
                forall|k: int| 0 <= k < j ==> h@[i + k] == n@[k],
            decreases n@.len() - j,
        {
            j += 1;
        }
        let ghost done = ps@.map_values(|p: usize| p as int);
        if j == n.len() {
            assert(h@.subrange(i as int, i + n@.len()) =~= n@);
            ps.push(i);
            assert(ps@.map_values(|p: usize| p as int) =~= done.push(i as int));
            i = i + n.len();
        } else {
            assert(h@.subrange(i as int, i + n@.len()) != n@) by {
                assert(h@.subrange(i as int, i + n@.len())[j as int] != n@[j as int]);
            }
            i = i + 1;
        }
    }
    assert(occurrences(h@, n@, i as int) =~= Seq::<int>::empty());
    assert(ps@.map_values(|p: usize| p as int) =~= occurrences(h@, n@, 0));
    ps
}

/// Every case-insensitive match of `query` in `text` (see [`doc_matches`]);
/// none for an empty query.
pub fn find_doc_matches(text: &str, query: &str) -> (ms: Vec<SearchMatch>)
    ensures
        lowercase(query@).len() > 0 ==> ms@ == doc_matches(text@, query@),
        lowercase(query@).len() == 0 ==> ms@.len() == 0,
{
    let ql = to_lowercase(query);
    let qb = ql.as_str().as_bytes();
    let mut ms: Vec<SearchMatch> = Vec::new();
    if qb.len() == 0 {
        return ms;
    }
    proof {
        if lowercase(query@).len() == 0 {
            assert(encode_utf8(lowercase(query@)) =~= Seq::<u8>::empty());
        } else {
            vstd::utf8::encode_utf8_first_scalar(lowercase(query@));
        }
    }
    let lines = lines_of(text);
    let ghost ls = lines_spec(text@);
    let mut k: usize = 0;
    while k < lines.len()
        invariant
            k <= lines@.len() == ls.len(),
            forall|j: int| 0 <= j < lines@.len() ==> (#[trigger] lines@[j])@ == ls[j],
            qb@ == encode_utf8(lowercase(query@)),
            qb@.len() > 0,
            ms@ == lines_matches(ls, k as int, query@),
        decreases lines@.len() - k,
    {
        let line = string_of(&lines[k]);
        let lower = to_lowercase(line.as_str());
        let hb = lower.as_str().as_bytes();
        let ps = find_occurrences(hb, qb);
        let ghost before = ms@;
        let mut j: usize = 0;
        while j < ps.len()
            invariant
                j <= ps@.len(),
                ms@ == before + occurrences(hb@, qb@, 0).take(j as int).map_values(
                    |p: int| SearchMatch { line: k as usize, col_start: p as usize, len: qb@.len() as usize },
                ),
                ps@.len() == occurrences(hb@, qb@, 0).len(),
                forall|t: int| 0 <= t < ps@.len() ==> (#[trigger] ps@[t]) as int == occurrences(hb@, qb@, 0)[t],
            decreases ps@.len() - j,
        {
            ms.push(SearchMatch { line: k, col_start: ps[j], len: qb.len() });
            j += 1;
            let ghost occ = occurrences(hb@, qb@, 0);
            assert(occ.take(j as int) =~= occ.take(j - 1).push(occ[j - 1]));
            assert(ms@ =~= before + occ.take(j as int).map_values(
                |p: int| SearchMatch { line: k as usize, col_start: p as usize, len: qb@.len() as usize },
            ));
        }
        let ghost occ = occurrences(hb@, qb@, 0);
        assert(occ.take(ps@.len() as int) =~= occ);
        assert(hb@ == encode_utf8(lowercase(ls[k as int])));
        k += 1;
    }
    ms
}

/// The scroll that brings match line `line` to the middle of the viewport,
/// kept above the last line.
pub open spec fn match_scroll(l: Layout, line: usize) -> u16 {
    let s = sat_sub((line as u16) as int, (l.content_viewport_height / 2) as int);
    let limit = sat_sub(l.content_height as int, 1);
    (if s <= limit { s } else { limit }) as u16
}

/// Name for what `turbovault_parser::to_plain_text` gives of markdown:
/// its visible text.
pub uninterp spec fn plain_text_of(markdown: Seq<char>) -> Seq<char>;

/// `turbovault_parser::to_plain_text`: the text of the markdown's blocks
/// without their markup, joined by newlines. The contract only ties the
/// result to [`plain_text_of`].
#[verifier::external_body]
pub(crate) fn to_plain_text(markdown: &str) -> (s: String)
    ensures
        s@ == plain_text_of(markdown@),
{
    turbovault_parser::to_plain_text(markdown)
}

/// `new` is `old` after searching `plain` for the document-search query:
/// no match for an empty query; otherwise the query's matches (see
/// [`doc_matches`]), the first selected and scrolled to.
pub open spec fn searched(old: App, new: App, plain: Seq<char>) -> bool {
    &&& old.doc_search.doc_search_query@.len() == 0 ==> {
        &&& new.doc_search.doc_search_matches@.len() == 0
        &&& new.doc_search.doc_search_current_idx is None
    }
    &&& old.doc_search.doc_search_query@.len() > 0 && lowercase(old.doc_search.doc_search_query@).len() > 0 ==> {
        let ms = doc_matches(plain, old.doc_search.doc_search_query@);
        &&& new.doc_search.doc_search_matches@ == ms
        &&& new.doc_search.doc_search_current_idx == (if ms.len() > 0 { Some(0usize) } else { None })
        &&& (ms.len() > 0 ==> new.layout.content_scroll == match_scroll(old.layout, ms[0].line))
    }
    &&& new.doc_search == (DocSearch {
        doc_search_matches: new.doc_search.doc_search_matches,
        doc_search_current_idx: new.doc_search.doc_search_current_idx,
        doc_search_selected_link_idx: new.doc_search.doc_search_selected_link_idx,
        ..old.doc_search
    })
    &&& new.layout == (Layout { content_scroll: new.layout.content_scroll, ..old.layout })
    &&& new == (App { doc_search: new.doc_search, layout: new.layout, ..old })
}

impl App {
    /// The outline matching the search query (everything when it is empty);
    /// the selected heading stays selected when it still shows, else the
    /// first row is.
    pub fn filter_outline(&mut self)
        requires
            old(self).ready(),
        ensures
            final(self).ready(),
            ({
                let q = old(self).outline_search.search_query@;
                let items = if q.len() == 0 {
                    crate::todos::shown_outline(old(self).tree@, text_set(old(self).outline.collapsed_headings@), old(self).document, old(self).outline.filter_by_todos)
                } else {
                    filtered_outline(*old(self), q)
                };
                &&& entries(final(self).outline.items@) == items
                &&& final(self).outline.selected == (if items.len() > 0 {
                    match selected_text(old(self).outline.items@, old(self).outline.selected) {
                        Some(t) => match first_text_index(items, t) {
                            Some(k) => Some(k as usize),
                            None => Some(0usize),
                        },
                        None => Some(0usize),
                    }
                } else {
                    old(self).outline.selected
                })
                &&& *final(self) == (App {
                    outline: Outline { items: final(self).outline.items, selected: final(self).outline.selected, ..old(self).outline },
                    ..*old(self)
                })
            }),
    {
        let current = match self.selected_heading_text() {
            Some(t) => Some(string_from(t)),
            None => None,
        };
        if self.outline_search.search_query.as_str().is_empty() {
            self.rebuild_outline_items();
        } else {
            let query_lower = to_lowercase(self.outline_search.search_query.as_str());
            let ql = chars_of(query_lower.as_str());
            let has_preamble = Self::has_preamble_content(&self.document);
            let all = Self::flatten_tree(self.tree.as_slice(), &self.outline.collapsed_headings);
            let ghost es = entries(all@);
            let mut items: Vec<OutlineItem> = Vec::new();
            let mut i: usize = 0;
            while i < all.len()
                invariant
                    i <= all@.len(),
                    es == entries(all@),
                    ql@ == lowercase(self.outline_search.search_query@),
                    entries(items@) == matching_entries(es, self.outline_search.search_query@, i as int),
                decreases all@.len() - i,
            {
                let tl = to_lowercase(all[i].text.as_str());
                let tv = chars_of(tl.as_str());
                if contains(&tv, &ql) {
                    let it = OutlineItem {
                        level: all[i].level,
                        text: all[i].text.clone(),
                        expanded: all[i].expanded,
                        has_children: all[i].has_children,
                    };
                    let ghost before = entries(items@);
                    items.push(it);
                    assert(entries(items@) =~= before.push(es[i as int]));
                } else {
                    assert(entries(items@) =~= matching_entries(es, self.outline_search.search_query@, i + 1));
                }
                i += 1;
            }
            if has_preamble || self.document.headings.len() == 0 {
                let ol = to_lowercase(DOCUMENT_OVERVIEW);
                let ov = chars_of(ol.as_str());
                if contains(&ov, &ql) {
                    let ghost m = entries(items@);
                    let mut text = String::new();
                    push_str(&mut text, DOCUMENT_OVERVIEW);
                    items.insert(0, OutlineItem { level: 0, text, expanded: true, has_children: self.tree.len() > 0 });
                    assert(entries(items@) =~= seq![overview_entry(self.tree@.len() > 0)] + m);
                }
            }
            self.outline.items = items;
        }
        if self.outline.items.len() > 0 {
            let restored = match current {
                Some(t) => self.select_by_text(t.as_str()),
                None => false,
            };
            if !restored {
                self.select_outline_index(0);
            }
        }
    }

    /// Type a character into the outline search (up to 256 bytes; control
    /// characters but tab are ignored) and filter.
    pub fn search_input(&mut self, c: char)
        requires
            old(self).ready(),
        ensures
            final(self).ready(),
            ({
                let o = old(self);
                if encode_utf8(o.outline_search.search_query@).len() as usize >= MAX_SEARCH_LEN || !accepts_char(c) {
                    *final(self) == *o
                } else {
                    &&& final(self).outline_search.search_query@ == o.outline_search.search_query@.push(c)
                    &&& entries(final(self).outline.items@) == filtered_outline(*o, o.outline_search.search_query@.push(c))
                }
            }),
    {
        if self.outline_search.search_query.as_str().len() >= MAX_SEARCH_LEN {
            return;
        }
        let u = c as u32;
        if (u <= 0x1F || (0x7F <= u && u <= 0x9F)) && c != '\t' {
            return;
        }
        crate::text::push_char(&mut self.outline_search.search_query, c);
        self.filter_outline();
    }

    /// Delete the last character of the outline search and filter.
    pub fn search_backspace(&mut self)
        requires
            old(self).ready(),
        ensures
            final(self).ready(),
            final(self).outline_search.search_query@ == (if old(self).outline_search.search_query@.len() > 0 {
                old(self).outline_search.search_query@.drop_last()
            } else {
                old(self).outline_search.search_query@
            }),
    {
        pop_char(&mut self.outline_search.search_query);
        self.filter_outline();
    }

    /// Find the matches of the document-search query in a section's plain
    /// text, select the first and scroll to it (see [`searched`]).
    pub fn search_plain_text(&mut self, plain_content: &str)
        ensures
            searched(*old(self), *final(self), plain_content@),
    {
        self.doc_search.doc_search_matches = Vec::new();
        if self.doc_search.doc_search_query.as_str().is_empty() {
            self.doc_search.doc_search_current_idx = None;
            return;
        }
        let ms = find_doc_matches(plain_content, self.doc_search.doc_search_query.as_str());
        self.doc_search.doc_search_current_idx = if ms.len() == 0 { None } else { Some(0) };
        self.doc_search.doc_search_matches = ms;
        self.scroll_to_doc_search_match();
    }

    /// Find the matches of the document-search query in the plain text of
    /// the displayed section, select the first and scroll to it.
    pub fn update_doc_search_matches(&mut self)
        ensures
            searched(*old(self), *final(self), plain_text_of(displayed_spec(*old(self)))),
    {
        let content = self.displayed_content();
        let plain = to_plain_text(content.as_str());
        self.search_plain_text(plain.as_str());
    }

    /// Scroll so the current match's line is in the middle of the viewport.
    pub fn scroll_to_doc_search_match(&mut self)
        ensures
            final(self).doc_search == (DocSearch { doc_search_selected_link_idx: None, ..old(self).doc_search }),
            final(self).layout == (match old(self).doc_search.doc_search_current_idx {
                Some(i) => if i < old(self).doc_search.doc_search_matches@.len() {
                    Layout {
                        content_scroll: match_scroll(old(self).layout, old(self).doc_search.doc_search_matches@[i as int].line),
                        ..old(self).layout
                    }
                } else {
                    old(self).layout
                },
                None => old(self).layout,
            }),
            *final(self) == (App { doc_search: final(self).doc_search, layout: final(self).layout, ..*old(self) }),
    {
        self.doc_search.doc_search_selected_link_idx = None;
        if let Some(idx) = self.doc_search.doc_search_current_idx {
            if idx < self.doc_search.doc_search_matches.len() {
                let match_line = self.doc_search.doc_search_matches[idx].line as u16;
                let half_viewport = self.layout.content_viewport_height / 2;
                let s = match_line.saturating_sub(half_viewport);
                let limit = self.layout.content_height.saturating_sub(1);
                self.layout.content_scroll = if s <= limit { s } else { limit };
            }
        }
    }

    /// What [`App::next_doc_match`] does: `post` is `pre` after it.
    pub open spec fn next_doc_match_effect(pre: App, post: App) -> bool {
        &&& ({
        let o = pre;
        if o.outline_search.show_search && !o.outline_search.outline_search_active && o.outline.items@.len() > 0 {
            let current: int = match o.outline.selected { Some(c) => c as int, None => 0 };
            post == o.with_selected(Some(((current + 1) % (o.outline.items@.len() as int)) as usize))
        } else if o.doc_search.doc_search_matches@.len() == 0 {
            post == o
        } else {
            let len = o.doc_search.doc_search_matches@.len() as int;
            let next: usize = match o.doc_search.doc_search_current_idx {
                Some(i) => ((i + 1) % len) as usize,
                None => 0,
            };
            &&& post.doc_search == (DocSearch {
                doc_search_current_idx: Some(next),
                doc_search_selected_link_idx: None,
                ..o.doc_search
            })
            &&& post.layout == (Layout {
                content_scroll: match_scroll(o.layout, o.doc_search.doc_search_matches@[next as int].line),
                ..o.layout
            })
            &&& post == (App { doc_search: post.doc_search, layout: post.layout, ..o })
        }
    })
    }

    /// Step to the next match (wrapping). In an accepted outline search,
    /// step to the next filtered heading instead.
    #[verifier::rlimit(40)]
    pub fn next_doc_match(&mut self)
        ensures
            Self::next_doc_match_effect(*old(self), *final(self)),
    {
        if self.outline_search.show_search && !self.outline_search.outline_search_active && self.outline.items.len() > 0 {
            let current = match self.outline.selected { Some(c) => c, None => 0 };
            let next = ((current as u128 + 1) % (self.outline.items.len() as u128)) as usize;
            self.select_outline_index(next);
            return;
        }
        if self.doc_search.doc_search_matches.len() == 0 {
            return;
        }
        let len = self.doc_search.doc_search_matches.len();
        self.doc_search.doc_search_current_idx = Some(match self.doc_search.doc_search_current_idx {
            Some(idx) => ((idx as u128 + 1) % (len as u128)) as usize,
            None => 0,
        });
        self.scroll_to_doc_search_match();
    }

    /// What [`App::prev_doc_match`] does: `post` is `pre` after it.
    pub open spec fn prev_doc_match_effect(pre: App, post: App) -> bool {
        &&& ({
        let o = pre;
        if o.outline_search.show_search && !o.outline_search.outline_search_active && o.outline.items@.len() > 0 {
            let current: int = match o.outline.selected { Some(c) => c as int, None => 0 };
            let len = o.outline.items@.len() as int;
            post == o.with_selected(Some(((current + len - 1) % len) as usize))
        } else if o.doc_search.doc_search_matches@.len() == 0 {
            post == o
        } else {
            let len = o.doc_search.doc_search_matches@.len() as int;
            let prev: usize = match o.doc_search.doc_search_current_idx {
                Some(i) => ((i + len - 1) % len) as usize,
                None => (len - 1) as usize,
            };
            &&& post.doc_search == (DocSearch {
                doc_search_current_idx: Some(prev),
                doc_search_selected_link_idx: None,
                ..o.doc_search
            })
            &&& post.layout == (Layout {
                content_scroll: match_scroll(o.layout, o.doc_search.doc_search_matches@[prev as int].line),
                ..o.layout
            })
            &&& post == (App { doc_search: post.doc_search, layout: post.layout, ..o })
        }
    })
    }

    /// Step to the previous match (wrapping). In an accepted outline
    /// search, step to the previous filtered heading instead.
    #[verifier::rlimit(40)]
    pub fn prev_doc_match(&mut self)
        ensures
            Self::prev_doc_match_effect(*old(self), *final(self)),
    {
        if self.outline_search.show_search && !self.outline_search.outline_search_active && self.outline.items.len() > 0 {
            let current = match self.outline.selected { Some(c) => c, None => 0 };
            let len = self.outline.items.len();
            let prev = ((current as u128 + len as u128 - 1) % (len as u128)) as usize;
            self.select_outline_index(prev);
            return;
        }
        if self.doc_search.doc_search_matches.len() == 0 {
            return;
        }
        let len = self.doc_search.doc_search_matches.len();
        self.doc_search.doc_search_current_idx = Some(match self.doc_search.doc_search_current_idx {
            Some(idx) => ((idx as u128 + len as u128 - 1) % (len as u128)) as usize,
            None => len - 1,
        });
        self.scroll_to_doc_search_match();
    }
}

/// The status line of the document search.
pub open spec fn doc_search_status_spec(app: App) -> Seq<char> {
    let d = app.doc_search;
    let q = d.doc_search_query@;
    if d.doc_search_matches@.len() == 0 {
        if q.len() == 0 { "Search: "@ } else { "Search: "@ + q + " (no matches)"@ }
    } else {
        let current: nat = match d.doc_search_current_idx { Some(i) => (i + 1) as nat, None => 1 };
        let base = "Search: "@ + q + " ("@ + decimal(current) + "/"@ + decimal(d.doc_search_matches@.len()) + ")"@;
        match d.doc_search_selected_link_idx {
            Some(li) => if li < app.links.link_texts@.len() {
                base + " → ["@ + app.links.link_texts@[li as int]@ + "] (Enter to follow)"@
            } else {
                base
            },
            None => base,
        }
    }
}

impl App {
    /// What [`App::toggle_search`] does: `post` is `pre` after it.
    pub open spec fn toggle_search_effect(pre: App, post: App) -> bool {
        &&& post.ready()
        &&& ({
        let s = pre.outline_search;
        &&& post.outline_search.search_query@.len() == 0
        &&& post.outline_search.show_search == !(s.show_search && s.outline_search_active)
        &&& post.outline_search.outline_search_active == !(s.show_search && s.outline_search_active)
        &&& (s.show_search ==> entries(post.outline.items@) == crate::todos::shown_outline(pre.tree@, text_set(pre.outline.collapsed_headings@), pre.document, pre.outline.filter_by_todos))
        &&& (!s.show_search ==> post.outline == pre.outline)
        &&& post.mode == pre.mode
        &&& post.doc_search == pre.doc_search
    })
    }

    /// Outline search on and off: while typing, close it and show the whole
    /// outline; after it was accepted, start a new query; otherwise open it.
    pub fn toggle_search(&mut self)
        requires
            old(self).ready(),
        ensures
            Self::toggle_search_effect(*old(self), *final(self)),
    {
        if self.outline_search.show_search && self.outline_search.outline_search_active {
            self.outline_search.show_search = false;
            self.outline_search.outline_search_active = false;
            self.outline_search.search_query = String::new();
            self.filter_outline();
        } else if self.outline_search.show_search {
            self.outline_search.search_query = String::new();
            self.filter_outline();
            self.outline_search.outline_search_active = true;
        } else {
            self.outline_search.show_search = true;
            self.outline_search.outline_search_active = true;
            self.outline_search.search_query = String::new();
        }
    }

    /// What [`App::enter_doc_search`] does: `post` is `pre` after it.
    pub open spec fn enter_doc_search_effect(pre: App, post: App) -> bool {
        &&& ({
        let o = pre;
        if o.outline_search.show_search && !o.outline_search.outline_search_active {
            post == (App { outline_search: OutlineSearch { outline_search_active: true, ..o.outline_search }, ..o })
        } else if o.mode == AppMode::DocSearch && !o.doc_search.doc_search_active {
            post == (App { doc_search: DocSearch { doc_search_active: true, ..o.doc_search }, ..o })
        } else {
            &&& post.mode == AppMode::DocSearch
            &&& post.doc_search.doc_search_active
            &&& post.doc_search.doc_search_from_interactive == (o.mode == AppMode::Interactive)
            &&& post.doc_search.doc_search_query@.len() == 0
            &&& post.doc_search.doc_search_matches@.len() == 0
            &&& post.doc_search.doc_search_current_idx is None
            &&& post.doc_search.doc_search_selected_link_idx == o.doc_search.doc_search_selected_link_idx
            &&& post == (App { doc_search: post.doc_search, mode: AppMode::DocSearch, ..o })
        }
    })
    }

    /// Enter document search: back into typing when a search was accepted
    /// (outline or document), else a fresh document search remembering
    /// whether it started from interactive mode.
    pub fn enter_doc_search(&mut self)
        ensures
            Self::enter_doc_search_effect(*old(self), *final(self)),
    {
        if self.outline_search.show_search && !self.outline_search.outline_search_active {
            self.outline_search.outline_search_active = true;
            return;
        }
        if self.mode == AppMode::DocSearch && !self.doc_search.doc_search_active {
            self.doc_search.doc_search_active = true;
            return;
        }
        self.doc_search.doc_search_from_interactive = self.mode == AppMode::Interactive;
        self.mode = AppMode::DocSearch;
        self.doc_search.doc_search_active = true;
        self.doc_search.doc_search_query = String::new();
        self.doc_search.doc_search_matches = Vec::new();
        self.doc_search.doc_search_current_idx = None;
    }

    /// Type a character into the document search (up to 256 bytes; control
    /// characters but tab are ignored) and search the section's plain text.
    pub fn doc_search_input(&mut self, c: char)
        ensures
            ({
                let o = old(self);
                if encode_utf8(o.doc_search.doc_search_query@).len() as usize >= MAX_SEARCH_LEN || !accepts_char(c) {
                    *final(self) == *o
                } else {
                    let q = o.doc_search.doc_search_query@.push(c);
                    &&& final(self).doc_search.doc_search_query@ == q
                    &&& (lowercase(q).len() > 0 ==> final(self).doc_search.doc_search_matches@
                        == doc_matches(plain_text_of(displayed_spec(*o)), q))
                }
            }),
    {
        if self.doc_search.doc_search_query.as_str().len() >= MAX_SEARCH_LEN {
            return;
        }
        let u = c as u32;
        if (u <= 0x1F || (0x7F <= u && u <= 0x9F)) && c != '\t' {
            return;
        }
        push_char(&mut self.doc_search.doc_search_query, c);
        self.update_doc_search_matches();
    }

    /// Delete the last character of the document search and search again.
    pub fn doc_search_backspace(&mut self)
        ensures
            ({
                let q = if old(self).doc_search.doc_search_query@.len() > 0 {
                    old(self).doc_search.doc_search_query@.drop_last()
                } else {
                    old(self).doc_search.doc_search_query@
                };
                &&& final(self).doc_search.doc_search_query@ == q
                &&& (q.len() == 0 ==> final(self).doc_search.doc_search_matches@.len() == 0)
                &&& (q.len() > 0 && lowercase(q).len() > 0 ==> final(self).doc_search.doc_search_matches@
                    == doc_matches(plain_text_of(displayed_spec(*old(self))), q))
            }),
    {
        pop_char(&mut self.doc_search.doc_search_query);
        self.update_doc_search_matches();
    }

    /// Accept the search (stop typing, keep the matches for n/N); report
    /// when nothing matched.
    pub fn accept_doc_search(&mut self)
        ensures
            final(self).doc_search == (DocSearch { doc_search_active: false, ..old(self).doc_search }),
            old(self).doc_search.doc_search_matches@.len() == 0 && old(self).doc_search.doc_search_query@.len() > 0 ==>
                (final(self).status_message matches Some(m) && m@ == "Pattern not found: "@ + old(self).doc_search.doc_search_query@),
            !(old(self).doc_search.doc_search_matches@.len() == 0 && old(self).doc_search.doc_search_query@.len() > 0) ==>
                final(self).status_message == old(self).status_message,
            *final(self) == (App { doc_search: final(self).doc_search, status_message: final(self).status_message, ..*old(self) }),
    {
        self.doc_search.doc_search_active = false;
        if self.doc_search.doc_search_matches.len() == 0 && !self.doc_search.doc_search_query.as_str().is_empty() {
            let mut m = string_from("Pattern not found: ");
            push_str(&mut m, self.doc_search.doc_search_query.as_str());
            self.status_message = Some(m);
        }
    }

    /// Remember the selected heading as the previous selection (so the next
    /// metrics update does not reset the scroll).
    pub fn sync_previous_selection(&mut self)
        ensures
            match selected_text(old(self).outline.items@, old(self).outline.selected) {
                Some(t) => final(self).outline.previous_selection matches Some(p) && p@ == t,
                None => final(self).outline.previous_selection is None,
            },
            *final(self) == (App {
                outline: Outline { previous_selection: final(self).outline.previous_selection, ..old(self).outline },
                ..*old(self)
            }),
    {
        self.outline.previous_selection = match self.selected_heading_text() {
            Some(t) => Some(string_from(t)),
            None => None,
        };
    }

    /// Cancel the search: back to interactive mode if it started there
    /// (else normal mode), query and matches cleared.
    pub fn cancel_doc_search(&mut self)
        ensures
            final(self).mode == (if old(self).doc_search.doc_search_from_interactive { AppMode::Interactive } else { AppMode::Normal }),
            !final(self).doc_search.doc_search_active,
            !final(self).doc_search.doc_search_from_interactive,
            final(self).doc_search.doc_search_query@.len() == 0,
            final(self).doc_search.doc_search_matches@.len() == 0,
            final(self).doc_search.doc_search_current_idx is None,
            final(self).doc_search.doc_search_selected_link_idx is None,
            final(self).outline.items == old(self).outline.items,
            final(self).outline.selected == old(self).outline.selected,
            final(self).outline.collapsed_headings == old(self).outline.collapsed_headings,
            *final(self) == (App {
                doc_search: final(self).doc_search,
                mode: final(self).mode,
                outline: crate::app::Outline { previous_selection: final(self).outline.previous_selection, ..old(self).outline },
                ..*old(self)
            }),
    {
        self.mode = if self.doc_search.doc_search_from_interactive { AppMode::Interactive } else { AppMode::Normal };
        self.doc_search.doc_search_active = false;
        self.doc_search.doc_search_from_interactive = false;
        self.doc_search.doc_search_query = String::new();
        self.doc_search.doc_search_matches = Vec::new();
        self.doc_search.doc_search_current_idx = None;
        self.doc_search.doc_search_selected_link_idx = None;
        self.sync_previous_selection();
    }

    /// Clear the search highlighting: back to interactive mode if the search
    /// started there (else normal mode), query and matches cleared.
    pub fn clear_doc_search(&mut self)
        ensures
            final(self).mode == (if old(self).doc_search.doc_search_from_interactive { AppMode::Interactive } else { AppMode::Normal }),
            final(self).doc_search.doc_search_active == old(self).doc_search.doc_search_active,
            !final(self).doc_search.doc_search_from_interactive,
            final(self).doc_search.doc_search_query@.len() == 0,
            final(self).doc_search.doc_search_matches@.len() == 0,
            final(self).doc_search.doc_search_current_idx is None,
            final(self).doc_search.doc_search_selected_link_idx is None,
            final(self).outline.items == old(self).outline.items,
            final(self).outline.selected == old(self).outline.selected,
            final(self).outline.collapsed_headings == old(self).outline.collapsed_headings,
            *final(self) == (App {
                doc_search: final(self).doc_search,
                mode: final(self).mode,
                outline: crate::app::Outline { previous_selection: final(self).outline.previous_selection, ..old(self).outline },
                ..*old(self)
            }),
    {
        self.mode = if self.doc_search.doc_search_from_interactive { AppMode::Interactive } else { AppMode::Normal };
        self.doc_search.doc_search_from_interactive = false;
        self.doc_search.doc_search_query = String::new();
        self.doc_search.doc_search_matches = Vec::new();
        self.doc_search.doc_search_current_idx = None;
        self.doc_search.doc_search_selected_link_idx = None;
        self.sync_previous_selection();
    }

    /// Document search status text for the status bar.
    pub fn doc_search_status(&self) -> (s: String)
        requires
            self.doc_search.doc_search_current_idx matches Some(i) ==> i < usize::MAX,
        ensures
            s@ == doc_search_status_spec(*self),
    {
        let d = &self.doc_search;
        if d.doc_search_matches.len() == 0 {
            if d.doc_search_query.as_str().is_empty() {
                string_from("Search: ")
            } else {
                let mut s = string_from("Search: ");
                push_str(&mut s, d.doc_search_query.as_str());
                push_str(&mut s, " (no matches)");
                s
            }
        } else {
            let current = match d.doc_search_current_idx { Some(i) => i + 1, None => 1 };
            let total = d.doc_search_matches.len();
            let mut base = string_from("Search: ");
            push_str(&mut base, d.doc_search_query.as_str());
            push_str(&mut base, " (");
            let c = decimal_string(current as u64);
            push_str(&mut base, c.as_str());
            push_str(&mut base, "/");
            let t = decimal_string(total as u64);
            push_str(&mut base, t.as_str());
            push_str(&mut base, ")");
            match d.doc_search_selected_link_idx {
                Some(li) => {
                    if li < self.links.link_texts.len() {
                        push_str(&mut base, " → [");
                        push_str(&mut base, self.links.link_texts[li].as_str());
                        push_str(&mut base, "] (Enter to follow)");
                    }
                    base
                },
                None => base,
            }
        }
    }

    /// Switch between outline search and document search keeping the query;
    /// once a document search was accepted, step to its next match instead.
    pub fn toggle_search_mode(&mut self)
        requires
            old(self).ready(),
        ensures
            final(self).ready(),
            old(self).outline_search.show_search ==> {
                &&& final(self).mode == AppMode::DocSearch
                &&& final(self).doc_search.doc_search_query@ == old(self).outline_search.search_query@
                &&& final(self).doc_search.doc_search_active == old(self).outline_search.outline_search_active
                &&& !final(self).outline_search.show_search
                &&& !final(self).outline_search.outline_search_active
                &&& final(self).outline_search.search_query@.len() == 0
                &&& (final(self).doc_search.doc_search_query@.len() > 0 && lowercase(final(self).doc_search.doc_search_query@).len() > 0
                    ==> final(self).doc_search.doc_search_matches@
                        == doc_matches(plain_text_of(displayed_spec(*final(self))), final(self).doc_search.doc_search_query@))
            },
            !old(self).outline_search.show_search && old(self).mode == AppMode::DocSearch && old(self).doc_search.doc_search_active ==> {
                &&& final(self).mode == AppMode::Normal
                &&& !final(self).doc_search.doc_search_active
                &&& final(self).doc_search.doc_search_query@.len() == 0
                &&& final(self).doc_search.doc_search_matches@.len() == 0
                &&& final(self).doc_search.doc_search_current_idx is None
                &&& final(self).outline_search.show_search
                &&& final(self).outline_search.outline_search_active
                &&& final(self).outline_search.search_query@ == old(self).doc_search.doc_search_query@
            },
            !old(self).outline_search.show_search && old(self).mode != AppMode::DocSearch ==> *final(self) == *old(self),
    {
        if self.outline_search.show_search {
            let query = string_from(self.outline_search.search_query.as_str());
            let was_active = self.outline_search.outline_search_active;
            self.outline_search.show_search = false;
            self.outline_search.outline_search_active = false;
            self.outline_search.search_query = String::new();
            self.filter_outline();
            self.mode = AppMode::DocSearch;
            self.doc_search.doc_search_active = was_active;
            self.doc_search.doc_search_query = query;
            self.doc_search.doc_search_matches = Vec::new();
            self.doc_search.doc_search_current_idx = None;
            self.update_doc_search_matches();
        } else if self.mode == AppMode::DocSearch {
            if self.doc_search.doc_search_active {
                let query = string_from(self.doc_search.doc_search_query.as_str());
                self.mode = AppMode::Normal;
                self.doc_search.doc_search_active = false;
                self.doc_search.doc_search_query = String::new();
                self.doc_search.doc_search_matches = Vec::new();
                self.doc_search.doc_search_current_idx = None;
                self.outline_search.show_search = true;
                self.outline_search.outline_search_active = true;
                self.outline_search.search_query = query;
                self.filter_outline();
            } else {
                self.next_doc_match();
            }
        }
    }
}

} // verus!
