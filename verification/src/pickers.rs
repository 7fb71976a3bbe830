//! Picking a link of the displayed section and a markdown file of the
//! directory: filtering by a typed query and cycling through the choices.

use vstd::prelude::*;
use crate::app::{App, AppMode, FilePicker, LinkPicker, all_indices, index_range, string_from};
use crate::blocks::LinkTarget;
use crate::text::{chars_of, contains, contains_spec, lowercase, pop_char, push_char, str_eq, to_lowercase};

verus! {

broadcast use vstd::string::group_string_axioms;

/// Indices `i < n` (in order) at which `keep(i)` holds.
pub open spec fn kept_indices(n: int, keep: spec_fn(int) -> bool) -> Seq<usize>
    decreases n,
{
    if n <= 0 {
        seq![]
    } else {
        kept_indices(n - 1, keep) + if keep(n - 1) { seq![(n - 1) as usize] } else { seq![] }
    }
}

/// Link `i` matches the lowercased query by its text or its target.
pub open spec fn link_matches(texts: Seq<String>, targets: Seq<String>, q: Seq<char>, i: int) -> bool {
    ||| contains_spec(lowercase(texts[i]@), lowercase(q))
    ||| (i < targets.len() && contains_spec(lowercase(targets[i]@), lowercase(q)))
}

/// File `i` matches the lowercased query by its name.
pub open spec fn file_matches(names: Seq<String>, q: Seq<char>, i: int) -> bool {
    contains_spec(lowercase(names[i]@), lowercase(q))
}

/// The first index at or after `i` whose string is `p`.
pub open spec fn first_string_from(v: Seq<String>, p: Seq<char>, i: int) -> Option<int>
    decreases v.len() - i,
{
    if i < 0 || i >= v.len() {
        None
    } else if v[i]@ == p {
        Some(i)
    } else {
        first_string_from(v, p, i + 1)
    }
}

/// The first index whose string is `p` (see [`first_string_from`]).
fn find_string(v: &Vec<String>, p: &str) -> (r: Option<usize>)
    ensures
        r matches Some(k) ==> first_string_from(v@, p@, 0) == Some(k as int),
        r is None ==> first_string_from(v@, p@, 0) is None,
{
    let mut k: usize = 0;
    while k < v.len()
        invariant
            k <= v@.len(),
            first_string_from(v@, p@, 0) == first_string_from(v@, p@, k as int),
        decreases v@.len() - k,
    {
        if str_eq(v[k].as_str(), p) {
            return Some(k);
        }
        k += 1;
    }
    None
}

/// The selection after re-filtering: none when nothing is left, the first
/// when there was none or it fell off the end, else unchanged.
pub open spec fn clamped_selection(sel: Option<usize>, len: nat) -> Option<usize> {
    if len == 0 {
        None
    } else {
        match sel {
            Some(i) => if i >= len { Some(0usize) } else { Some(i) },
            None => Some(0usize),
        }
    }
}

/// The next index of a cyclic selection over `len` entries.
pub open spec fn cycle_next(sel: Option<usize>, len: nat) -> Option<usize> {
    Some(match sel {
        Some(i) => if i + 1 >= len { 0usize } else { (i + 1) as usize },
        None => 0usize,
    })
}

/// The previous index of a cyclic selection over `len` entries.
pub open spec fn cycle_prev(sel: Option<usize>, len: nat) -> Option<usize> {
    Some(match sel {
        Some(i) => if i == 0 { (len - 1) as usize } else { (i - 1) as usize },
        None => 0usize,
    })
}

impl App {
    /// Enter link follow mode over the links of the displayed section
    /// (their texts, their targets as written, and where they point): all
    /// listed, the first selected.
    pub fn enter_link_follow_mode(&mut self, link_texts: Vec<String>, link_targets: Vec<String>, link_destinations: Vec<LinkTarget>)
        ensures
            final(self).links == (LinkPicker {
                link_texts,
                link_targets,
                link_destinations,
                filtered_link_indices: final(self).links.filtered_link_indices,
                selected_link_idx: if link_texts@.len() > 0 { Some(0usize) } else { None },
                link_search_query: final(self).links.link_search_query,
                link_search_active: false,
            }),
            final(self).links.filtered_link_indices@ == all_indices(link_texts@.len()),
            final(self).links.link_search_query@.len() == 0,
            *final(self) == (App { links: final(self).links, mode: AppMode::LinkFollow, ..*old(self) }),
    {
        let n = link_texts.len();
        self.links.link_texts = link_texts;
        self.links.link_targets = link_targets;
        self.links.link_destinations = link_destinations;
        self.links.filtered_link_indices = index_range(n);
        self.links.link_search_query = String::new();
        self.links.link_search_active = false;
        self.mode = AppMode::LinkFollow;
        self.links.selected_link_idx = if n > 0 { Some(0) } else { None };
    }

    /// Leave link follow mode for normal mode, forgetting the links.
    pub fn exit_link_follow_mode(&mut self)
        ensures
            final(self).links.link_texts@.len() == 0,
            final(self).links.link_targets@.len() == 0,
            final(self).links.link_destinations@.len() == 0,
            final(self).links.filtered_link_indices@.len() == 0,
            final(self).links.selected_link_idx is None,
            final(self).links.link_search_query@.len() == 0,
            !final(self).links.link_search_active,
            *final(self) == (App { links: final(self).links, mode: AppMode::Normal, ..*old(self) }),
    {
        self.mode = AppMode::Normal;
        self.links.link_texts = Vec::new();
        self.links.link_targets = Vec::new();
        self.links.link_destinations = Vec::new();
        self.links.filtered_link_indices = Vec::new();
        self.links.selected_link_idx = None;
        self.links.link_search_query = String::new();
        self.links.link_search_active = false;
    }

    /// Start typing a link search (in link follow mode).
    pub fn start_link_search(&mut self)
        ensures
            old(self).mode == AppMode::LinkFollow ==>
                *final(self) == (App { links: LinkPicker { link_search_active: true, ..old(self).links }, ..*old(self) }),
            old(self).mode != AppMode::LinkFollow ==> *final(self) == *old(self),
    {
        if self.mode == AppMode::LinkFollow {
            self.links.link_search_active = true;
        }
    }

    /// Stop typing the link search, keeping the filter.
    pub fn stop_link_search(&mut self)
        ensures
            *final(self) == (App { links: LinkPicker { link_search_active: false, ..old(self).links }, ..*old(self) }),
    {
        self.links.link_search_active = false;
    }

    /// Re-filter the links by the query (text or target containing it,
    /// ignoring case; all links for an empty query) and keep the selection
    /// within the filtered links.
    pub fn update_link_filter(&mut self)
        ensures
            ({
                let l = old(self).links;
                let q = l.link_search_query@;
                let f = if lowercase(q).len() == 0 {
                    all_indices(l.link_texts@.len())
                } else {
                    kept_indices(l.link_texts@.len() as int, |i: int| link_matches(l.link_texts@, l.link_targets@, q, i))
                };
                &&& final(self).links.filtered_link_indices@ == f
                &&& final(self).links.selected_link_idx == clamped_selection(l.selected_link_idx, f.len())
                &&& *final(self) == (App {
                    links: LinkPicker {
                        filtered_link_indices: final(self).links.filtered_link_indices,
                        selected_link_idx: final(self).links.selected_link_idx,
                        ..l
                    },
                    ..*old(self)
                })
            }),
    {
        let query = to_lowercase(self.links.link_search_query.as_str());
        let qv = chars_of(query.as_str());
        let ghost l = self.links;
        if qv.len() == 0 {
            self.links.filtered_link_indices = index_range(self.links.link_texts.len());
        } else {
            let n = self.links.link_texts.len();
            let ghost keep = |i: int| link_matches(l.link_texts@, l.link_targets@, l.link_search_query@, i);
            let mut f: Vec<usize> = Vec::new();
            let mut i: usize = 0;
            while i < n
                invariant
                    i <= n == self.links.link_texts@.len(),
                    self.links == l,
                    qv@ == lowercase(l.link_search_query@),
                    keep == (|i: int| link_matches(l.link_texts@, l.link_targets@, l.link_search_query@, i)),
                    f@ == kept_indices(i as int, keep),
                decreases n - i,
            {
                let tl = to_lowercase(self.links.link_texts[i].as_str());
                let mut hit = contains(&chars_of(tl.as_str()), &qv);
                if !hit && i < self.links.link_targets.len() {
                    let gl = to_lowercase(self.links.link_targets[i].as_str());
                    hit = contains(&chars_of(gl.as_str()), &qv);
                }
                if hit {
                    f.push(i);
                }
                assert(keep(i as int) == hit);
                i += 1;
                assert(f@ =~= kept_indices(i as int, keep));
            }
            self.links.filtered_link_indices = f;
        }
        if self.links.filtered_link_indices.len() == 0 {
            self.links.selected_link_idx = None;
        } else if let Some(idx) = self.links.selected_link_idx {
            if idx >= self.links.filtered_link_indices.len() {
                self.links.selected_link_idx = Some(0);
            }
        } else {
            self.links.selected_link_idx = Some(0);
        }
    }

    /// Clear the link search and list every link again.
    pub fn clear_link_search(&mut self)
        ensures
            final(self).links.link_search_query@.len() == 0,
            !final(self).links.link_search_active,
            final(self).links.filtered_link_indices@ == all_indices(old(self).links.link_texts@.len()),
            final(self).links.link_texts == old(self).links.link_texts,
            *final(self) == (App { links: final(self).links, ..*old(self) }),
    {
        self.links.link_search_query = String::new();
        self.links.link_search_active = false;
        proof {
            assert(lowercase(self.links.link_search_query@).len() == 0 || lowercase(self.links.link_search_query@).len() > 0);
        }
        self.update_link_filter_all();
    }

    /// List every link (the filter of an empty query).
    fn update_link_filter_all(&mut self)
        ensures
            final(self).links.filtered_link_indices@ == all_indices(old(self).links.link_texts@.len()),
            final(self).links.selected_link_idx == clamped_selection(old(self).links.selected_link_idx, old(self).links.link_texts@.len()),
            *final(self) == (App {
                links: LinkPicker {
                    filtered_link_indices: final(self).links.filtered_link_indices,
                    selected_link_idx: final(self).links.selected_link_idx,
                    ..old(self).links
                },
                ..*old(self)
            }),
    {
        self.links.filtered_link_indices = index_range(self.links.link_texts.len());
        if self.links.filtered_link_indices.len() == 0 {
            self.links.selected_link_idx = None;
        } else if let Some(idx) = self.links.selected_link_idx {
            if idx >= self.links.filtered_link_indices.len() {
                self.links.selected_link_idx = Some(0);
            }
        } else {
            self.links.selected_link_idx = Some(0);
        }
    }

    /// Type a character into the link search and re-filter.
    pub fn link_search_push(&mut self, c: char)
        ensures
            final(self).links.link_search_query@ == old(self).links.link_search_query@.push(c),
            final(self).links.link_texts == old(self).links.link_texts,
            *final(self) == (App { links: final(self).links, ..*old(self) }),
    {
        push_char(&mut self.links.link_search_query, c);
        self.update_link_filter();
    }

    /// Delete the last character of the link search and re-filter.
    pub fn link_search_pop(&mut self)
        ensures
            final(self).links.link_search_query@ == (if old(self).links.link_search_query@.len() > 0 {
                old(self).links.link_search_query@.drop_last()
            } else {
                old(self).links.link_search_query@
            }),
            final(self).links.link_texts == old(self).links.link_texts,
            *final(self) == (App { links: final(self).links, ..*old(self) }),
    {
        pop_char(&mut self.links.link_search_query);
        self.update_link_filter();
    }

    /// What [`App::next_link`] does: `post` is `pre` after it.
    pub open spec fn next_link_effect(pre: App, post: App) -> bool {
        &&& pre.mode == AppMode::LinkFollow && pre.links.filtered_link_indices@.len() > 0 ==>
        post == (App {
            links: LinkPicker {
                selected_link_idx: cycle_next(pre.links.selected_link_idx, pre.links.filtered_link_indices@.len()),
                ..pre.links
            },
            ..pre
        })
        &&& !(pre.mode == AppMode::LinkFollow && pre.links.filtered_link_indices@.len() > 0) ==> post == pre
    }

    /// Cycle to the next link (in link follow mode).
    pub fn next_link(&mut self)
        ensures
            Self::next_link_effect(*old(self), *final(self)),
    {
        if self.mode == AppMode::LinkFollow && self.links.filtered_link_indices.len() > 0 {
            self.links.selected_link_idx = Some(match self.links.selected_link_idx {
                Some(idx) => if idx >= self.links.filtered_link_indices.len() - 1 { 0 } else { idx + 1 },
                None => 0,
            });
        }
    }

    /// What [`App::previous_link`] does: `post` is `pre` after it.
    pub open spec fn previous_link_effect(pre: App, post: App) -> bool {
        &&& pre.mode == AppMode::LinkFollow && pre.links.filtered_link_indices@.len() > 0 ==>
        post == (App {
            links: LinkPicker {
                selected_link_idx: cycle_prev(pre.links.selected_link_idx, pre.links.filtered_link_indices@.len()),
                ..pre.links
            },
            ..pre
        })
        &&& !(pre.mode == AppMode::LinkFollow && pre.links.filtered_link_indices@.len() > 0) ==> post == pre
    }

    /// Cycle to the previous link (in link follow mode).
    pub fn previous_link(&mut self)
        ensures
            Self::previous_link_effect(*old(self), *final(self)),
    {
        if self.mode == AppMode::LinkFollow && self.links.filtered_link_indices.len() > 0 {
            self.links.selected_link_idx = Some(match self.links.selected_link_idx {
                Some(idx) => if idx == 0 { self.links.filtered_link_indices.len() - 1 } else { idx - 1 },
                None => 0,
            });
        }
    }

    /// What [`App::jump_to_link`] does: `post` is `pre` after it.
    pub open spec fn jump_to_link_effect(pre: App, post: App, idx: usize) -> bool {
        &&& ({
        let f = pre.links.filtered_link_indices@;
        if exists|k: int| 0 <= k < f.len() && f[k] == idx {
            let k = choose|k: int| 0 <= k < f.len() && f[k] == idx && forall|j: int| 0 <= j < k ==> f[j] != idx;
            post == (App { links: LinkPicker { selected_link_idx: Some(k as usize), ..pre.links }, ..pre })
        } else {
            post == pre
        }
    })
    }

    /// Select link number `idx` (of all links) when the filter lists it.
    pub fn jump_to_link(&mut self, idx: usize)
        ensures
            Self::jump_to_link_effect(*old(self), *final(self), idx),
    {
        let ghost f = self.links.filtered_link_indices@;
        let mut k: usize = 0;
        while k < self.links.filtered_link_indices.len()
            invariant
                k <= f.len(),
                f == self.links.filtered_link_indices@,
                *self == *old(self),
                forall|j: int| 0 <= j < k ==> f[j] != idx,
            decreases f.len() - k,
        {
            if self.links.filtered_link_indices[k] == idx {
                let ghost c = choose|c: int| 0 <= c < f.len() && f[c] == idx && forall|j: int| 0 <= j < c ==> f[j] != idx;
                proof {
                    assert(0 <= k < f.len() && f[k as int] == idx && forall|j: int| 0 <= j < k ==> f[j] != idx);
                    if c < k {
                        assert(f[c] != idx);
                    } else if c > k {
                        assert(f[k as int] != idx);
                    }
                }
                self.links.selected_link_idx = Some(k);
                return;
            }
            k += 1;
        }
    }

    /// The index (among all links) of the selected link.
    pub fn get_selected_link(&self) -> (r: Option<usize>)
        ensures
            r == (match self.links.selected_link_idx {
                Some(i) => if i < self.links.filtered_link_indices@.len()
                    && self.links.filtered_link_indices@[i as int] < self.links.link_texts@.len() {
                    Some(self.links.filtered_link_indices@[i as int])
                } else {
                    None
                },
                None => None,
            }),
    {
        match self.links.selected_link_idx {
            Some(i) => {
                if i < self.links.filtered_link_indices.len() && self.links.filtered_link_indices[i] < self.links.link_texts.len() {
                    Some(self.links.filtered_link_indices[i])
                } else {
                    None
                }
            },
            None => None,
        }
    }

    /// Re-filter the files by the query (name containing it, ignoring case;
    /// all files for an empty query); a selection that fell off the end goes
    /// back to the first file.
    pub fn update_file_filter(&mut self)
        requires
            old(self).files.file_names@.len() == old(self).files.files_in_directory@.len(),
        ensures
            ({
                let p = old(self).files;
                let q = p.file_search_query@;
                let f = if q.len() == 0 {
                    all_indices(p.files_in_directory@.len())
                } else {
                    kept_indices(p.file_names@.len() as int, |i: int| file_matches(p.file_names@, q, i))
                };
                &&& final(self).files.filtered_file_indices@ == f
                &&& final(self).files.selected_file_idx == (match p.selected_file_idx {
                    Some(s) => if s >= f.len() { if f.len() == 0 { None } else { Some(0usize) } } else { Some(s) },
                    None => if f.len() > 0 { Some(0usize) } else { None },
                })
                &&& *final(self) == (App {
                    files: FilePicker {
                        filtered_file_indices: final(self).files.filtered_file_indices,
                        selected_file_idx: final(self).files.selected_file_idx,
                        ..p
                    },
                    ..*old(self)
                })
            }),
    {
        let ghost p = self.files;
        if self.files.file_search_query.as_str().is_empty() {
            self.files.filtered_file_indices = index_range(self.files.files_in_directory.len());
        } else {
            let query = to_lowercase(self.files.file_search_query.as_str());
            let qv = chars_of(query.as_str());
            let n = self.files.file_names.len();
            let ghost keep = |i: int| file_matches(p.file_names@, p.file_search_query@, i);
            let mut f: Vec<usize> = Vec::new();
            let mut i: usize = 0;
            while i < n
                invariant
                    i <= n == self.files.file_names@.len(),
                    self.files == p,
                    qv@ == lowercase(p.file_search_query@),
                    keep == (|i: int| file_matches(p.file_names@, p.file_search_query@, i)),
                    f@ == kept_indices(i as int, keep),
                decreases n - i,
            {
                let nl = to_lowercase(self.files.file_names[i].as_str());
                let hit = contains(&chars_of(nl.as_str()), &qv);
                if hit {
                    f.push(i);
                }
                assert(keep(i as int) == hit);
                i += 1;
                assert(f@ =~= kept_indices(i as int, keep));
            }
            self.files.filtered_file_indices = f;
        }
        if let Some(sel) = self.files.selected_file_idx {
            if sel >= self.files.filtered_file_indices.len() {
                self.files.selected_file_idx = if self.files.filtered_file_indices.len() == 0 { None } else { Some(0) };
            }
        } else if self.files.filtered_file_indices.len() > 0 {
            self.files.selected_file_idx = Some(0);
        }
    }

    /// Type a character into the file search and re-filter.
    pub fn file_search_push(&mut self, c: char)
        requires
            old(self).files.file_names@.len() == old(self).files.files_in_directory@.len(),
        ensures
            final(self).files.file_search_query@ == old(self).files.file_search_query@.push(c),
            final(self).files.files_in_directory == old(self).files.files_in_directory,
            final(self).files.file_names == old(self).files.file_names,
            *final(self) == (App { files: final(self).files, ..*old(self) }),
    {
        push_char(&mut self.files.file_search_query, c);
        self.update_file_filter();
    }

    /// Delete the last character of the file search and re-filter.
    pub fn file_search_pop(&mut self)
        requires
            old(self).files.file_names@.len() == old(self).files.files_in_directory@.len(),
        ensures
            final(self).files.file_search_query@ == (if old(self).files.file_search_query@.len() > 0 {
                old(self).files.file_search_query@.drop_last()
            } else {
                old(self).files.file_search_query@
            }),
            final(self).files.files_in_directory == old(self).files.files_in_directory,
            final(self).files.file_names == old(self).files.file_names,
            *final(self) == (App { files: final(self).files, ..*old(self) }),
    {
        pop_char(&mut self.files.file_search_query);
        self.update_file_filter();
    }

    /// Open the file picker on the directory's markdown files (their paths,
    /// sorted, and names), with the current file selected when listed.
    pub fn enter_file_picker(&mut self, files: Vec<String>, names: Vec<String>)
        requires
            files@.len() == names@.len(),
        ensures
            old(self).wf() ==> final(self).wf(),
            final(self).files.files_in_directory == files,
            final(self).files.file_names == names,
            final(self).mode == AppMode::FilePicker,
            ({
                let q = old(self).files.file_search_query@;
                let f = if q.len() == 0 {
                    all_indices(files@.len())
                } else {
                    kept_indices(names@.len() as int, |i: int| file_matches(names@, q, i))
                };
                &&& final(self).files.filtered_file_indices@ == f
                &&& final(self).files.selected_file_idx == (match first_string_from(files@, old(self).current_file_path@, 0) {
                    Some(k) => Some(k as usize),
                    None => {
                        let after = match old(self).files.selected_file_idx {
                            Some(s) => if s >= f.len() { if f.len() == 0 { None } else { Some(0usize) } } else { Some(s) },
                            None => if f.len() > 0 { Some(0usize) } else { None },
                        };
                        if f.len() > 0 { Some(0usize) } else { after }
                    },
                })
            }),
    {
        self.files.files_in_directory = files;
        self.files.file_names = names;
        self.update_file_filter();
        let found = find_string(&self.files.files_in_directory, self.current_file_path.as_str());
        if let Some(i) = found {
            self.files.selected_file_idx = Some(i);
        } else if self.files.filtered_file_indices.len() > 0 {
            self.files.selected_file_idx = Some(0);
        }
        self.mode = AppMode::FilePicker;
    }

    /// Cycle to the next file (in the file picker).
    pub fn next_file(&mut self)
        ensures
            old(self).mode == AppMode::FilePicker && old(self).files.filtered_file_indices@.len() > 0 ==>
                *final(self) == (App {
                    files: FilePicker {
                        selected_file_idx: cycle_next(old(self).files.selected_file_idx, old(self).files.filtered_file_indices@.len()),
                        ..old(self).files
                    },
                    ..*old(self)
                }),
            !(old(self).mode == AppMode::FilePicker && old(self).files.filtered_file_indices@.len() > 0) ==> *final(self) == *old(self),
    {
        if self.mode == AppMode::FilePicker && self.files.filtered_file_indices.len() > 0 {
            self.files.selected_file_idx = Some(match self.files.selected_file_idx {
                Some(idx) => if idx >= self.files.filtered_file_indices.len() - 1 { 0 } else { idx + 1 },
                None => 0,
            });
        }
    }

    /// Cycle to the previous file (in the file picker).
    pub fn previous_file(&mut self)
        ensures
            old(self).mode == AppMode::FilePicker && old(self).files.filtered_file_indices@.len() > 0 ==>
                *final(self) == (App {
                    files: FilePicker {
                        selected_file_idx: cycle_prev(old(self).files.selected_file_idx, old(self).files.filtered_file_indices@.len()),
                        ..old(self).files
                    },
                    ..*old(self)
                }),
            !(old(self).mode == AppMode::FilePicker && old(self).files.filtered_file_indices@.len() > 0) ==> *final(self) == *old(self),
    {
        if self.mode == AppMode::FilePicker && self.files.filtered_file_indices.len() > 0 {
            self.files.selected_file_idx = Some(match self.files.selected_file_idx {
                Some(idx) => if idx == 0 { self.files.filtered_file_indices.len() - 1 } else { idx - 1 },
                None => 0,
            });
        }
    }
}

/// `a - b`, or 0 when `b` is larger.
pub open spec fn minus(a: int, b: int) -> int {
    if a >= b { a - b } else { 0 }
}

/// The scroll of the link popup: with `inner` lines inside its border (its
/// height less 2) and 2 lines of header and 2 of footer around the links,
/// the selected link's line (`selected_line`, 0 when none) is kept near the
/// middle of the links' area, without scrolling past the last of the
/// `total` lines.
pub open spec fn picker_scroll_spec(selected_line: u16, total: usize, popup_height: u16) -> u16 {
    let inner = minus(popup_height as int, 2);
    let visible = minus(inner, 4);
    if selected_line > 0 && visible > 0 {
        let target = minus(selected_line as int, 2);
        let center = visible / 2;
        if target > center {
            let max_scroll = minus(total as int, inner) as u16;
            let s = minus(target, center);
            if s <= max_scroll { s as u16 } else { max_scroll }
        } else {
            0
        }
    } else {
        0
    }
}

/// The scroll of the link popup (see [`picker_scroll_spec`]).
pub fn picker_scroll(selected_line: u16, total: usize, popup_height: u16) -> (s: u16)
    ensures
        s == picker_scroll_spec(selected_line, total, popup_height),
{
    let inner: usize = popup_height.saturating_sub(2) as usize;
    let visible: usize = inner.saturating_sub(4);
    if selected_line > 0 && visible > 0 {
        let target: u16 = selected_line.saturating_sub(2);
        let center: u16 = (visible / 2) as u16;
        if target > center {
            let max_scroll: u16 = total.saturating_sub(inner) as u16;
            let s: u16 = target - center;
            if s <= max_scroll { s } else { max_scroll }
        } else {
            0
        }
    } else {
        0
    }
}

} // verus!
