//! Outline navigation: moving the selection, finding headings by text,
//! jumping to parents and bookmarks.

use vstd::prelude::*;
use crate::app::{App, Focus, Layout, Outline, OutlineEntry, OutlineItem, entries};
use crate::text::str_eq;

verus! {

broadcast use vstd::string::group_string_axioms;

/// The first index at or after `i` whose entry has text `t`.
pub open spec fn first_text_from(es: Seq<OutlineEntry>, t: Seq<char>, i: int) -> Option<int>
    decreases es.len() - i,
{
    if i < 0 || i >= es.len() {
        None
    } else if es[i].1 == t {
        Some(i)
    } else {
        first_text_from(es, t, i + 1)
    }
}

/// The first index whose entry has text `t`.
pub open spec fn first_text_index(es: Seq<OutlineEntry>, t: Seq<char>) -> Option<int> {
    first_text_from(es, t, 0)
}

/// The text of the selected outline item, if the selection is on an item.
pub open spec fn selected_text(items: Seq<OutlineItem>, sel: Option<usize>) -> Option<Seq<char>> {
    match sel {
        Some(i) => if i < items.len() { Some(items[i as int].text@) } else { None },
        None => None,
    }
}

/// The nearest index at or below `j` whose level is below `level`.
pub open spec fn lower_level_from(es: Seq<OutlineEntry>, level: usize, j: int) -> Option<int>
    decreases j + 1,
{
    if j < 0 || j >= es.len() {
        None
    } else if es[j].0 < level {
        Some(j)
    } else {
        lower_level_from(es, level, j - 1)
    }
}

/// The parent of entry `i`: the nearest earlier entry of lower level.
pub open spec fn parent_index(es: Seq<OutlineEntry>, i: int) -> Option<int> {
    lower_level_from(es, es[i].0, i - 1)
}

impl App {
    /// This state with the outline selection replaced.
    pub open spec fn with_selected(self, sel: Option<usize>) -> App {
        App { outline: Outline { selected: sel, ..self.outline }, ..self }
    }

    /// This state with the content scrolled to `scroll`.
    pub open spec fn with_scroll(self, scroll: u16) -> App {
        App { layout: Layout { content_scroll: scroll, ..self.layout }, ..self }
    }
}

proof fn lemma_first_text_from_range(es: Seq<OutlineEntry>, t: Seq<char>, i: int)
    ensures
        first_text_from(es, t, i) matches Some(k) ==> i <= k < es.len() && es[k].1 == t,
    decreases es.len() - i,
{
    if 0 <= i < es.len() && es[i].1 != t {
        lemma_first_text_from_range(es, t, i + 1);
    }
}

pub proof fn lemma_lower_level_range(es: Seq<OutlineEntry>, level: usize, j: int)
    ensures
        lower_level_from(es, level, j) matches Some(k) ==> 0 <= k <= j && es[k].0 < level,
    decreases j + 1,
{
    if 0 <= j < es.len() && es[j].0 >= level {
        lemma_lower_level_range(es, level, j - 1);
    }
}

impl App {
    /// Select an outline item by index.
    pub fn select_outline_index(&mut self, idx: usize)
        ensures
            *final(self) == old(self).with_selected(Some(idx)),
    {
        self.outline.selected = Some(idx);
    }

    /// The index of the first outline item with this text (see [`first_text_index`]).
    pub fn find_text(&self, text: &str) -> (r: Option<usize>)
        ensures
            r matches Some(i) ==> first_text_index(entries(self.outline.items@), text@) == Some(i as int),
            r is None ==> first_text_index(entries(self.outline.items@), text@) is None,
    {
        let ghost es = entries(self.outline.items@);
        let mut i: usize = 0;
        while i < self.outline.items.len()
            invariant
                i <= self.outline.items@.len(),
                es == entries(self.outline.items@),
                first_text_from(es, text@, 0) == first_text_from(es, text@, i as int),
            decreases self.outline.items@.len() - i,
        {
            if str_eq(self.outline.items[i].text.as_str(), text) {
                return Some(i);
            }
            i += 1;
        }
        None
    }

    /// Select a heading by its text. Returns true if found and selected.
    pub fn select_by_text(&mut self, text: &str) -> (found: bool)
        ensures
            found == (first_text_index(entries(old(self).outline.items@), text@) is Some),
            match first_text_index(entries(old(self).outline.items@), text@) {
                Some(i) => *final(self) == old(self).with_selected(Some(i as usize)),
                None => *final(self) == *old(self),
            },
    {
        match self.find_text(text) {
            Some(i) => {
                self.select_outline_index(i);
                true
            },
            None => false,
        }
    }

    /// The text of the selected heading.
    pub fn selected_heading_text(&self) -> (r: Option<&str>)
        ensures
            match selected_text(self.outline.items@, self.outline.selected) {
                Some(t) => r matches Some(s) && s@ == t,
                None => r is None,
            },
    {
        match self.outline.selected {
            Some(i) => {
                if i < self.outline.items.len() {
                    Some(self.outline.items[i].text.as_str())
                } else {
                    None
                }
            },
            None => None,
        }
    }

    /// Move down: the next outline item (staying on the last), or one line
    /// of content while the last line has not been reached.
    pub fn next(&mut self)
        ensures
            old(self).layout.focus == Focus::Outline ==> *final(self) == old(self).with_selected(
                Some(match old(self).outline.selected {
                    Some(i) => if i + 1 >= old(self).outline.items@.len() { i } else { (i + 1) as usize },
                    None => 0,
                }),
            ),
            old(self).layout.focus != Focus::Outline ==> *final(self) == old(self).with_scroll(
                if old(self).layout.content_scroll + 1 < old(self).layout.content_height {
                    (old(self).layout.content_scroll + 1) as u16
                } else {
                    old(self).layout.content_scroll
                },
            ),
    {
        if self.layout.focus == Focus::Outline {
            let i = match self.outline.selected {
                Some(i) => {
                    if i >= self.outline.items.len().saturating_sub(1) {
                        i
                    } else {
                        i + 1
                    }
                },
                None => 0,
            };
            self.select_outline_index(i);
        } else {
            let new_scroll = self.layout.content_scroll.saturating_add(1);
            if new_scroll < self.layout.content_height {
                self.layout.content_scroll = new_scroll;
            }
        }
    }

    /// Move up: the previous outline item (staying on the first), or one
    /// line of content up.
    pub fn previous(&mut self)
        ensures
            old(self).layout.focus == Focus::Outline ==> *final(self) == old(self).with_selected(
                Some(match old(self).outline.selected {
                    Some(i) => if i == 0 { 0 } else { (i - 1) as usize },
                    None => 0,
                }),
            ),
            old(self).layout.focus != Focus::Outline ==> *final(self) == old(self).with_scroll(
                if old(self).layout.content_scroll == 0 { 0 } else { (old(self).layout.content_scroll - 1) as u16 },
            ),
    {
        if self.layout.focus == Focus::Outline {
            let i = match self.outline.selected {
                Some(i) => i.saturating_sub(1),
                None => 0,
            };
            self.select_outline_index(i);
        } else {
            self.layout.content_scroll = self.layout.content_scroll.saturating_sub(1);
        }
    }

    /// What [`App::first`] does: `post` is `pre` after it.
    pub open spec fn first_effect(pre: App, post: App) -> bool {
        &&& pre.layout.focus == Focus::Outline && pre.outline.items@.len() > 0 ==>
        post == pre.with_selected(Some(0))
        &&& !(pre.layout.focus == Focus::Outline && pre.outline.items@.len() > 0) ==>
        post == pre.with_scroll(0)
    }

    /// Jump to the first outline item, or to the top of the content.
    pub fn first(&mut self)
        ensures
            Self::first_effect(*old(self), *final(self)),
    {
        if self.layout.focus == Focus::Outline && self.outline.items.len() > 0 {
            self.select_outline_index(0);
        } else {
            self.layout.content_scroll = 0;
        }
    }

    /// What [`App::last`] does: `post` is `pre` after it.
    pub open spec fn last_effect(pre: App, post: App) -> bool {
        &&& pre.layout.focus == Focus::Outline && pre.outline.items@.len() > 0 ==>
        post == pre.with_selected(Some((pre.outline.items@.len() - 1) as usize))
        &&& !(pre.layout.focus == Focus::Outline && pre.outline.items@.len() > 0) ==>
        post == pre.with_scroll(
            if pre.layout.content_height > pre.layout.content_viewport_height {
                (pre.layout.content_height - pre.layout.content_viewport_height) as u16
            } else {
                0
            },
        )
    }

    /// Jump to the last outline item, or scroll so the last line of content
    /// sits at the bottom of the viewport.
    pub fn last(&mut self)
        ensures
            Self::last_effect(*old(self), *final(self)),
    {
        if self.layout.focus == Focus::Outline && self.outline.items.len() > 0 {
            let last = self.outline.items.len() - 1;
            self.select_outline_index(last);
        } else {
            self.layout.content_scroll = self.layout.content_height.saturating_sub(self.layout.content_viewport_height);
        }
    }

    /// The index of the parent of outline item `current_idx` (see [`parent_index`]).
    pub fn parent_of(&self, current_idx: usize) -> (r: Option<usize>)
        requires
            current_idx < self.outline.items@.len(),
        ensures
            r matches Some(p) ==> parent_index(entries(self.outline.items@), current_idx as int) == Some(p as int),
            r is None ==> parent_index(entries(self.outline.items@), current_idx as int) is None,
    {
        let ghost es = entries(self.outline.items@);
        let current_level = self.outline.items[current_idx].level;
        let mut i = current_idx;
        while i > 0
            invariant
                i <= current_idx < self.outline.items@.len(),
                es == entries(self.outline.items@),
                current_level == es[current_idx as int].0,
                parent_index(es, current_idx as int) == lower_level_from(es, current_level, i - 1),
            decreases i,
        {
            if self.outline.items[i - 1].level < current_level {
                return Some(i - 1);
            }
            i -= 1;
        }
        None
    }

    /// What [`App::jump_to_parent`] does: `post` is `pre` after it.
    pub open spec fn jump_to_parent_effect(pre: App, post: App) -> bool {
        &&& match pre.outline.selected {
        Some(i) => if i < pre.outline.items@.len() {
            match parent_index(entries(pre.outline.items@), i as int) {
                Some(p) => post == pre.with_selected(Some(p as usize)),
                None => post == pre,
            }
        } else {
            post == pre
        },
        None => post == pre,
    }
    }

    /// Select the parent of the selected heading (the nearest earlier item of
    /// lower level); stays put at a top-level heading.
    pub fn jump_to_parent(&mut self)
        ensures
            Self::jump_to_parent_effect(*old(self), *final(self)),
    {
        if let Some(current_idx) = self.outline.selected {
            if current_idx < self.outline.items.len() {
                if let Some(p) = self.parent_of(current_idx) {
                    proof {
                        lemma_lower_level_range(entries(self.outline.items@), self.outline.items@[current_idx as int].level, current_idx - 1);
                    }
                    self.select_outline_index(p);
                }
            }
        }
    }

    /// What [`App::jump_to_heading`] does: `post` is `pre` after it.
    pub open spec fn jump_to_heading_effect(pre: App, post: App, index: usize) -> bool {
        &&& index < pre.outline.items@.len() ==> post == pre.with_selected(Some(index))
        &&& index >= pre.outline.items@.len() ==> post == pre
    }

    /// Select outline item `index` when it exists.
    pub fn jump_to_heading(&mut self, index: usize)
        ensures
            Self::jump_to_heading_effect(*old(self), *final(self), index),
    {
        if index < self.outline.items.len() {
            self.select_outline_index(index);
        }
    }
}

} // verus!
