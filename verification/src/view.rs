//! Scrolling, focus, pane layout, the help screen, the theme picker, the
//! count prefix and bookmarks.

use vstd::prelude::*;
use crate::app::{App, Focus, Layout, Outline, ThemePicker, string_from};
use crate::help::HELP_LINE_COUNT;
use crate::outline::{first_text_index, selected_text};
use crate::app::entries;
use crate::text::{decimal, decimal_string, push_str};

verus! {

broadcast use vstd::string::group_string_axioms;

/// Lines scrolled by a page step.
pub const PAGE_STEP: u16 = 10;

/// Largest count prefix kept.
pub const MAX_COUNT: usize = 9999;

/// Number of colour themes.
pub const THEME_COUNT: usize = 8;

/// `a - b`, or 0 when `b > a`.
pub open spec fn sat_sub(a: int, b: int) -> int {
    if a > b { a - b } else { 0 }
}

/// The furthest the content can scroll: its last line at the bottom of the viewport.
pub open spec fn max_scroll(l: Layout) -> int {
    sat_sub(l.content_height as int, l.content_viewport_height as int)
}

/// `a + b` capped at `u16::MAX`.
pub open spec fn sat_add_u16(a: int, b: int) -> u16 {
    if a + b > u16::MAX { u16::MAX } else { (a + b) as u16 }
}

/// The width after one step of the outline-width cycle.
pub open spec fn next_width(w: u16, increase: bool) -> u16 {
    if increase {
        if w == 20 { 30 } else if w == 30 { 40 } else if w == 40 { 20 } else if w < 25 { 30 } else if w < 35 { 40 } else { 20 }
    } else {
        if w == 40 { 30 } else if w == 30 { 20 } else if w == 20 { 40 } else if w > 35 { 30 } else if w > 25 { 20 } else { 40 }
    }
}

/// The status line after changing the outline width.
pub open spec fn width_message(w: u16, custom: bool) -> Seq<char> {
    if custom {
        "Width: "@ + decimal(w as nat) + "% | S or :w to save"@
    } else {
        "Width: "@ + decimal(w as nat) + "%"@
    }
}

/// The count after typing digit `d`: ten times the count so far (none
/// counting as 0) plus `d`, capped at [`MAX_COUNT`].
pub open spec fn accumulated(count: Option<usize>, d: int) -> usize {
    let current: int = match count { Some(c) => c as int, None => 0 };
    let v = current * 10 + d;
    if v > MAX_COUNT { MAX_COUNT } else { v as usize }
}

impl App {
    /// Scroll content down by one line, stopping when the last line is at
    /// the bottom of the viewport.
    pub fn scroll_content_down(&mut self)
        ensures
            *final(self) == old(self).with_scroll(
                if old(self).layout.content_scroll + 1 <= max_scroll(old(self).layout) {
                    (old(self).layout.content_scroll + 1) as u16
                } else {
                    old(self).layout.content_scroll
                },
            ),
    {
        let max_scroll = self.layout.content_height.saturating_sub(self.layout.content_viewport_height);
        let new_scroll = self.layout.content_scroll.saturating_add(1);
        if new_scroll <= max_scroll {
            self.layout.content_scroll = new_scroll;
        }
    }

    /// Scroll content up by one line.
    pub fn scroll_content_up(&mut self)
        ensures
            *final(self) == old(self).with_scroll(sat_sub(old(self).layout.content_scroll as int, 1) as u16),
    {
        self.layout.content_scroll = self.layout.content_scroll.saturating_sub(1);
    }

    /// What [`App::scroll_page_down`] does: `post` is `pre` after it.
    pub open spec fn scroll_page_down_effect(pre: App, post: App) -> bool {
        &&& pre.layout.focus == Focus::Content ==> post == pre.with_scroll(
        if sat_add_u16(pre.layout.content_scroll as int, 10) <= max_scroll(pre.layout) {
            sat_add_u16(pre.layout.content_scroll as int, 10)
        } else {
            max_scroll(pre.layout) as u16
        },
    )
        &&& pre.layout.focus != Focus::Content ==> post == pre
    }

    /// Scroll down a page (content focus only), no further than the last line.
    pub fn scroll_page_down(&mut self)
        ensures
            Self::scroll_page_down_effect(*old(self), *final(self)),
    {
        if self.layout.focus == Focus::Content {
            self.scroll_page_down_interactive();
        }
    }

    /// What [`App::scroll_page_up`] does: `post` is `pre` after it.
    pub open spec fn scroll_page_up_effect(pre: App, post: App) -> bool {
        &&& pre.layout.focus == Focus::Content ==> post == pre.with_scroll(
        sat_sub(pre.layout.content_scroll as int, 10) as u16,
    )
        &&& pre.layout.focus != Focus::Content ==> post == pre
    }

    /// Scroll up a page (content focus only).
    pub fn scroll_page_up(&mut self)
        ensures
            Self::scroll_page_up_effect(*old(self), *final(self)),
    {
        if self.layout.focus == Focus::Content {
            self.scroll_page_up_interactive();
        }
    }

    /// Scroll page down in interactive mode (bypasses focus check).
    pub fn scroll_page_down_interactive(&mut self)
        ensures
            *final(self) == old(self).with_scroll(
                if sat_add_u16(old(self).layout.content_scroll as int, 10) <= max_scroll(old(self).layout) {
                    sat_add_u16(old(self).layout.content_scroll as int, 10)
                } else {
                    max_scroll(old(self).layout) as u16
                },
            ),
    {
        let max_scroll = self.layout.content_height.saturating_sub(self.layout.content_viewport_height);
        let new_scroll = self.layout.content_scroll.saturating_add(PAGE_STEP);
        self.layout.content_scroll = if new_scroll <= max_scroll { new_scroll } else { max_scroll };
    }

    /// Scroll page up in interactive mode (bypasses focus check).
    pub fn scroll_page_up_interactive(&mut self)
        ensures
            *final(self) == old(self).with_scroll(sat_sub(old(self).layout.content_scroll as int, 10) as u16),
    {
        self.layout.content_scroll = self.layout.content_scroll.saturating_sub(PAGE_STEP);
    }

    /// Auto-scroll to keep the selected interactive element in view, with a
    /// margin of up to two lines (a quarter of the viewport at most).
    pub fn scroll_to_interactive_element(&mut self, viewport_height: u16)
        ensures
            match old(self).interactive_state.current_line_range() {
                Some((start_line, end_line)) => {
                    let start = start_line as u16;
                    let end = end_line as u16;
                    let scroll = old(self).layout.content_scroll;
                    let viewport_end = sat_add_u16(scroll as int, viewport_height as int);
                    let margin: u16 = if 2 <= viewport_height / 4 { 2 } else { (viewport_height / 4) as u16 };
                    *final(self) == old(self).with_scroll(
                        if (start as int) < sat_add_u16(scroll as int, margin as int) {
                            sat_sub(start as int, margin as int) as u16
                        } else if sat_add_u16(end as int, margin as int) > viewport_end {
                            let new_scroll = sat_sub(sat_add_u16(end as int, margin as int) as int, viewport_height as int);
                            let limit = sat_sub(old(self).layout.content_height as int, viewport_height as int);
                            (if new_scroll <= limit { new_scroll } else { limit }) as u16
                        } else {
                            scroll
                        },
                    )
                },
                None => *final(self) == *old(self),
            },
    {
        if let Some((start_line, end_line)) = self.interactive_state.current_element_line_range() {
            let start = start_line as u16;
            let end = end_line as u16;
            let scroll = self.layout.content_scroll;
            let viewport_end = scroll.saturating_add(viewport_height);
            let quarter = viewport_height / 4;
            let scroll_margin: u16 = if 2 <= quarter { 2 } else { quarter };
            if start < scroll.saturating_add(scroll_margin) {
                self.layout.content_scroll = start.saturating_sub(scroll_margin);
            } else if end.saturating_add(scroll_margin) > viewport_end {
                let new_scroll = end.saturating_add(scroll_margin).saturating_sub(viewport_height);
                let limit = self.layout.content_height.saturating_sub(viewport_height);
                self.layout.content_scroll = if new_scroll <= limit { new_scroll } else { limit };
            }
        }
    }

    /// What [`App::toggle_help`] does: `post` is `pre` after it.
    pub open spec fn toggle_help_effect(pre: App, post: App) -> bool {
        &&& post == (App {
        layout: Layout {
            show_help: !pre.layout.show_help,
            help_scroll: if !pre.layout.show_help { 0 } else { pre.layout.help_scroll },
            ..pre.layout
        },
        ..pre
    })
    }

    /// Toggle the help screen; opening it scrolls it to the top.
    pub fn toggle_help(&mut self)
        ensures
            Self::toggle_help_effect(*old(self), *final(self)),
    {
        self.layout.show_help = !self.layout.show_help;
        if self.layout.show_help {
            self.layout.help_scroll = 0;
        }
    }

    /// What [`App::scroll_help_down`] does: `post` is `pre` after it.
    pub open spec fn scroll_help_down_effect(pre: App, post: App) -> bool {
        &&& post == (App {
        layout: Layout {
            help_scroll: if pre.layout.help_scroll + 1 < HELP_LINE_COUNT {
                (pre.layout.help_scroll + 1) as u16
            } else {
                pre.layout.help_scroll
            },
            ..pre.layout
        },
        ..pre
    })
    }

    /// Scroll help down one line, while before the last line.
    pub fn scroll_help_down(&mut self)
        ensures
            Self::scroll_help_down_effect(*old(self), *final(self)),
    {
        let new_scroll = self.layout.help_scroll.saturating_add(1);
        let max_scroll = HELP_LINE_COUNT as u16;
        if new_scroll < max_scroll {
            self.layout.help_scroll = new_scroll;
        }
    }

    /// What [`App::scroll_help_up`] does: `post` is `pre` after it.
    pub open spec fn scroll_help_up_effect(pre: App, post: App) -> bool {
        &&& post == (App {
        layout: Layout { help_scroll: sat_sub(pre.layout.help_scroll as int, 1) as u16, ..pre.layout },
        ..pre
    })
    }

    /// Scroll help up one line.
    pub fn scroll_help_up(&mut self)
        ensures
            Self::scroll_help_up_effect(*old(self), *final(self)),
    {
        self.layout.help_scroll = self.layout.help_scroll.saturating_sub(1);
    }

    /// What [`App::scroll_help_page_down`] does: `post` is `pre` after it.
    pub open spec fn scroll_help_page_down_effect(pre: App, post: App) -> bool {
        &&& post == (App {
        layout: Layout {
            help_scroll: if sat_add_u16(pre.layout.help_scroll as int, 10) < HELP_LINE_COUNT {
                sat_add_u16(pre.layout.help_scroll as int, 10)
            } else {
                pre.layout.help_scroll
            },
            ..pre.layout
        },
        ..pre
    })
    }

    /// Scroll help down half a page, while before the last line.
    pub fn scroll_help_page_down(&mut self)
        ensures
            Self::scroll_help_page_down_effect(*old(self), *final(self)),
    {
        let new_scroll = self.layout.help_scroll.saturating_add(PAGE_STEP);
        let max_scroll = HELP_LINE_COUNT as u16;
        if new_scroll < max_scroll {
            self.layout.help_scroll = new_scroll;
        }
    }

    /// What [`App::scroll_help_page_up`] does: `post` is `pre` after it.
    pub open spec fn scroll_help_page_up_effect(pre: App, post: App) -> bool {
        &&& post == (App {
        layout: Layout { help_scroll: sat_sub(pre.layout.help_scroll as int, 10) as u16, ..pre.layout },
        ..pre
    })
    }

    /// Scroll help up half a page.
    pub fn scroll_help_page_up(&mut self)
        ensures
            Self::scroll_help_page_up_effect(*old(self), *final(self)),
    {
        self.layout.help_scroll = self.layout.help_scroll.saturating_sub(PAGE_STEP);
    }

    /// What [`App::toggle_focus`] does: `post` is `pre` after it.
    pub open spec fn toggle_focus_effect(pre: App, post: App) -> bool {
        &&& ({
        let o = pre;
        if o.outline_search.show_search && !o.outline_search.outline_search_active && o.outline.items@.len() > 0 {
            let current: int = match o.outline.selected { Some(c) => c as int, None => 0 };
            post == o.with_selected(Some(((current + 1) % (o.outline.items@.len() as int)) as usize))
        } else if o.layout.show_outline {
            post == (App {
                layout: Layout {
                    focus: if o.layout.focus == Focus::Outline { Focus::Content } else { Focus::Outline },
                    ..o.layout
                },
                ..o
            })
        } else {
            post == o
        }
    })
    }

    /// Tab: in an accepted outline search, the next filtered heading
    /// (wrapping); otherwise switch focus between the panes when the
    /// outline shows.
    pub fn toggle_focus(&mut self)
        ensures
            Self::toggle_focus_effect(*old(self), *final(self)),
    {
        if self.outline_search.show_search && !self.outline_search.outline_search_active && self.outline.items.len() > 0 {
            let current = match self.outline.selected { Some(c) => c, None => 0 };
            let next = ((current as u128 + 1) % (self.outline.items.len() as u128)) as usize;
            self.select_outline_index(next);
            return;
        }
        if self.layout.show_outline {
            self.layout.focus = match self.layout.focus {
                Focus::Outline => Focus::Content,
                Focus::Content => Focus::Outline,
            };
        }
    }

    /// What [`App::toggle_focus_back`] does: `post` is `pre` after it.
    pub open spec fn toggle_focus_back_effect(pre: App, post: App) -> bool {
        &&& ({
        let o = pre;
        if o.outline_search.show_search && !o.outline_search.outline_search_active && o.outline.items@.len() > 0 {
            let current: int = match o.outline.selected { Some(c) => c as int, None => 0 };
            let len = o.outline.items@.len() as int;
            post == o.with_selected(Some(((current + len - 1) % len) as usize))
        } else if o.layout.show_outline {
            post == (App {
                layout: Layout {
                    focus: if o.layout.focus == Focus::Outline { Focus::Content } else { Focus::Outline },
                    ..o.layout
                },
                ..o
            })
        } else {
            post == o
        }
    })
    }

    /// Shift+Tab: in an accepted outline search, the previous filtered
    /// heading (wrapping); otherwise the same as [`App::toggle_focus`].
    pub fn toggle_focus_back(&mut self)
        ensures
            Self::toggle_focus_back_effect(*old(self), *final(self)),
    {
        if self.outline_search.show_search && !self.outline_search.outline_search_active && self.outline.items.len() > 0 {
            let current = match self.outline.selected { Some(c) => c, None => 0 };
            let len = self.outline.items.len();
            let prev = ((current as u128 + len as u128 - 1) % (len as u128)) as usize;
            self.select_outline_index(prev);
            return;
        }
        if self.layout.show_outline {
            self.layout.focus = match self.layout.focus {
                Focus::Outline => Focus::Content,
                Focus::Content => Focus::Outline,
            };
        }
    }

    /// What [`App::toggle_outline`] does: `post` is `pre` after it.
    pub open spec fn toggle_outline_effect(pre: App, post: App) -> bool {
        &&& post == (App {
        layout: Layout {
            show_outline: !pre.layout.show_outline,
            focus: if pre.layout.show_outline { Focus::Content } else { Focus::Outline },
            ..pre.layout
        },
        ..pre
    })
    }

    /// Show or hide the outline; hiding it focuses the content, showing it
    /// focuses the outline.
    pub fn toggle_outline(&mut self)
        ensures
            Self::toggle_outline_effect(*old(self), *final(self)),
    {
        self.layout.show_outline = !self.layout.show_outline;
        if !self.layout.show_outline {
            self.layout.focus = Focus::Content;
        } else {
            self.layout.focus = Focus::Outline;
        }
    }

    /// Cycle the outline width through 20%, 30% and 40% (custom widths snap
    /// to the nearest standard value in that direction), and report it. A
    /// width from a standard configuration is saved by the caller; a custom
    /// one is kept for the session and the message says how to save it.
    pub fn cycle_outline_width(&mut self, increase: bool)
        ensures
            final(self).layout == (Layout { outline_width: next_width(old(self).layout.outline_width, increase), ..old(self).layout }),
            final(self).status_message matches Some(m)
                && m@ == width_message(final(self).layout.outline_width, old(self).layout.config_has_custom_outline_width),
            *final(self) == (App {
                layout: final(self).layout,
                status_message: final(self).status_message,
                status_message_fresh: true,
                ..*old(self)
            }),
    {
        let w = self.layout.outline_width;
        self.layout.outline_width = if increase {
            if w == 20 { 30 } else if w == 30 { 40 } else if w == 40 { 20 } else if w < 25 { 30 } else if w < 35 { 40 } else { 20 }
        } else {
            if w == 40 { 30 } else if w == 30 { 20 } else if w == 20 { 40 } else if w > 35 { 30 } else if w > 25 { 20 } else { 40 }
        };
        let mut msg = string_from("Width: ");
        let d = decimal_string(self.layout.outline_width as u64);
        push_str(&mut msg, d.as_str());
        if self.layout.config_has_custom_outline_width {
            push_str(&mut msg, "% | S or :w to save");
        } else {
            push_str(&mut msg, "%");
        }
        self.set_status_message(msg.as_str());
    }

    /// Accumulate a digit into the vim-style count prefix (capped at 9999);
    /// returns whether `digit` was a decimal digit.
    pub fn accumulate_count_digit(&mut self, digit: char) -> (handled: bool)
        ensures
            handled == ('0' <= digit <= '9'),
            handled ==> *final(self) == (App {
                count_prefix: Some(accumulated(old(self).count_prefix, digit as int - '0' as int)),
                ..*old(self)
            }),
            !handled ==> *final(self) == *old(self),
    {
        if '0' <= digit && digit <= '9' {
            let d = (digit as u32 - '0' as u32) as usize;
            let current = match self.count_prefix { Some(c) => c, None => 0 };
            let new_count = if current > (MAX_COUNT - d) / 10 { MAX_COUNT } else { current * 10 + d };
            proof {
                if current > (MAX_COUNT - d) / 10 {
                    assert(current * 10 + d > MAX_COUNT) by (nonlinear_arith)
                        requires current > (MAX_COUNT - d) / 10, d <= 9;
                } else {
                    assert(current * 10 + d <= MAX_COUNT) by (nonlinear_arith)
                        requires current <= (MAX_COUNT - d) / 10, d <= 9;
                }
            }
            self.count_prefix = Some(new_count);
            true
        } else {
            false
        }
    }

    /// Get and consume the count prefix, returning at least 1.
    pub fn take_count(&mut self) -> (n: usize)
        ensures
            n == (match old(self).count_prefix { Some(c) => c, None => 1 }),
            *final(self) == (App { count_prefix: None, ..*old(self) }),
    {
        let c = self.count_prefix;
        self.count_prefix = None;
        match c {
            Some(c) => c,
            None => 1,
        }
    }

    /// Clear the count prefix without consuming it.
    pub fn clear_count(&mut self)
        ensures
            *final(self) == (App { count_prefix: None, ..*old(self) }),
    {
        self.count_prefix = None;
    }

    /// Check if there's an active count prefix.
    pub fn has_count(&self) -> (b: bool)
        ensures
            b == self.count_prefix is Some,
    {
        self.count_prefix.is_some()
    }

    /// What [`App::set_bookmark`] does: `post` is `pre` after it.
    pub open spec fn set_bookmark_effect(pre: App, post: App) -> bool {
        &&& match selected_text(pre.outline.items@, pre.outline.selected) {
        Some(t) => post.outline.bookmark_position matches Some(b) && b@ == t,
        None => post.outline.bookmark_position is None,
    }
        &&& post == (App {
        outline: Outline { bookmark_position: post.outline.bookmark_position, ..pre.outline },
        ..pre
    })
    }

    /// Bookmark the selected heading (by its text).
    pub fn set_bookmark(&mut self)
        ensures
            Self::set_bookmark_effect(*old(self), *final(self)),
    {
        self.outline.bookmark_position = match self.selected_heading_text() {
            Some(t) => Some(string_from(t)),
            None => None,
        };
    }

    /// What [`App::jump_to_bookmark`] does: `post` is `pre` after it.
    pub open spec fn jump_to_bookmark_effect(pre: App, post: App) -> bool {
        &&& match pre.outline.bookmark_position {
        Some(b) => match first_text_index(entries(pre.outline.items@), b@) {
            Some(k) => post == pre.with_selected(Some(k as usize)),
            None => post == pre,
        },
        None => post == pre,
    }
    }

    /// Select the bookmarked heading, if it is in the outline.
    pub fn jump_to_bookmark(&mut self)
        ensures
            Self::jump_to_bookmark_effect(*old(self), *final(self)),
    {
        let bookmark = match &self.outline.bookmark_position {
            Some(b) => Some(string_from(b.as_str())),
            None => None,
        };
        if let Some(text) = bookmark {
            self.select_by_text(text.as_str());
        }
    }

    /// What [`App::toggle_raw_source`] does: `post` is `pre` after it.
    pub open spec fn toggle_raw_source_effect(pre: App, post: App) -> bool {
        &&& post.layout == (Layout { show_raw_source: !pre.layout.show_raw_source, ..pre.layout })
        &&& post.status_message matches Some(m) && m@ == (if post.layout.show_raw_source {
        "Raw source view enabled"@
    } else {
        "Rendered view enabled"@
    })
        &&& post == (App {
        layout: post.layout,
        status_message: post.status_message,
        status_message_fresh: true,
        ..pre
    })
    }

    /// Switch between raw source and rendered view, and report which.
    pub fn toggle_raw_source(&mut self)
        ensures
            Self::toggle_raw_source_effect(*old(self), *final(self)),
    {
        self.layout.show_raw_source = !self.layout.show_raw_source;
        if self.layout.show_raw_source {
            self.set_status_message("Raw source view enabled");
        } else {
            self.set_status_message("Rendered view enabled");
        }
    }

    /// What [`App::toggle_theme_picker`] does: `post` is `pre` after it.
    pub open spec fn toggle_theme_picker_effect(pre: App, post: App) -> bool {
        &&& post.themes == (if pre.themes.show_theme_picker {
        ThemePicker {
            current_theme: match pre.themes.theme_picker_original {
                Some(t) => t,
                None => pre.themes.current_theme,
            },
            theme_picker_original: None,
            show_theme_picker: false,
            ..pre.themes
        }
    } else {
        ThemePicker {
            theme_picker_original: Some(pre.themes.current_theme),
            theme_picker_selected: pre.themes.current_theme,
            show_theme_picker: true,
            ..pre.themes
        }
    })
        &&& post == (App { themes: post.themes, ..pre })
    }

    /// Open the theme picker on the current theme, or close it restoring
    /// the theme it was opened on.
    pub fn toggle_theme_picker(&mut self)
        ensures
            Self::toggle_theme_picker_effect(*old(self), *final(self)),
    {
        if self.themes.show_theme_picker {
            if let Some(original) = self.themes.theme_picker_original {
                self.themes.current_theme = original;
            }
            self.themes.theme_picker_original = None;
            self.themes.show_theme_picker = false;
        } else {
            self.themes.theme_picker_original = Some(self.themes.current_theme);
            self.themes.theme_picker_selected = self.themes.current_theme;
            self.themes.show_theme_picker = true;
        }
    }

    /// What [`App::theme_picker_next`] does: `post` is `pre` after it.
    pub open spec fn theme_picker_next_effect(pre: App, post: App) -> bool {
        &&& post.themes == (if pre.themes.theme_picker_selected + 1 < THEME_COUNT {
        ThemePicker {
            theme_picker_selected: (pre.themes.theme_picker_selected + 1) as usize,
            current_theme: (pre.themes.theme_picker_selected + 1) as usize,
            ..pre.themes
        }
    } else {
        pre.themes
    })
        &&& post == (App { themes: post.themes, ..pre })
    }

    /// Preview the next theme of the list (stops at the last).
    pub fn theme_picker_next(&mut self)
        ensures
            Self::theme_picker_next_effect(*old(self), *final(self)),
    {
        if self.themes.theme_picker_selected < THEME_COUNT - 1 {
            self.themes.theme_picker_selected += 1;
            self.themes.current_theme = self.themes.theme_picker_selected;
        }
    }

    /// What [`App::theme_picker_previous`] does: `post` is `pre` after it.
    pub open spec fn theme_picker_previous_effect(pre: App, post: App) -> bool {
        &&& post.themes == (if pre.themes.theme_picker_selected > 0 {
        ThemePicker {
            theme_picker_selected: (pre.themes.theme_picker_selected - 1) as usize,
            current_theme: (pre.themes.theme_picker_selected - 1) as usize,
            ..pre.themes
        }
    } else {
        pre.themes
    })
        &&& post == (App { themes: post.themes, ..pre })
    }

    /// Preview the previous theme of the list (stops at the first).
    pub fn theme_picker_previous(&mut self)
        ensures
            Self::theme_picker_previous_effect(*old(self), *final(self)),
    {
        if self.themes.theme_picker_selected > 0 {
            self.themes.theme_picker_selected -= 1;
            self.themes.current_theme = self.themes.theme_picker_selected;
        }
    }

    /// Keep the previewed theme and close the picker (the caller saves it).
    pub fn apply_selected_theme(&mut self)
        ensures
            final(self).themes == (ThemePicker { theme_picker_original: None, show_theme_picker: false, ..old(self).themes }),
            *final(self) == (App { themes: final(self).themes, ..*old(self) }),
    {
        self.themes.theme_picker_original = None;
        self.themes.show_theme_picker = false;
    }
}

} // verus!
