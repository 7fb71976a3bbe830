//! The text of the status bar.

use vstd::prelude::*;
use vstd::utf8::{decode_utf8, encode_utf8};
use vstd::string::StringSliceAdditionalSpecFns;
use crate::app::{App, AppMode, Focus, string_from};
use crate::blocks::{LinkTarget, LinkTargetView};
use crate::text::{decimal, decimal_string, push_str};

verus! {

broadcast use vstd::string::group_string_axioms;

/// How the status bar shows a link's target: `#anchor`, `path#anchor`,
/// `[[target]]`, or the URL, cut to its first 37 bytes and `...` when it
/// is longer than 40 bytes.
pub open spec fn target_label(t: LinkTargetView) -> Seq<char> {
    match t {
        LinkTargetView::Anchor(a) => "#"@ + a,
        LinkTargetView::RelativeFile { path, anchor } => match anchor {
            Some(a) => path + "#"@ + a,
            None => path,
        },
        LinkTargetView::WikiLink { target } => "[["@ + target + "]]"@,
        LinkTargetView::External(url) => if encode_utf8(url).len() > 40 {
            decode_utf8(encode_utf8(url).take(37)) + "..."@
        } else {
            url
        },
    }
}

/// A URL's length in bytes fits in `usize`, and when it is longer than 40
/// bytes it can be cut after its first 37 bytes (a character does not
/// straddle that point).
pub open spec fn label_cuttable(t: LinkTargetView) -> bool {
    match t {
        LinkTargetView::External(url) => {
            &&& encode_utf8(url).len() <= usize::MAX
            &&& encode_utf8(url).len() > 40 ==> vstd::utf8::is_char_boundary(encode_utf8(url), 37)
        },
        _ => true,
    }
}

/// The link the status bar describes: the one at the selected position of
/// the list of links.
pub open spec fn status_link(app: App) -> Option<usize> {
    match app.links.selected_link_idx {
        Some(i) => if i < app.links.link_texts@.len() && i < app.links.link_destinations@.len() { Some(i) } else { None },
        None => None,
    }
}

/// The status of link follow mode.
pub open spec fn link_mode_status(app: App) -> Seq<char> {
    let count = app.links.link_texts@.len();
    let selected: nat = match app.links.selected_link_idx {
        Some(i) => (i + 1) as nat,
        None => 0,
    };
    let info = if count > 0 {
        match status_link(app) {
            Some(i) => "Link "@ + decimal(selected) + "/"@ + decimal(count) + ": \""@ + app.links.link_texts@[i as int]@
                + "\" → "@ + target_label(app.links.link_destinations@[i as int]@)
                + " • Tab:Next • Enter:Follow • Esc:Exit"@,
            None => "Link "@ + decimal(selected) + "/"@ + decimal(count) + " • Tab:Next • 1-9:Jump • Enter:Follow • Esc:Exit"@,
        }
    } else {
        "No links in current section • Press Esc to exit"@
    };
    " [LINK FOLLOW MODE] "@ + info + " "@
}

/// The selected outline row (the first when there is none).
pub open spec fn selected_row(app: App) -> nat {
    match app.outline.selected {
        Some(i) => i as nat,
        None => 0,
    }
}

/// Focus and position in the outline, also as a percentage: ` [Outline] 3/10 (30%)`.
pub open spec fn status_position(app: App) -> Seq<char> {
    let focus = match app.layout.focus {
        Focus::Outline => "Outline"@,
        Focus::Content => "Content"@,
    };
    let total = app.outline.items@.len();
    let row = selected_row(app);
    let percentage: nat = if total > 0 { ((row + 1) * 100 / total) as nat } else { 0 };
    " ["@ + focus + "] "@ + decimal(row + 1) + "/"@ + decimal(total) + " ("@ + decimal(percentage) + "%)"@
}

/// The bookmark mark ` ⚑` and the history mark ` ← n `, when they apply.
pub open spec fn status_marks(app: App) -> Seq<char> {
    let bookmark = if app.outline.bookmark_position is Some { " ⚑"@ } else { ""@ };
    let history = if app.history.file_history@.len() > 0 {
        " ← "@ + decimal(app.history.file_history@.len()) + " "@
    } else {
        ""@
    };
    bookmark + history
}

/// The outline width (or `Hidden`) and the key hints.
pub open spec fn status_tail(app: App) -> Seq<char> {
    let outline_status = if app.layout.show_outline {
        "Outline:"@ + decimal(app.layout.outline_width as nat) + "%"@
    } else {
        "Outline:Hidden"@
    };
    " • "@ + outline_status + " • i:Interactive • f:Links • b:Back • w:View • []:Size • m:Mark • y/Y:Copy • t:Theme • ?:Help "@
}

/// The status of the other modes: focus, position in the outline (and as
/// a percentage), bookmark and history marks, outline width, key hints.
pub open spec fn normal_status(app: App) -> Seq<char> {
    status_position(app) + status_marks(app) + status_tail(app)
}

/// The status bar: the status message when there is one; otherwise the
/// mode's status, the theme's name, and `[RAW]` in raw source view.
pub open spec fn status_bar_spec(app: App, theme_name: Seq<char>) -> Seq<char> {
    match app.status_message {
        Some(m) => m@,
        None => (if app.mode == AppMode::LinkFollow { link_mode_status(app) } else { normal_status(app) })
            + " Theme:"@ + theme_name + " "@ + (if app.layout.show_raw_source { " [RAW]"@ } else { ""@ }),
    }
}

/// How the status bar shows a link's target (see [`target_label`]).
fn label_of(t: &LinkTarget) -> (s: String)
    requires
        label_cuttable(t@),
    ensures
        s@ == target_label(t@),
{
    proof {
        reveal_strlit("#");
        reveal_strlit("[[");
        reveal_strlit("]]");
        reveal_strlit("...");
    }
    match t {
        LinkTarget::Anchor(a) => {
            let mut s = string_from("#");
            push_str(&mut s, a.as_str());
            assert(s@ =~= target_label(t@));
            s
        },
        LinkTarget::RelativeFile { path, anchor } => {
            let mut s = string_from(path.as_str());
            if let Some(a) = anchor {
                push_str(&mut s, "#");
                push_str(&mut s, a.as_str());
            }
            assert(s@ =~= target_label(t@));
            s
        },
        LinkTarget::WikiLink { target } => {
            let mut s = string_from("[[");
            push_str(&mut s, target.as_str());
            push_str(&mut s, "]]");
            assert(s@ =~= target_label(t@));
            s
        },
        LinkTarget::External(url) => {
            let u = url.as_str();
            if u.len() > 40 {
                let (head, _) = u.split_at(37);
                proof {
                    vstd::utf8::encode_utf8_decode_utf8(head@);
                    assert(head.spec_bytes() =~= encode_utf8(url@).take(37));
                }
                let mut s = string_from(head);
                push_str(&mut s, "...");
                assert(s@ =~= target_label(t@));
                s
            } else {
                let s = string_from(u);
                assert(s@ =~= target_label(t@));
                s
            }
        },
    }
}

/// `(row + 1) * 100 / total`.
fn percent_of(row: usize, total: usize) -> (p: usize)
    requires
        total > 0,
        (row + 1) * 100 <= usize::MAX,
    ensures
        p == (row + 1) * 100 / (total as int),
{
    (row + 1) * 100 / total
}

impl App {
    /// The status of link follow mode (see [`link_mode_status`]).
    fn link_mode_text(&self) -> (s: String)
        requires
            self.links.selected_link_idx matches Some(i) ==> i < usize::MAX,
            match status_link(*self) {
                Some(i) => label_cuttable(self.links.link_destinations@[i as int]@),
                None => true,
            },
        ensures
            s@ == link_mode_status(*self),
    {
        proof {
            reveal_strlit(" [LINK FOLLOW MODE] ");
            reveal_strlit(" ");
            reveal_strlit("Link ");
            reveal_strlit("/");
            reveal_strlit(": \"");
            reveal_strlit("\" → ");
            reveal_strlit(" • Tab:Next • Enter:Follow • Esc:Exit");
            reveal_strlit(" • Tab:Next • 1-9:Jump • Enter:Follow • Esc:Exit");
            reveal_strlit("No links in current section • Press Esc to exit");
        }
        let mut s = String::new();
        let count = self.links.link_texts.len();
        let selected: usize = match self.links.selected_link_idx {
            Some(i) => i + 1,
            None => 0,
        };
        push_str(&mut s, " [LINK FOLLOW MODE] ");
        if count > 0 {
            push_str(&mut s, "Link ");
            push_str(&mut s, decimal_string(selected as u64).as_str());
            push_str(&mut s, "/");
            push_str(&mut s, decimal_string(count as u64).as_str());
            let current = match self.links.selected_link_idx {
                Some(i) => if i < self.links.link_texts.len() && i < self.links.link_destinations.len() { Some(i) } else { None },
                None => None,
            };
            match current {
                Some(i) => {
                    push_str(&mut s, ": \"");
                    push_str(&mut s, self.links.link_texts[i].as_str());
                    push_str(&mut s, "\" → ");
                    let label = label_of(&self.links.link_destinations[i]);
                    push_str(&mut s, label.as_str());
                    push_str(&mut s, " • Tab:Next • Enter:Follow • Esc:Exit");
                },
                None => {
                    push_str(&mut s, " • Tab:Next • 1-9:Jump • Enter:Follow • Esc:Exit");
                },
            }
        } else {
            push_str(&mut s, "No links in current section • Press Esc to exit");
        }
        push_str(&mut s, " ");
        assert(s@ =~= link_mode_status(*self));
        s
    }

    /// Focus and position (see [`status_position`]).
    fn position_text(&self) -> (s: String)
        requires
            (selected_row(*self) + 1) * 100 <= usize::MAX,
        ensures
            s@ == status_position(*self),
    {
        proof {
            reveal_strlit("Outline");
            reveal_strlit("Content");
            reveal_strlit("/");
            reveal_strlit(" [");
            reveal_strlit("] ");
            reveal_strlit(" (");
            reveal_strlit("%)");
        }
        let mut s = string_from(" [");
        let total = self.outline.items.len();
        let row: usize = match self.outline.selected {
            Some(i) => i,
            None => 0,
        };
        let percentage: usize = if total > 0 { percent_of(row, total) } else { 0 };
        match self.layout.focus {
            Focus::Outline => push_str(&mut s, "Outline"),
            Focus::Content => push_str(&mut s, "Content"),
        }
        push_str(&mut s, "] ");
        push_str(&mut s, decimal_string((row + 1) as u64).as_str());
        push_str(&mut s, "/");
        push_str(&mut s, decimal_string(total as u64).as_str());
        push_str(&mut s, " (");
        push_str(&mut s, decimal_string(percentage as u64).as_str());
        push_str(&mut s, "%)");
        assert(s@ =~= status_position(*self));
        s
    }

    /// Bookmark and history marks (see [`status_marks`]).
    fn marks_text(&self) -> (s: String)
        ensures
            s@ == status_marks(*self),
    {
        proof {
            reveal_strlit(" ⚑");
            reveal_strlit("");
            reveal_strlit(" ← ");
            reveal_strlit(" ");
        }
        let mut s = String::new();
        if self.outline.bookmark_position.is_some() {
            push_str(&mut s, " ⚑");
        }
        if self.history.file_history.len() > 0 {
            push_str(&mut s, " ← ");
            push_str(&mut s, decimal_string(self.history.file_history.len() as u64).as_str());
            push_str(&mut s, " ");
        }
        assert(s@ =~= status_marks(*self));
        s
    }

    /// Outline width and key hints (see [`status_tail`]).
    fn tail_text(&self) -> (s: String)
        ensures
            s@ == status_tail(*self),
    {
        proof {
            reveal_strlit("Outline:");
            reveal_strlit("%");
            reveal_strlit("Outline:Hidden");
            reveal_strlit(" • ");
            reveal_strlit(" • i:Interactive • f:Links • b:Back • w:View • []:Size • m:Mark • y/Y:Copy • t:Theme • ?:Help ");
        }
        let mut s = string_from(" • ");
        if self.layout.show_outline {
            push_str(&mut s, "Outline:");
            push_str(&mut s, decimal_string(self.layout.outline_width as u64).as_str());
            push_str(&mut s, "%");
        } else {
            push_str(&mut s, "Outline:Hidden");
        }
        push_str(&mut s, " • i:Interactive • f:Links • b:Back • w:View • []:Size • m:Mark • y/Y:Copy • t:Theme • ?:Help ");
        assert(s@ =~= status_tail(*self));
        s
    }

    /// The status of the other modes (see [`normal_status`]).
    fn normal_text(&self) -> (s: String)
        requires
            (selected_row(*self) + 1) * 100 <= usize::MAX,
        ensures
            s@ == normal_status(*self),
    {
        let mut s = self.position_text();
        push_str(&mut s, self.marks_text().as_str());
        push_str(&mut s, self.tail_text().as_str());
        s
    }

    /// The text of the status bar (see [`status_bar_spec`]), with the
    /// current theme's name.
    pub fn status_bar_text(&self, theme_name: &str) -> (s: String)
        requires
            (selected_row(*self) + 1) * 100 <= usize::MAX,
            self.links.selected_link_idx matches Some(i) ==> i < usize::MAX,
            match status_link(*self) {
                Some(i) => label_cuttable(self.links.link_destinations@[i as int]@),
                None => true,
            },
        ensures
            s@ == status_bar_spec(*self, theme_name@),
    {
        proof {
            reveal_strlit(" Theme:");
            reveal_strlit(" ");
            reveal_strlit(" [RAW]");
            reveal_strlit("");
        }
        if let Some(m) = &self.status_message {
            return string_from(m.as_str());
        }
        let mut s = if self.mode == AppMode::LinkFollow { self.link_mode_text() } else { self.normal_text() };
        let ghost mode_text = s@;
        push_str(&mut s, " Theme:");
        push_str(&mut s, theme_name);
        push_str(&mut s, " ");
        if self.layout.show_raw_source {
            push_str(&mut s, " [RAW]");
        }
        assert(s@ =~= mode_text + " Theme:"@ + theme_name@ + " "@ + (if self.layout.show_raw_source { " [RAW]"@ } else { ""@ }));
        s
    }
}

} // verus!
