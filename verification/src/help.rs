//! The keyboard-shortcut help screen: its lines and their plain text.

use vstd::prelude::*;
use crate::text::{chars_of, push_repeat, push_str, repeat_char};

verus! {

broadcast use vstd::string::group_string_axioms;

/// Key column width for keybindings.
pub const KEY_COLUMN_WIDTH: usize = 11;

/// One line of the help screen.
#[derive(Debug, Clone, Copy)]
pub enum HelpLine {
    Title(&'static str),
    Description(&'static str),
    SectionHeader(&'static str),
    KeyBinding { key: &'static str, desc: &'static str },
    Note(&'static str),
    Blank,
}

pub fn title(text: &'static str) -> (l: HelpLine)
    ensures
        l == HelpLine::Title(text),
{
    HelpLine::Title(text)
}

pub fn description(text: &'static str) -> (l: HelpLine)
    ensures
        l == HelpLine::Description(text),
{
    HelpLine::Description(text)
}

pub fn section(text: &'static str) -> (l: HelpLine)
    ensures
        l == HelpLine::SectionHeader(text),
{
    HelpLine::SectionHeader(text)
}

pub fn keybinding(key: &'static str, desc: &'static str) -> (l: HelpLine)
    ensures
        l == (HelpLine::KeyBinding { key, desc }),
{
    HelpLine::KeyBinding { key, desc }
}

pub fn note(text: &'static str) -> (l: HelpLine)
    ensures
        l == HelpLine::Note(text),
{
    HelpLine::Note(text)
}

pub fn blank() -> (l: HelpLine)
    ensures
        l == HelpLine::Blank,
{
    HelpLine::Blank
}

/// The key column: two spaces of indent, then the key left-aligned in a
/// field of [`KEY_COLUMN_WIDTH`] characters (longer keys are kept whole).
pub open spec fn key_column(key: Seq<char>) -> Seq<char> {
    let pad: nat = if key.len() < 11 { (11 - key.len()) as nat } else { 0 };
    seq![' ', ' '] + key + repeat_char(' ', pad)
}

/// The texts a help line is drawn from, one per styled span.
pub open spec fn segments_spec(l: HelpLine) -> Seq<Seq<char>> {
    match l {
        HelpLine::Title(t) => seq![t@],
        HelpLine::Description(t) => seq![t@],
        HelpLine::SectionHeader(t) => seq![t@],
        HelpLine::KeyBinding { key, desc } => seq![key_column(key@), desc@],
        HelpLine::Note(t) => seq![seq!['N', 'o', 't', 'e', ':', ' '], t@],
        HelpLine::Blank => seq![Seq::empty()],
    }
}

impl HelpLine {
    /// The plain texts of this line's spans, in order; the view adds only
    /// the theme's styles.
    pub fn segments(&self) -> (v: Vec<String>)
        ensures
            v@.len() == segments_spec(*self).len(),
            forall|i: int| 0 <= i < v@.len() ==> #[trigger] v@[i]@ == segments_spec(*self)[i],
    {
        let mut v: Vec<String> = Vec::new();
        match self {
            HelpLine::Title(t) | HelpLine::Description(t) | HelpLine::SectionHeader(t) => {
                let mut s = String::new();
                push_str(&mut s, t);
                v.push(s);
            },
            HelpLine::KeyBinding { key, desc } => {
                let mut k = String::new();
                push_str(&mut k, "  ");
                push_str(&mut k, key);
                let n = chars_of(key).len();
                let pad: usize = if n < KEY_COLUMN_WIDTH { KEY_COLUMN_WIDTH - n } else { 0 };
                push_repeat(&mut k, ' ', pad);
                proof {
                    reveal_strlit("  ");
                }
                v.push(k);
                let mut d = String::new();
                push_str(&mut d, desc);
                v.push(d);
            },
            HelpLine::Note(t) => {
                let mut p = String::new();
                push_str(&mut p, "Note: ");
                proof {
                    reveal_strlit("Note: ");
                }
                v.push(p);
                let mut s = String::new();
                push_str(&mut s, t);
                v.push(s);
            },
            HelpLine::Blank => {
                v.push(String::new());
            },
        }
        v
    }
}

/// Number of lines on the help screen.
pub const HELP_LINE_COUNT: usize = 58;

/// All lines of the help screen, top to bottom.
pub fn help_lines() -> (v: Vec<HelpLine>)
    ensures
        v@.len() == HELP_LINE_COUNT,
{
    let mut v: Vec<HelpLine> = Vec::new();
    v.push(title("treemd - Keyboard Shortcuts"));
    v.push(description("Use j/k or ↓/↑ to scroll | Press Esc or ? to close"));
    v.push(blank());
    v.push(section("Navigation"));
    v.push(keybinding("j/↓", "Move down"));
    v.push(keybinding("k/↑", "Move up"));
    v.push(keybinding("g", "Jump to top"));
    v.push(keybinding("G", "Jump to bottom"));
    v.push(keybinding("p", "Jump to parent heading"));
    v.push(keybinding("d", "Page down (content)"));
    v.push(keybinding("u", "Page up (content)"));
    v.push(blank());
    v.push(section("Tree Operations"));
    v.push(keybinding("Enter/Space", "Toggle expand/collapse"));
    v.push(keybinding("l/→", "Expand heading"));
    v.push(keybinding("h/←", "Collapse (or parent if no children)"));
    v.push(blank());
    v.push(section("General"));
    v.push(keybinding("Tab", "Switch between Outline and Content"));
    v.push(keybinding("/", "Search/filter headings"));
    v.push(keybinding("?", "Toggle this help"));
    v.push(keybinding("q/Esc", "Quit"));
    v.push(blank());
    v.push(section("UX Features"));
    v.push(keybinding("w", "Toggle outline visibility (full-width content)"));
    v.push(keybinding("[ ]", "Decrease/increase outline width (20%, 30%, 40%)"));
    v.push(keybinding("1-9", "Jump to heading 1-9"));
    v.push(keybinding("m", "Set bookmark (shows ⚑ indicator)"));
    v.push(keybinding("\u{27}", "Jump to bookmarked position"));
    v.push(blank());
    v.push(section("Link Following"));
    v.push(keybinding("f", "Enter link follow mode"));
    v.push(keybinding("Tab", "Cycle through links (in link mode)"));
    v.push(keybinding("1-9", "Jump to link by number (in link mode)"));
    v.push(keybinding("Enter", "Follow selected link (in link mode)"));
    v.push(keybinding("p", "Jump to parent's links (stay in link mode)"));
    v.push(keybinding("b/Bksp", "Go back to previous file"));
    v.push(keybinding("F", "Go forward in navigation history"));
    v.push(blank());
    v.push(section("Interactive Mode"));
    v.push(keybinding("i", "Enter interactive mode (navigate elements)"));
    v.push(keybinding("Tab/j/k", "Navigate between interactive elements"));
    v.push(keybinding("Enter", "Activate element (toggle/follow/edit)"));
    v.push(keybinding("Space", "Toggle checkboxes/details blocks"));
    v.push(keybinding("y", "Copy element (code/cell/link)"));
    v.push(keybinding("hjkl", "Navigate table cells (in table mode)"));
    v.push(keybinding("Enter", "Edit table cell (in table mode)"));
    v.push(keybinding("Esc", "Exit interactive mode"));
    v.push(blank());
    v.push(section("Themes & Clipboard"));
    v.push(keybinding("t", "Cycle color theme"));
    v.push(keybinding("y", "Copy current section content (works in all modes)"));
    v.push(keybinding("Y", "Copy anchor link (works in all modes)"));
    v.push(keybinding("e", "Edit file in default editor ($VISUAL or $EDITOR)"));
    v.push(blank());
    v.push(note("On Linux, install a clipboard manager (clipit, parcellite, xclip) for best results"));
    v.push(blank());
    v.push(description("Use j/k or ↓/↑ to scroll | Press Esc or ? to close"));
    v
}

} // verus!
