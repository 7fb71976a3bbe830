//! The command palette: matching and ranking commands against a typed
//! query, the palette's selection state, and parsing a heading level from
//! the query.

use vstd::prelude::*;
use crate::text::{
    chars_of, contains, contains_spec, has_prefix, is_ws, is_whitespace, lowercase, pop_char,
    push_char, push_str, starts_with, to_lowercase, trim_end_from, trim_end_index,
};

verus! {

broadcast use vstd::string::group_string_axioms;

/// Available commands in the command palette.
#[derive(Debug, Clone, Copy, PartialEq, Eq, Structural)]
pub enum CommandAction {
    SaveWidth,
    SaveFile,
    Undo,
    ToggleOutline,
    ToggleHelp,
    ToggleRawSource,
    JumpToTop,
    JumpToBottom,
    CollapseAll,
    ExpandAll,
    /// Collapse headings at a specific level (parsed from command argument)
    CollapseLevel,
    /// Expand headings at a specific level (parsed from command argument)
    ExpandLevel,
    Quit,
}

/// A command in the palette.
#[derive(Debug, Clone, Copy)]
pub struct PaletteCommand {
    pub name: &'static str,
    pub aliases: &'static [&'static str],
    pub description: &'static str,
    pub action: CommandAction,
}

/// `q` is a subsequence of `s` (its characters appear in `s` in order).
pub open spec fn is_subseq(q: Seq<char>, s: Seq<char>) -> bool
    decreases s.len(),
{
    if q.len() == 0 {
        true
    } else if s.len() == 0 {
        false
    } else if q[0] == s[0] {
        is_subseq(q.drop_first(), s.drop_first())
    } else {
        is_subseq(q, s.drop_first())
    }
}

/// Some alias, lowercased, satisfies `pred` against the lowercased query.
pub open spec fn some_alias_starts_with(aliases: Seq<&'static str>, ql: Seq<char>) -> bool {
    exists|i: int| 0 <= i < aliases.len() && has_prefix(lowercase(#[trigger] aliases[i]@), ql)
}

/// Some alias, lowercased, equals the lowercased query.
pub open spec fn some_alias_equals(aliases: Seq<&'static str>, ql: Seq<char>) -> bool {
    exists|i: int| 0 <= i < aliases.len() && lowercase(#[trigger] aliases[i]@) == ql
}

/// What [`PaletteCommand::matches`] returns: an empty query matches; otherwise
/// the lowercased query must be a substring or a subsequence of the
/// lowercased name, or a prefix of a lowercased alias.
pub open spec fn matches_spec(name: Seq<char>, aliases: Seq<&'static str>, query: Seq<char>) -> bool {
    let ql = lowercase(query);
    let nl = lowercase(name);
    query.len() == 0 || contains_spec(nl, ql) || some_alias_starts_with(aliases, ql) || is_subseq(ql, nl)
}

/// What [`PaletteCommand::match_score`] returns.
pub open spec fn score_spec(name: Seq<char>, aliases: Seq<&'static str>, query: Seq<char>) -> usize {
    let ql = lowercase(query);
    let nl = lowercase(name);
    if query.len() == 0 {
        100
    } else if some_alias_equals(aliases, ql) {
        1000
    } else if some_alias_starts_with(aliases, ql) {
        500
    } else if has_prefix(nl, ql) {
        300
    } else if contains_spec(nl, ql) {
        200
    } else {
        100
    }
}

/// Greedy in-order matching of `q` against `s[from..]`.
fn subseq_from(q: &Vec<char>, s: &Vec<char>) -> (b: bool)
    ensures
        b == is_subseq(q@, s@),
{
    let mut i: usize = 0;
    let mut j: usize = 0;
    assert(q@.skip(0) =~= q@);
    assert(s@.skip(0) =~= s@);
    while i < q.len()
        invariant
            i <= q.len(),
            j <= s.len(),
            is_subseq(q@, s@) == is_subseq(q@.skip(i as int), s@.skip(j as int)),
        decreases q.len() - i + s.len() - j,
    {
        if j >= s.len() {
            assert(s@.skip(j as int).len() == 0);
            return false;
        }
        assert(q@.skip(i as int)[0] == q@[i as int]);
        assert(s@.skip(j as int)[0] == s@[j as int]);
        assert(s@.skip(j as int).drop_first() =~= s@.skip(j + 1));
        if q[i] == s[j] {
            assert(q@.skip(i as int).drop_first() =~= q@.skip(i + 1));
            i += 1;
        }
        j += 1;
    }
    assert(q@.skip(i as int).len() == 0);
    true
}

/// Position of an alias whose lowercase form starts with `ql`.
fn alias_with_prefix(aliases: &[&'static str], ql: &Vec<char>) -> (b: bool)
    ensures
        b == some_alias_starts_with(aliases@, ql@),
{
    let mut i: usize = 0;
    while i < aliases.len()
        invariant
            i <= aliases.len(),
            forall|k: int| 0 <= k < i ==> !has_prefix(lowercase(#[trigger] aliases@[k]@), ql@),
        decreases aliases.len() - i,
    {
        let al = to_lowercase(aliases[i]);
        let av = chars_of(al.as_str());
        if starts_with(&av, ql) {
            return true;
        }
        i += 1;
    }
    false
}

/// Whether some alias lowercases to exactly `ql`.
fn alias_equal(aliases: &[&'static str], ql: &Vec<char>) -> (b: bool)
    ensures
        b == some_alias_equals(aliases@, ql@),
{
    let mut i: usize = 0;
    while i < aliases.len()
        invariant
            i <= aliases.len(),
            forall|k: int| 0 <= k < i ==> lowercase(#[trigger] aliases@[k]@) != ql@,
        decreases aliases.len() - i,
    {
        let al = to_lowercase(aliases[i]);
        let av = chars_of(al.as_str());
        if av.len() == ql.len() && starts_with(&av, ql) {
            assert(av@.subrange(0, ql@.len() as int) =~= av@);
            return true;
        }
        proof {
            if av@ == ql@ {
                assert(av@.subrange(0, ql@.len() as int) =~= av@);
            }
        }
        i += 1;
    }
    false
}

impl PaletteCommand {
    /// A palette command.
    pub fn new(
        name: &'static str,
        aliases: &'static [&'static str],
        description: &'static str,
        action: CommandAction,
    ) -> (c: PaletteCommand)
        ensures
            c.name == name,
            c.aliases == aliases,
            c.description == description,
            c.action == action,
    {
        PaletteCommand { name, aliases, description, action }
    }

    /// Check if query matches this command (substring or in-order fuzzy
    /// match on the name, prefix match on an alias; case-insensitive).
    pub fn matches(&self, query: &str) -> (b: bool)
        ensures
            b == matches_spec(self.name@, self.aliases@, query@),
    {
        if query.is_empty() {
            return true;
        }
        let ql_s = to_lowercase(query);
        let ql = chars_of(ql_s.as_str());
        let nl_s = to_lowercase(self.name);
        let nl = chars_of(nl_s.as_str());
        if contains(&nl, &ql) {
            return true;
        }
        if alias_with_prefix(self.aliases, &ql) {
            return true;
        }
        subseq_from(&ql, &nl)
    }

    /// Calculate match score (higher = better match).
    pub fn match_score(&self, query: &str) -> (s: usize)
        ensures
            s == score_spec(self.name@, self.aliases@, query@),
    {
        if query.is_empty() {
            return 100;
        }
        let ql_s = to_lowercase(query);
        let ql = chars_of(ql_s.as_str());
        if alias_equal(self.aliases, &ql) {
            return 1000;
        }
        if alias_with_prefix(self.aliases, &ql) {
            return 500;
        }
        let nl_s = to_lowercase(self.name);
        let nl = chars_of(nl_s.as_str());
        if starts_with(&nl, &ql) {
            return 300;
        }
        if contains(&nl, &ql) {
            return 200;
        }
        100
    }
}

/// Number of commands in the palette.
pub const PALETTE_COMMAND_COUNT: usize = 13;

/// All available commands.
pub fn palette_commands() -> (v: Vec<PaletteCommand>)
    ensures
        v@.len() == PALETTE_COMMAND_COUNT,
{
    let mut v: Vec<PaletteCommand> = Vec::new();
    v.push(PaletteCommand::new("Save changes", &["w", "write", "save"], "Save pending edits to file", CommandAction::SaveFile));
    v.push(PaletteCommand::new("Undo edit", &["u", "undo"], "Undo last table cell edit", CommandAction::Undo));
    v.push(PaletteCommand::new("Save width to config", &["sw", "savewidth"], "Save current outline width to config file", CommandAction::SaveWidth));
    v.push(PaletteCommand::new("Toggle outline", &["outline", "sidebar"], "Show/hide the outline sidebar", CommandAction::ToggleOutline));
    v.push(PaletteCommand::new("Toggle help", &["help", "?"], "Show/hide keyboard shortcuts", CommandAction::ToggleHelp));
    v.push(PaletteCommand::new("Toggle raw source", &["raw", "source"], "Switch between rendered and raw markdown", CommandAction::ToggleRawSource));
    v.push(PaletteCommand::new("Jump to top", &["top", "first", "gg"], "Go to first heading", CommandAction::JumpToTop));
    v.push(PaletteCommand::new("Jump to bottom", &["bottom", "last", "G"], "Go to last heading", CommandAction::JumpToBottom));
    v.push(PaletteCommand::new("Collapse all", &["collapse", "ca"], "Collapse all headings (or :collapse N for level N)", CommandAction::CollapseAll));
    v.push(PaletteCommand::new("Expand all", &["expand", "ea"], "Expand all headings (or :expand N for level N)", CommandAction::ExpandAll));
    v.push(PaletteCommand::new("Collapse level", &["collapse 1", "collapse 2", "collapse 3", "collapse 4", "collapse 5"], "Collapse headings at specific level", CommandAction::CollapseLevel));
    v.push(PaletteCommand::new("Expand level", &["expand 1", "expand 2", "expand 3", "expand 4", "expand 5"], "Expand headings at specific level", CommandAction::ExpandLevel));
    v.push(PaletteCommand::new("Quit", &["q", "quit", "exit"], "Exit treemd", CommandAction::Quit));
    v
}

// ---------------------------------------------------------------------------
// Ranking
// ---------------------------------------------------------------------------

/// Command `i` matches the query.
pub open spec fn cmd_matches(cmds: Seq<PaletteCommand>, q: Seq<char>, i: int) -> bool {
    matches_spec(cmds[i].name@, cmds[i].aliases@, q)
}

/// Score of command `i` for the query.
pub open spec fn cmd_score(cmds: Seq<PaletteCommand>, q: Seq<char>, i: int) -> int {
    score_spec(cmds[i].name@, cmds[i].aliases@, q) as int
}

/// Command `a` is listed before command `b`: higher score first, ties in list order.
pub open spec fn ranked_before(cmds: Seq<PaletteCommand>, q: Seq<char>, a: int, b: int) -> bool {
    cmd_score(cmds, q, a) > cmd_score(cmds, q, b) || (cmd_score(cmds, q, a) == cmd_score(cmds, q, b) && a < b)
}

/// `r` lists exactly the matching commands, ranked (a stable sort by
/// descending score of the matching positions).
pub open spec fn is_ranking(cmds: Seq<PaletteCommand>, q: Seq<char>, r: Seq<usize>) -> bool {
    &&& forall|k: int| 0 <= k < r.len() ==> #[trigger] r[k] < cmds.len() && cmd_matches(cmds, q, r[k] as int)
    &&& forall|i: int| 0 <= i < cmds.len() && #[trigger] cmd_matches(cmds, q, i) ==> r.contains(i as usize)
    &&& forall|k: int, l: int| 0 <= k < l < r.len() ==> ranked_before(cmds, q, #[trigger] r[k] as int, #[trigger] r[l] as int)
}

/// The score levels, highest first.
pub open spec fn level(b: int) -> int {
    if b == 0 { 1000 } else if b == 1 { 500 } else if b == 2 { 300 } else if b == 3 { 200 } else { 100 }
}

/// Filter and rank the commands for a query.
pub fn filter_commands(cmds: &[PaletteCommand], query: &str) -> (r: Vec<usize>)
    ensures
        is_ranking(cmds@, query@, r@),
{
    let n = cmds.len();
    let mut flags: Vec<bool> = Vec::new();
    let mut scores: Vec<usize> = Vec::new();
    let mut i: usize = 0;
    while i < n
        invariant
            i <= n == cmds@.len(),
            flags@.len() == i,
            scores@.len() == i,
            forall|k: int| 0 <= k < i ==> #[trigger] flags@[k] == cmd_matches(cmds@, query@, k),
            forall|k: int| 0 <= k < i ==> #[trigger] scores@[k] as int == cmd_score(cmds@, query@, k),
        decreases n - i,
    {
        flags.push(cmds[i].matches(query));
        scores.push(cmds[i].match_score(query));
        i += 1;
    }
    let levels: [usize; 5] = [1000, 500, 300, 200, 100];
    let mut r: Vec<usize> = Vec::new();
    let mut b: usize = 0;
    while b < 5
        invariant
            b <= 5,
            n == cmds@.len(),
            flags@.len() == n,
            scores@.len() == n,
            forall|k: int| 0 <= k < n ==> #[trigger] flags@[k] == cmd_matches(cmds@, query@, k),
            forall|k: int| 0 <= k < n ==> #[trigger] scores@[k] as int == cmd_score(cmds@, query@, k),
            forall|j: int| 0 <= j < 5 ==> levels@[j] as int == level(j),
            forall|k: int| 0 <= k < r@.len() ==> #[trigger] r@[k] < n && cmd_matches(cmds@, query@, r@[k] as int)
                && cmd_score(cmds@, query@, r@[k] as int) >= level(b - 1),
            b > 0 ==> forall|i: int| 0 <= i < n && #[trigger] cmd_matches(cmds@, query@, i)
                && cmd_score(cmds@, query@, i) >= level(b - 1) ==> r@.contains(i as usize),
            b == 0 ==> r@.len() == 0,
            forall|k: int, l: int| 0 <= k < l < r@.len() ==> ranked_before(cmds@, query@, #[trigger] r@[k] as int, #[trigger] r@[l] as int),
        decreases 5 - b,
    {
        let lv = levels[b];
        let ghost r0 = r@;
        let mut j: usize = 0;
        while j < n
            invariant
                b < 5,
                j <= n,
                n == cmds@.len(),
                flags@.len() == n,
                scores@.len() == n,
                lv as int == level(b as int),
                forall|k: int| 0 <= k < n ==> #[trigger] flags@[k] == cmd_matches(cmds@, query@, k),
                forall|k: int| 0 <= k < n ==> #[trigger] scores@[k] as int == cmd_score(cmds@, query@, k),
                r0.len() <= r@.len(),
                forall|k: int| 0 <= k < r0.len() ==> r@[k] == r0[k],
                forall|k: int| 0 <= k < r0.len() ==> #[trigger] r0[k] < n && cmd_matches(cmds@, query@, r0[k] as int)
                    && cmd_score(cmds@, query@, r0[k] as int) >= level(b - 1),
                b == 0 ==> r0.len() == 0,
                forall|k: int| r0.len() <= k < r@.len() ==> #[trigger] r@[k] < j && cmd_matches(cmds@, query@, r@[k] as int)
                    && cmd_score(cmds@, query@, r@[k] as int) == level(b as int),
                forall|i: int| 0 <= i < j && #[trigger] cmd_matches(cmds@, query@, i)
                    && cmd_score(cmds@, query@, i) == level(b as int) ==> r@.contains(i as usize),
                forall|k: int, l: int| 0 <= k < l < r@.len() ==> ranked_before(cmds@, query@, #[trigger] r@[k] as int, #[trigger] r@[l] as int),
            decreases n - j,
        {
            if flags[j] && scores[j] == lv {
                let ghost before = r@;
                r.push(j);
                proof {
                    assert forall|k: int, l: int| 0 <= k < l < r@.len() implies ranked_before(cmds@, query@, #[trigger] r@[k] as int, #[trigger] r@[l] as int) by {
                        if l == r@.len() - 1 && k < r0.len() {
                            assert(r@[k] == r0[k]);
                            if b > 0 {
                                assert(level(b - 1) > level(b as int));
                            }
                        }
                    }
                    assert forall|i: int| 0 <= i < j + 1 && #[trigger] cmd_matches(cmds@, query@, i)
                        && cmd_score(cmds@, query@, i) == level(b as int) implies r@.contains(i as usize) by {
                        if i < j {
                            assert(before.contains(i as usize));
                            let w = choose|w: int| 0 <= w < before.len() && before[w] == i as usize;
                            assert(r@[w] == i as usize);
                        } else {
                            assert(r@[r@.len() - 1] == j);
                        }
                    }
                }
            }
            j += 1;
        }
        proof {
            assert forall|k: int| 0 <= k < r@.len() implies #[trigger] r@[k] < n && cmd_matches(cmds@, query@, r@[k] as int)
                && cmd_score(cmds@, query@, r@[k] as int) >= level(b as int) by {
                if k < r0.len() {
                    assert(r@[k] == r0[k]);
                    assert(b > 0);
                    assert(level(b - 1) > level(b as int));
                }
            }
            assert forall|i: int| 0 <= i < n && #[trigger] cmd_matches(cmds@, query@, i)
                && cmd_score(cmds@, query@, i) >= level(b as int) implies r@.contains(i as usize) by {
                if cmd_score(cmds@, query@, i) > level(b as int) {
                    assert(b > 0);
                    let s = cmd_score(cmds@, query@, i);
                    assert(s >= level(b - 1));
                    assert(r0.contains(i as usize));
                    let w = choose|w: int| 0 <= w < r0.len() && r0[w] == i as usize;
                    assert(r@[w] == i as usize);
                }
            }
        }
        b += 1;
    }
    proof {
        assert forall|i: int| 0 <= i < cmds@.len() && #[trigger] cmd_matches(cmds@, query@, i) implies r@.contains(i as usize) by {
            assert(cmd_score(cmds@, query@, i) >= 100);
        }
    }
    r
}

// ---------------------------------------------------------------------------
// Palette state
// ---------------------------------------------------------------------------

/// The palette's typed query, ranked matches and selection.
#[derive(Debug)]
pub struct CommandPalette {
    pub command_query: String,
    /// Indices into the command list
    pub command_filtered: Vec<usize>,
    pub command_selected: usize,
}

impl CommandPalette {
    /// A closed palette listing every command.
    pub fn new(cmds: &[PaletteCommand]) -> (p: CommandPalette)
        ensures
            p.command_query@.len() == 0,
            p.command_filtered@ == Seq::new(cmds@.len(), |i: int| i as usize),
            p.command_selected == 0,
    {
        let mut p = CommandPalette { command_query: String::new(), command_filtered: Vec::new(), command_selected: 0 };
        p.open(cmds);
        p
    }

    /// Open command palette: empty query, every command listed, first selected.
    pub fn open(&mut self, cmds: &[PaletteCommand])
        ensures
            final(self).command_query@.len() == 0,
            final(self).command_filtered@ == Seq::new(cmds@.len(), |i: int| i as usize),
            final(self).command_selected == 0,
    {
        self.command_query = String::new();
        let mut all: Vec<usize> = Vec::new();
        let mut i: usize = 0;
        while i < cmds.len()
            invariant
                i <= cmds.len(),
                all@ == Seq::new(i as nat, |k: int| k as usize),
            decreases cmds.len() - i,
        {
            all.push(i);
            i += 1;
            assert(all@ =~= Seq::new(i as nat, |k: int| k as usize));
        }
        self.command_filtered = all;
        self.command_selected = 0;
    }

    /// Re-rank for the current query; an out-of-range selection goes back to the first entry.
    pub fn filter(&mut self, cmds: &[PaletteCommand])
        ensures
            final(self).command_query == old(self).command_query,
            is_ranking(cmds@, final(self).command_query@, final(self).command_filtered@),
            final(self).command_selected == (if old(self).command_selected >= final(self).command_filtered@.len() {
                0
            } else {
                old(self).command_selected
            }),
    {
        self.command_filtered = filter_commands(cmds, self.command_query.as_str());
        if self.command_selected >= self.command_filtered.len() {
            self.command_selected = 0;
        }
    }

    /// Add a character to the query (queries stop growing at 32 bytes).
    pub fn input(&mut self, cmds: &[PaletteCommand], c: char)
        ensures
            final(self).command_query@ == (if (vstd::utf8::encode_utf8(old(self).command_query@).len() as usize) < 32 {
                old(self).command_query@.push(c)
            } else {
                old(self).command_query@
            }),
            (vstd::utf8::encode_utf8(old(self).command_query@).len() as usize) < 32 ==> is_ranking(cmds@, final(self).command_query@, final(self).command_filtered@),
    {
        if self.command_query.as_str().len() < 32 {
            push_char(&mut self.command_query, c);
            self.filter(cmds);
        }
    }

    /// Remove the last character of the query and re-rank.
    pub fn backspace(&mut self, cmds: &[PaletteCommand])
        ensures
            final(self).command_query@ == (if old(self).command_query@.len() > 0 {
                old(self).command_query@.drop_last()
            } else {
                old(self).command_query@
            }),
            is_ranking(cmds@, final(self).command_query@, final(self).command_filtered@),
    {
        pop_char(&mut self.command_query);
        self.filter(cmds);
    }

    /// Move selection down, wrapping to the top.
    pub fn next(&mut self)
        ensures
            final(self).command_selected == (if old(self).command_filtered@.len() > 0 {
                ((old(self).command_selected + 1) % (old(self).command_filtered@.len() as int)) as usize
            } else {
                old(self).command_selected
            }),
            final(self).command_filtered == old(self).command_filtered,
            final(self).command_query == old(self).command_query,
    {
        if self.command_filtered.len() > 0 {
            self.command_selected = ((self.command_selected as u128 + 1) % (self.command_filtered.len() as u128)) as usize;
        }
    }

    /// Move selection up, wrapping to the bottom.
    pub fn prev(&mut self)
        ensures
            final(self).command_selected == (if old(self).command_filtered@.len() > 0 {
                if old(self).command_selected == 0 {
                    (old(self).command_filtered@.len() - 1) as usize
                } else {
                    (old(self).command_selected - 1) as usize
                }
            } else {
                old(self).command_selected
            }),
            final(self).command_filtered == old(self).command_filtered,
            final(self).command_query == old(self).command_query,
    {
        if self.command_filtered.len() > 0 {
            self.command_selected = if self.command_selected == 0 {
                self.command_filtered.len() - 1
            } else {
                self.command_selected - 1
            };
        }
    }

    /// The index of the selected command, if the selection is valid.
    pub fn selected_command(&self) -> (r: Option<usize>)
        ensures
            r == (if self.command_selected < self.command_filtered@.len() {
                Some(self.command_filtered@[self.command_selected as int])
            } else {
                None
            }),
    {
        if self.command_selected < self.command_filtered.len() {
            Some(self.command_filtered[self.command_selected])
        } else {
            None
        }
    }

    /// Replace the query with the selected command's first alias and re-rank.
    pub fn autocomplete(&mut self, cmds: &[PaletteCommand])
        ensures
            match (if old(self).command_selected < old(self).command_filtered@.len() {
                Some(old(self).command_filtered@[old(self).command_selected as int])
            } else {
                None
            }) {
                Some(ci) => if ci < cmds@.len() && cmds@[ci as int].aliases@.len() > 0 {
                    &&& final(self).command_query@ == cmds@[ci as int].aliases@[0]@
                    &&& is_ranking(cmds@, final(self).command_query@, final(self).command_filtered@)
                } else {
                    final(self).command_query == old(self).command_query
                },
                None => final(self).command_query == old(self).command_query,
            },
    {
        if let Some(ci) = self.selected_command() {
            if ci < cmds.len() && cmds[ci].aliases.len() > 0 {
                let mut q = String::new();
                push_str(&mut q, cmds[ci].aliases[0]);
                self.command_query = q;
                self.filter(cmds);
            }
        }
    }

    /// Close without executing: the query is cleared.
    pub fn close(&mut self)
        ensures
            final(self).command_query@.len() == 0,
            final(self).command_filtered == old(self).command_filtered,
            final(self).command_selected == old(self).command_selected,
    {
        self.command_query = String::new();
    }

    /// Take the selected command for execution: its action and the query
    /// typed (for argument parsing); the query is cleared either way.
    pub fn take_selected(&mut self, cmds: &[PaletteCommand]) -> (r: Option<(CommandAction, String)>)
        ensures
            final(self).command_query@.len() == 0,
            match (if old(self).command_selected < old(self).command_filtered@.len() {
                Some(old(self).command_filtered@[old(self).command_selected as int])
            } else {
                None
            }) {
                Some(ci) => if ci < cmds@.len() {
                    r matches Some((a, q)) && a == cmds@[ci as int].action && q@ == old(self).command_query@
                } else {
                    r is None
                },
                None => r is None,
            },
    {
        let sel = self.selected_command();
        let mut query = String::new();
        std::mem::swap(&mut query, &mut self.command_query);
        match sel {
            Some(ci) if ci < cmds.len() => Some((cmds[ci].action, query)),
            _ => None,
        }
    }
}

// ---------------------------------------------------------------------------
// Level argument
// ---------------------------------------------------------------------------

/// Start of the whitespace-free run that ends at `j`.
pub open spec fn word_start(s: Seq<char>, j: int) -> int
    decreases j,
{
    if 0 < j <= s.len() && !is_ws(s[j - 1]) {
        word_start(s, j - 1)
    } else {
        j
    }
}

/// The last whitespace-separated word (`split_whitespace().last()`).
pub open spec fn last_word(s: Seq<char>) -> Option<Seq<char>> {
    let end = trim_end_from(s, s.len() as int);
    if end <= 0 { None } else { Some(s.subrange(word_start(s, end), end)) }
}

/// Value of an ASCII decimal digit string.
pub open spec fn digits_value(s: Seq<char>) -> nat
    decreases s.len(),
{
    if s.len() == 0 { 0 } else { digits_value(s.drop_last()) * 10 + ((s.last() as u32) - 48) as nat }
}

/// All characters are ASCII digits.
pub open spec fn all_digits(s: Seq<char>) -> bool {
    forall|i: int| 0 <= i < s.len() ==> '0' <= #[trigger] s[i] <= '9'
}

/// `str::parse::<usize>`: an optional `+`, then one or more ASCII digits, within `usize`.
pub open spec fn parse_usize_spec(w: Seq<char>) -> Option<nat> {
    let d = if w.len() > 0 && w[0] == '+' { w.skip(1) } else { w };
    if d.len() == 0 || !all_digits(d) || digits_value(d) > usize::MAX {
        None
    } else {
        Some(digits_value(d))
    }
}

/// What [`parse_level_from_query`] returns: the last word of the query, read
/// as a number, when it is a heading level from 1 to 6.
pub open spec fn level_spec(q: Seq<char>) -> Option<usize> {
    match last_word(q) {
        Some(w) => match parse_usize_spec(w) {
            Some(n) => if 1 <= n <= 6 { Some(n as usize) } else { None },
            None => None,
        },
        None => None,
    }
}

proof fn lemma_word_start_bounds(s: Seq<char>, j: int)
    requires
        0 <= j <= s.len(),
    ensures
        0 <= word_start(s, j) <= j,
    decreases j,
{
    if 0 < j && !is_ws(s[j - 1]) {
        lemma_word_start_bounds(s, j - 1);
    }
}

/// Parses a decimal number that fits in `usize` (see [`parse_usize_spec`]).
fn parse_usize(w: &Vec<char>) -> (r: Option<usize>)
    ensures
        match parse_usize_spec(w@) {
            Some(n) => r == Some(n as usize),
            None => r is None,
        },
{
    let start: usize = if w.len() > 0 && w[0] == '+' { 1 } else { 0 };
    let ghost d = if w@.len() > 0 && w@[0] == '+' { w@.skip(1) } else { w@ };
    assert(d =~= w@.skip(start as int));
    if start >= w.len() {
        return None;
    }
    let mut value: usize = 0;
    let mut i = start;
    while i < w.len()
        invariant
            start <= i <= w.len(),
            d =~= w@.skip(start as int),
            d == (if w@.len() > 0 && w@[0] == '+' { w@.skip(1) } else { w@ }),
            value as nat == digits_value(w@.subrange(start as int, i as int)),
            all_digits(w@.subrange(start as int, i as int)),
        decreases w.len() - i,
    {
        let c = w[i];
        assert(w@.subrange(start as int, i + 1).drop_last() =~= w@.subrange(start as int, i as int));
        if !('0' <= c && c <= '9') {
            proof {
                assert(d[i - start] == c);
            }
            return None;
        }
        let digit = (c as u32 - 48) as usize;
        if value > (usize::MAX - digit) / 10 {
            proof {
                assert(w@.subrange(start as int, w@.len() as int) =~= d);
                if all_digits(d) {
                    assert(w@.subrange(start as int, i + 1) =~= d.subrange(0, i + 1 - start));
                    lemma_digits_grow(w@.subrange(start as int, i + 1), d);
                }
                assert(digits_value(w@.subrange(start as int, i + 1)) == value * 10 + digit) by (nonlinear_arith)
                    requires digits_value(w@.subrange(start as int, i + 1)) == digits_value(w@.subrange(start as int, i as int)) * 10 + digit,
                        value as nat == digits_value(w@.subrange(start as int, i as int));
                assert(value * 10 + digit > usize::MAX) by (nonlinear_arith)
                    requires value > (usize::MAX - digit) / 10, digit < 10;
                if all_digits(d) {
                    assert(digits_value(d) >= digits_value(w@.subrange(start as int, i + 1)));
                }
            }
            return None;
        }
        assert(value * 10 + digit <= usize::MAX) by (nonlinear_arith)
            requires value <= (usize::MAX - digit) / 10, digit < 10;
        value = value * 10 + digit;
        i += 1;
        assert(all_digits(w@.subrange(start as int, i as int)));
    }
    assert(w@.subrange(start as int, w@.len() as int) =~= d);
    Some(value)
}

/// Digit strings only grow in value when extended.
proof fn lemma_digits_grow(a: Seq<char>, b: Seq<char>)
    requires
        a.len() <= b.len(),
        a == b.subrange(0, a.len() as int),
        all_digits(b),
    ensures
        digits_value(a) <= digits_value(b),
    decreases b.len() - a.len(),
{
    if a.len() < b.len() {
        let b1 = b.drop_last();
        assert(a == b1.subrange(0, a.len() as int));
        assert(all_digits(b1));
        lemma_digits_grow(a, b1);
        assert('0' <= b[b.len() - 1]);
        assert(digits_value(b) == digits_value(b1) * 10 + ((b.last() as u32) - 48) as nat);
    } else {
        assert(a =~= b);
    }
}

/// Parse a level number from a command query like "collapse 2" or "expand 3".
pub fn parse_level_from_query(query: &str) -> (r: Option<usize>)
    ensures
        r == level_spec(query@),
{
    let v = chars_of(query);
    let end = trim_end_index(&v, v.len());
    if end == 0 {
        return None;
    }
    let mut start = end;
    while start > 0 && !is_whitespace(v[start - 1])
        invariant
            start <= end <= v.len(),
            word_start(v@, end as int) == word_start(v@, start as int),
        decreases start,
    {
        start -= 1;
    }
    proof { lemma_word_start_bounds(v@, start as int); }
    let mut w: Vec<char> = Vec::new();
    let mut k = start;
    while k < end
        invariant
            start <= k <= end <= v.len(),
            w@ == v@.subrange(start as int, k as int),
        decreases end - k,
    {
        w.push(v[k]);
        k += 1;
        assert(w@ =~= v@.subrange(start as int, k as int));
    }
    match parse_usize(&w) {
        Some(n) => if 1 <= n && n <= 6 { Some(n) } else { None },
        None => None,
    }
}

} // verus!
