//! What table editing, markdown links, checkbox toggling, outline search
//! and the command palette are for, stated over all inputs.

use vstd::prelude::*;
use crate::app::{App, OutlineEntry, flatten_forest, text_set};
use crate::checkbox::{replace_first, toggled_line};
use crate::edits::{is_separator_line, is_table_line, replace_cell_spec, scan_lines, scan_text};
use crate::links::{PathInfo, RelChoice, extension_of, file_label, has_md_extension_spec, opened_message, relative_choice};
use crate::palette::{PaletteCommand, cmd_matches, is_ranking, is_subseq, matches_spec};
use crate::search::{filtered_outline, matching_entries};
use crate::text::{contains_spec, lines_spec, find_from_spec, is_ws, lemma_find_from_found, lemma_first_occurrence, lowercase, occurs_at};

verus! {

// ---------------------------------------------------------------------------
// Table editing
// ---------------------------------------------------------------------------

/// How many tables end among the first `n` lines: the places where a table
/// line is followed by a line that is not one.
pub open spec fn tables_ended(lines: Seq<Seq<char>>, n: int) -> int
    decreases n,
{
    if n <= 1 || n > lines.len() {
        0
    } else {
        tables_ended(lines, n - 1) + if is_table_line(lines[n - 2]) && !is_table_line(lines[n - 1]) { 1int } else { 0int }
    }
}

/// The table a cell edit addresses counts tables, not lines: after any
/// number of lines, the scan is inside a table exactly when the last line
/// is a table line, and the table index is the number of tables that have
/// ended (maximal runs of table lines closed by another line). Prose and
/// blank lines outside a table never change which table is addressed.
pub proof fn law_table_index_counts_tables(lines: Seq<Seq<char>>, n: int, t: int, r: int, c: int, v: Seq<char>)
    requires
        0 <= n <= lines.len(),
    ensures
        scan_lines(lines, n, t, r, c, v).table == tables_ended(lines, n),
        scan_lines(lines, n, t, r, c, v).in_table == (n > 0 && is_table_line(lines[n - 1])),
    decreases n,
{
    if n > 0 {
        law_table_index_counts_tables(lines, n - 1, t, r, c, v);
    }
}

/// Lines before the first table line leave the table counter at 0, so the
/// first table of any document is table 0.
pub proof fn law_text_before_first_table(lines: Seq<Seq<char>>, n: int, t: int, r: int, c: int, v: Seq<char>)
    requires
        0 <= n <= lines.len(),
        forall|k: int| 0 <= k < n ==> !is_table_line(#[trigger] lines[k]),
    ensures
        scan_lines(lines, n, t, r, c, v).table == 0,
        !scan_lines(lines, n, t, r, c, v).in_table,
    decreases n,
{
    law_table_index_counts_tables(lines, n, t, r, c, v);
    lemma_no_table_ends(lines, n);
}

proof fn lemma_no_table_ends(lines: Seq<Seq<char>>, n: int)
    requires
        0 <= n <= lines.len(),
        forall|k: int| 0 <= k < n ==> !is_table_line(#[trigger] lines[k]),
    ensures
        tables_ended(lines, n) == 0,
    decreases n,
{
    if n > 1 {
        lemma_no_table_ends(lines, n - 1);
        assert(!is_table_line(lines[n - 2]));
    }
}

/// The rows (lines that are not separators) among lines `k..n`.
pub open spec fn rows_between(lines: Seq<Seq<char>>, k: int, n: int) -> int
    decreases n - k,
{
    if n <= k {
        0
    } else {
        rows_between(lines, k, n - 1) + if is_separator_line(lines[n - 1]) { 0int } else { 1int }
    }
}

proof fn lemma_rows_nonneg(lines: Seq<Seq<char>>, k: int, n: int)
    ensures
        rows_between(lines, k, n) >= 0,
    decreases n - k,
{
    if n > k {
        lemma_rows_nonneg(lines, k, n - 1);
    }
}

/// Through the lines of the first table (starting at `k`, after lines
/// that are no table lines), the scan counts the table as table 0 and the
/// rows from its header, and edits the row asked for once.
proof fn lemma_first_table_scan(lines: Seq<Seq<char>>, k: int, m: int, n: int, row: int, col: int, v: Seq<char>)
    requires
        0 <= k,
        0 <= m,
        0 <= row,
        k + m <= lines.len(),
        0 <= n <= k + m,
        forall|i: int| 0 <= i < k ==> !is_table_line(#[trigger] lines[i]),
        forall|i: int| k <= i < k + m ==> is_table_line(#[trigger] lines[i]),
    ensures
        scan_lines(lines, n, 0, row, col, v).table == 0,
        scan_lines(lines, n, 0, row, col, v).in_table == (n > k),
        scan_lines(lines, n, 0, row, col, v).row == rows_between(lines, k, n),
        scan_lines(lines, n, 0, row, col, v).modified == (rows_between(lines, k, n) > row),
        scan_lines(lines, n, 0, row, col, v).out.len() == n,
        forall|j: int| k <= j < n && !is_separator_line(lines[j]) && rows_between(lines, k, j) == row
            ==> #[trigger] scan_lines(lines, n, 0, row, col, v).out[j] == replace_cell_spec(lines[j], col, v),
    decreases n,
{
    if n > 0 {
        lemma_first_table_scan(lines, k, m, n - 1, row, col, v);
        if n - 1 >= k {
            assert(is_table_line(lines[n - 1]));
        } else {
            assert(!is_table_line(lines[n - 1]));
        }
        let prev = scan_lines(lines, n - 1, 0, row, col, v);
        let st = scan_lines(lines, n, 0, row, col, v);
        assert forall|j: int| k <= j < n && !is_separator_line(lines[j]) && rows_between(lines, k, j) == row
            implies #[trigger] st.out[j] == replace_cell_spec(lines[j], col, v) by {
            if j < n - 1 {
                assert(st.out[j] == prev.out[j]);
            }
        }
    }
}

/// Later lines keep what the scan has written and the edit it has made.
proof fn lemma_scan_keeps(lines: Seq<Seq<char>>, n: int, n2: int, t: int, row: int, col: int, v: Seq<char>)
    requires
        0 <= n <= n2 <= lines.len(),
    ensures
        scan_lines(lines, n, t, row, col, v).modified ==> scan_lines(lines, n2, t, row, col, v).modified,
        scan_lines(lines, n2, t, row, col, v).out.len() == n2,
        forall|j: int| 0 <= j < n ==> #[trigger] scan_lines(lines, n2, t, row, col, v).out[j]
            == scan_lines(lines, n, t, row, col, v).out[j],
    decreases n2,
{
    if n2 > 0 {
        if n2 > n {
            lemma_scan_keeps(lines, n, n2 - 1, t, row, col, v);
            let prev = scan_lines(lines, n2 - 1, t, row, col, v);
            let st = scan_lines(lines, n2, t, row, col, v);
            assert forall|j: int| 0 <= j < n implies #[trigger] st.out[j] == scan_lines(lines, n, t, row, col, v).out[j] by {
                assert(st.out[j] == prev.out[j]);
            }
        } else {
            lemma_scan_keeps(lines, n2 - 1, n2 - 1, t, row, col, v);
        }
    }
}

/// Editing table 0 succeeds whatever text stands before the first table:
/// when its lines start at `k`, after lines that are no table lines, and
/// line `j` of it is its row `row` (separators not counted), the edit is
/// made and that line gets cell `col` replaced.
pub proof fn law_first_table_cell_edited(content: Seq<char>, k: int, m: int, j: int, row: int, col: int, v: Seq<char>)
    requires
        0 <= k <= j < k + m <= lines_spec(content).len(),
        forall|i: int| 0 <= i < k ==> !is_table_line(#[trigger] lines_spec(content)[i]),
        forall|i: int| k <= i < k + m ==> is_table_line(#[trigger] lines_spec(content)[i]),
        !is_separator_line(lines_spec(content)[j]),
        rows_between(lines_spec(content), k, j) == row,
    ensures
        scan_text(content, 0, row, col, v).modified,
        scan_text(content, 0, row, col, v).out[j] == replace_cell_spec(lines_spec(content)[j], col, v),
{
    let lines = lines_spec(content);
    lemma_rows_nonneg(lines, k, j);
    lemma_first_table_scan(lines, k, m, j + 1, row, col, v);
    assert(rows_between(lines, k, j + 1) == row + 1);
    lemma_scan_keeps(lines, j + 1, lines.len() as int, 0, row, col, v);
}

// ---------------------------------------------------------------------------
// Markdown links
// ---------------------------------------------------------------------------

/// A path counts as markdown exactly when it has an extension that,
/// lowercased, is `md`, `markdown` or `mdown`.
pub proof fn law_markdown_extensions(p: Seq<char>)
    ensures
        has_md_extension_spec(p) <==> (extension_of(p) matches Some(e) && (lowercase(e) == "md"@
            || lowercase(e) == "markdown"@ || lowercase(e) == "mdown"@)),
{
}

/// In particular a `.markdown` path is a markdown path.
pub proof fn law_markdown_extension_is_markdown(p: Seq<char>, e: Seq<char>)
    requires
        extension_of(p) == Some(e),
        lowercase(e) == "markdown"@,
    ensures
        has_md_extension_spec(p),
{
}

/// A relative link to a path whose lowercased extension is `md`,
/// `markdown` or `mdown` is opened in the viewer as it is, whatever files
/// exist: it is never handed to the editor.
pub proof fn law_markdown_link_opens(d: Seq<char>, path: Seq<char>, facts: Seq<(String, PathInfo)>, e: Seq<char>)
    requires
        extension_of(path) == Some(e),
        lowercase(e) == "md"@ || lowercase(e) == "markdown"@ || lowercase(e) == "mdown"@,
    ensures
        relative_choice(d, path, facts) == RelChoice::Open(path, opened_message(file_label(path))),
{
}

// ---------------------------------------------------------------------------
// Checkboxes
// ---------------------------------------------------------------------------

/// `s` is made of whitespace.
pub open spec fn all_ws(s: Seq<char>) -> bool {
    forall|k: int| 0 <= k < s.len() ==> is_ws(#[trigger] s[k])
}

/// The first occurrence of `from` lies at or after `k`, or there is none:
/// then replacing it keeps the first `k` characters.
proof fn lemma_replace_keeps_prefix(s: Seq<char>, from: Seq<char>, to: Seq<char>, k: int)
    requires
        0 <= k <= s.len(),
        from.len() > 0,
        forall|j: int| 0 <= j < k ==> !occurs_at(s, from, j),
    ensures
        replace_first(s, from, to).len() >= k,
        replace_first(s, from, to).take(k) == s.take(k),
{
    match find_from_spec(s, from, 0) {
        Some(i) => {
            lemma_find_from_found(s, from, 0, i);
            assert(i >= k);
            let res = s.take(i) + to + s.skip(i + from.len());
            assert(res.take(k) =~= s.take(k));
        },
        None => {},
    }
}

/// `from` first occurs at `i`: replacing it puts `to` there.
proof fn lemma_replace_at(s: Seq<char>, from: Seq<char>, to: Seq<char>, i: int)
    requires
        occurs_at(s, from, i),
        forall|j: int| 0 <= j < i ==> !occurs_at(s, from, j),
    ensures
        replace_first(s, from, to) == s.take(i) + to + s.skip(i + from.len()),
{
    lemma_first_occurrence(s, from, 0, i);
}

/// No `[` stands among the first `w + 2` characters of `ws + "- " + ...`.
proof fn lemma_no_bracket_before(line: Seq<char>, ws: Seq<char>, p: Seq<char>, j: int)
    requires
        all_ws(ws),
        line.len() >= ws.len() + 2,
        line.take(ws.len() as int + 2) == ws + seq!['-', ' '],
        0 <= j < ws.len() + 2,
        p.len() > 0,
        p[0] == '[',
    ensures
        !occurs_at(line, p, j),
{
    if occurs_at(line, p, j) {
        assert(line.subrange(j, j + p.len())[0] == p[0]);
        assert(line[j] == '[');
        assert(line.take(ws.len() as int + 2)[j] == line[j]);
        if j < ws.len() {
            assert(is_ws(ws[j]));
        }
    }
}

/// Toggling a checked checkbox line (`- [x]` or `- [X]` after its
/// indentation) gives an unchecked one (`- [ ]`), the indentation kept.
pub proof fn law_toggle_unchecks(ws: Seq<char>, mark: char, rest: Seq<char>)
    requires
        all_ws(ws),
        mark == 'x' || mark == 'X',
    ensures
        toggled_line(ws + seq!['-', ' ', '[', mark, ']'] + rest, true).take(ws.len() as int + 5)
            == ws + seq!['-', ' ', '[', ' ', ']'],
{
    reveal_strlit("[x]");
    reveal_strlit("[X]");
    reveal_strlit("[ ]");
    let w = ws.len() as int;
    let line = ws + seq!['-', ' ', '[', mark, ']'] + rest;
    let lx = "[x]"@;
    let ux = "[X]"@;
    let sp = "[ ]"@;
    assert(line.take(w + 2) =~= ws + seq!['-', ' ']);
    assert(line.take(w + 5) =~= ws + seq!['-', ' ', '[', mark, ']']);
    if mark == 'x' {
        assert forall|j: int| 0 <= j < w + 2 implies !occurs_at(line, lx, j) by {
            lemma_no_bracket_before(line, ws, lx, j);
        }
        assert(line.subrange(w + 2, w + 5) =~= lx);
        lemma_replace_at(line, lx, sp, w + 2);
        let a = line.take(w + 2) + sp + line.skip(w + 5);
        assert(a.take(w + 5) =~= ws + seq!['-', ' ', '[', ' ', ']']);
        assert(a.take(w + 2) =~= ws + seq!['-', ' ']);
        assert forall|j: int| 0 <= j < w + 5 implies !occurs_at(a, ux, j) by {
            if j < w + 2 {
                lemma_no_bracket_before(a, ws, ux, j);
            } else if occurs_at(a, ux, j) {
                assert(a.subrange(j, j + 3)[0] == a[j]);
                assert(a.take(w + 5)[j] == a[j]);
                if j == w + 2 {
                    assert(a.subrange(j, j + 3)[1] == a[j + 1]);
                    assert(a.take(w + 5)[j + 1] == a[j + 1]);
                }
            }
        }
        lemma_replace_keeps_prefix(a, ux, sp, w + 5);
        assert(toggled_line(line, true) == replace_first(a, ux, sp));
        assert(replace_first(a, ux, sp).take(w + 5) =~= a.take(w + 5));
    } else {
        assert forall|j: int| 0 <= j < w + 5 implies !occurs_at(line, lx, j) by {
            if j < w + 2 {
                lemma_no_bracket_before(line, ws, lx, j);
            } else if occurs_at(line, lx, j) {
                assert(line.subrange(j, j + 3)[0] == line[j]);
                assert(line.take(w + 5)[j] == line[j]);
                if j == w + 2 {
                    assert(line.subrange(j, j + 3)[1] == line[j + 1]);
                    assert(line.take(w + 5)[j + 1] == line[j + 1]);
                }
            }
        }
        lemma_replace_keeps_prefix(line, lx, sp, w + 5);
        let a = replace_first(line, lx, sp);
        assert(a.take(w + 5) =~= line.take(w + 5));
        assert(a.take(w + 2) =~= ws + seq!['-', ' ']) by {
            assert(a.take(w + 2) =~= a.take(w + 5).take(w + 2));
        }
        assert forall|j: int| 0 <= j < w + 2 implies !occurs_at(a, ux, j) by {
            lemma_no_bracket_before(a, ws, ux, j);
        }
        assert(a.subrange(w + 2, w + 5) =~= ux) by {
            assert(a.subrange(w + 2, w + 5) =~= a.take(w + 5).subrange(w + 2, w + 5));
        }
        lemma_replace_at(a, ux, sp, w + 2);
        let b = a.take(w + 2) + sp + a.skip(w + 5);
        assert(b.take(w + 5) =~= ws + seq!['-', ' ', '[', ' ', ']']);
    }
}

/// Toggling an unchecked checkbox line (`- [ ]` after its indentation)
/// gives a checked one (`- [x]`), the indentation kept.
pub proof fn law_toggle_checks(ws: Seq<char>, rest: Seq<char>)
    requires
        all_ws(ws),
    ensures
        toggled_line(ws + seq!['-', ' ', '[', ' ', ']'] + rest, false).take(ws.len() as int + 5)
            == ws + seq!['-', ' ', '[', 'x', ']'],
{
    reveal_strlit("[x]");
    reveal_strlit("[ ]");
    let w = ws.len() as int;
    let line = ws + seq!['-', ' ', '[', ' ', ']'] + rest;
    let lx = "[x]"@;
    let sp = "[ ]"@;
    assert(line.take(w + 2) =~= ws + seq!['-', ' ']);
    assert forall|j: int| 0 <= j < w + 2 implies !occurs_at(line, sp, j) by {
        lemma_no_bracket_before(line, ws, sp, j);
    }
    assert(line.subrange(w + 2, w + 5) =~= sp);
    lemma_replace_at(line, sp, lx, w + 2);
    let b = line.take(w + 2) + lx + line.skip(w + 5);
    assert(b.take(w + 5) =~= ws + seq!['-', ' ', '[', 'x', ']']);
}

// ---------------------------------------------------------------------------
// Outline search
// ---------------------------------------------------------------------------

proof fn lemma_matching_keeps(es: Seq<OutlineEntry>, q: Seq<char>, n: int, i: int)
    requires
        0 <= i < n <= es.len(),
        contains_spec(lowercase(es[i].1), lowercase(q)),
    ensures
        matching_entries(es, q, n).contains(es[i]),
    decreases n,
{
    if i < n - 1 {
        lemma_matching_keeps(es, q, n - 1, i);
        let m = matching_entries(es, q, n - 1);
        let k = choose|k: int| 0 <= k < m.len() && m[k] == es[i];
        assert(matching_entries(es, q, n)[k] == es[i]);
    } else {
        let m = matching_entries(es, q, n - 1);
        assert(matching_entries(es, q, n)[m.len() as int] == es[i]);
    }
}

proof fn lemma_matching_only(es: Seq<OutlineEntry>, q: Seq<char>, n: int, e: OutlineEntry)
    requires
        0 <= n <= es.len(),
        matching_entries(es, q, n).contains(e),
    ensures
        contains_spec(lowercase(e.1), lowercase(q)),
    decreases n,
{
    if n > 0 {
        let m = matching_entries(es, q, n - 1);
        let k = choose|k: int| 0 <= k < matching_entries(es, q, n).len() && matching_entries(es, q, n)[k] == e;
        if k < m.len() {
            assert(m[k] == e);
            lemma_matching_only(es, q, n - 1, e);
        }
    }
}

/// Outline search keeps a heading exactly when its lowercased text holds
/// the lowercased query somewhere (at any position, not only at the
/// start): an entry whose text holds it at position `p` is in the
/// filtered outline, and every heading entry kept holds it.
pub proof fn law_outline_search_substring(app: App, q: Seq<char>, i: int, p: int)
    requires
        0 <= i < flatten_forest(app.tree@, text_set(app.outline.collapsed_headings@)).len(),
        0 <= p,
        p + lowercase(q).len() <= lowercase(flatten_forest(app.tree@, text_set(app.outline.collapsed_headings@))[i].1).len(),
        lowercase(flatten_forest(app.tree@, text_set(app.outline.collapsed_headings@))[i].1).subrange(p, p + lowercase(q).len())
            == lowercase(q),
    ensures
        filtered_outline(app, q).contains(flatten_forest(app.tree@, text_set(app.outline.collapsed_headings@))[i]),
{
    let f = flatten_forest(app.tree@, text_set(app.outline.collapsed_headings@));
    let t = lowercase(f[i].1);
    assert(occurs_at(t, lowercase(q), p));
    assert(contains_spec(t, lowercase(q)));
    lemma_matching_keeps(f, q, f.len() as int, i);
    let m = matching_entries(f, q, f.len() as int);
    let k = choose|k: int| 0 <= k < m.len() && m[k] == f[i];
    let r = filtered_outline(app, q);
    if r != m {
        assert(r[k + 1] == f[i]);
    }
}

/// Every heading entry the search keeps holds the query.
pub proof fn law_outline_search_keeps_matches(es: Seq<OutlineEntry>, q: Seq<char>, e: OutlineEntry)
    requires
        matching_entries(es, q, es.len() as int).contains(e),
    ensures
        contains_spec(lowercase(e.1), lowercase(q)),
{
    lemma_matching_only(es, q, es.len() as int, e);
}

// ---------------------------------------------------------------------------
// Command palette
// ---------------------------------------------------------------------------

/// `idx` places the characters of `q` in `s`, in order: `q[k]` is `s[idx[k]]`
/// and the positions increase.
pub open spec fn placed_in_order(q: Seq<char>, s: Seq<char>, idx: Seq<int>) -> bool {
    &&& idx.len() == q.len()
    &&& forall|k: int| 0 <= k < idx.len() ==> 0 <= #[trigger] idx[k] < s.len() && s[idx[k]] == q[k]
    &&& forall|k: int, l: int| 0 <= k < l < idx.len() ==> #[trigger] idx[k] < #[trigger] idx[l]
}

proof fn lemma_in_order_is_subseq(q: Seq<char>, s: Seq<char>, idx: Seq<int>)
    requires
        placed_in_order(q, s, idx),
    ensures
        is_subseq(q, s),
    decreases s.len(),
{
    if q.len() == 0 {
    } else {
        assert(0 <= idx[0] < s.len());
        let shifted = Seq::new(idx.len(), |k: int| idx[k] - 1);
        if q[0] == s[0] {
            let rest = shifted.drop_first();
            assert forall|k: int| 0 <= k < rest.len() implies 0 <= #[trigger] rest[k] < s.drop_first().len()
                && s.drop_first()[rest[k]] == q.drop_first()[k] by {
                assert(idx[0] < idx[k + 1]);
            }
            assert forall|k: int, l: int| 0 <= k < l < rest.len() implies #[trigger] rest[k] < #[trigger] rest[l] by {
                assert(idx[k + 1] < idx[l + 1]);
            }
            lemma_in_order_is_subseq(q.drop_first(), s.drop_first(), rest);
        } else {
            assert(idx[0] != 0);
            assert forall|k: int| 0 <= k < shifted.len() implies 0 <= #[trigger] shifted[k] < s.drop_first().len()
                && s.drop_first()[shifted[k]] == q[k] by {
                if k > 0 {
                    assert(idx[0] < idx[k]);
                }
            }
            assert forall|k: int, l: int| 0 <= k < l < shifted.len() implies #[trigger] shifted[k] < #[trigger] shifted[l] by {
                assert(idx[k] < idx[l]);
            }
            lemma_in_order_is_subseq(q, s.drop_first(), shifted);
        }
    }
}

/// A palette command matches every query whose lowercased characters
/// appear in order in its lowercased name (at the positions `idx`), so the
/// palette lists it.
pub proof fn law_palette_fuzzy_match(name: Seq<char>, aliases: Seq<&'static str>, query: Seq<char>, idx: Seq<int>)
    requires
        placed_in_order(lowercase(query), lowercase(name), idx),
    ensures
        matches_spec(name, aliases, query),
{
    lemma_in_order_is_subseq(lowercase(query), lowercase(name), idx);
}

/// Any ranking of the commands for a query lists every command whose
/// lowercased name holds the lowercased query's characters in order.
pub proof fn law_palette_lists_fuzzy_match(cmds: Seq<PaletteCommand>, query: Seq<char>, r: Seq<usize>, i: int, idx: Seq<int>)
    requires
        is_ranking(cmds, query, r),
        0 <= i < cmds.len(),
        placed_in_order(lowercase(query), lowercase(cmds[i].name@), idx),
    ensures
        r.contains(i as usize),
{
    law_palette_fuzzy_match(cmds[i].name@, cmds[i].aliases@, query, idx);
    assert(cmd_matches(cmds, query, i));
}

} // verus!
