//! Editing table cells in markdown text: finding a table's row by counting
//! tables and rows line by line, replacing one cell, and the buffer of edits
//! not yet saved, with undo.

use vstd::prelude::*;
use crate::app::{App, AppMode, Edits, PendingEdit, string_from};
use crate::text::{
    chars_of, contains, copy_chars, contains_spec, decimal, decimal_string, join_char, join_chars, lines_spec,
    push_char, push_str, skip_ws, split_char, split_chars, strip_cr, trim_end_index, trim_spec,
};

verus! {

broadcast use vstd::string::group_string_axioms;

/// A cell value made safe for a table row: `|` escaped as `\|`, and line
/// breaks (`\n`, `\r`) turned into spaces.
pub open spec fn sanitize_spec(s: Seq<char>) -> Seq<char>
    decreases s.len(),
{
    if s.len() == 0 {
        seq![]
    } else {
        let c = s.last();
        sanitize_spec(s.drop_last()) + if c == '|' {
            seq!['\\', '|']
        } else if c == '\n' || c == '\r' {
            seq![' ']
        } else {
            seq![c]
        }
    }
}

/// The row with cell `col` replaced by ` value `: the pieces between `|`s,
/// the first and last kept, piece `col + 1` replaced.
pub open spec fn replace_cell_spec(line: Seq<char>, col: int, value: Seq<char>) -> Seq<char> {
    let parts = split_char(line, '|');
    if 0 < col + 1 < parts.len() - 1 {
        join_char(parts.update(col + 1, seq![' '] + value + seq![' ']), '|')
    } else {
        line
    }
}

/// A line of a table: once trimmed, it starts and ends with `|`.
pub open spec fn is_table_line(line: Seq<char>) -> bool {
    let t = trim_spec(line);
    t.len() > 0 && t[0] == '|' && t.last() == '|'
}

/// A table's separator row (`| --- | --- |`).
pub open spec fn is_separator_line(line: Seq<char>) -> bool {
    contains_spec(trim_spec(line), seq!['-', '-', '-'])
}

/// Where the line-by-line scan stands: inside a table, the row within it,
/// the table's index, whether the cell was replaced, and the lines so far.
pub struct ScanState {
    pub in_table: bool,
    pub row: int,
    pub table: int,
    pub modified: bool,
    pub out: Seq<Seq<char>>,
}

/// The scan after the first `n` lines: rows count inside each table (not
/// its separator), a non-table line ends a table, and the row `row` of
/// table `table_index` gets cell `col` replaced.
pub open spec fn scan_lines(lines: Seq<Seq<char>>, n: int, table_index: int, row: int, col: int, value: Seq<char>) -> ScanState
    decreases n,
{
    if n <= 0 || n > lines.len() {
        ScanState { in_table: false, row: 0, table: 0, modified: false, out: seq![] }
    } else {
        let st = scan_lines(lines, n - 1, table_index, row, col, value);
        let line = lines[n - 1];
        if is_table_line(line) {
            let r = if st.in_table { st.row } else { 0 };
            if is_separator_line(line) {
                ScanState { in_table: true, row: r, out: st.out.push(line), ..st }
            } else if st.table == table_index && r == row && !st.modified {
                ScanState { in_table: true, row: r + 1, modified: true, out: st.out.push(replace_cell_spec(line, col, value)), ..st }
            } else {
                ScanState { in_table: true, row: r + 1, out: st.out.push(line), ..st }
            }
        } else {
            ScanState {
                in_table: false,
                table: if st.in_table { st.table + 1 } else { st.table },
                out: st.out.push(line),
                ..st
            }
        }
    }
}

/// The whole scan of a text.
pub open spec fn scan_text(content: Seq<char>, table_index: int, row: int, col: int, value: Seq<char>) -> ScanState {
    let lines = lines_spec(content);
    scan_lines(lines, lines.len() as int, table_index, row, col, value)
}

/// The error when the row was not found.
pub open spec fn not_found_message(table_index: nat, row: nat) -> Seq<char> {
    "Table "@ + decimal(table_index) + " not found or row "@ + decimal(row) + " not found"@
}

proof fn lemma_scan_bounds(lines: Seq<Seq<char>>, n: int, t: int, r: int, c: int, v: Seq<char>)
    requires
        0 <= n <= lines.len(),
    ensures
        0 <= scan_lines(lines, n, t, r, c, v).row <= n,
        0 <= scan_lines(lines, n, t, r, c, v).table <= n,
        scan_lines(lines, n, t, r, c, v).out.len() == n,
    decreases n,
{
    if n > 0 {
        lemma_scan_bounds(lines, n - 1, t, r, c, v);
    }
}

/// The trimmed characters of a line.
fn trim_chars(v: &Vec<char>) -> (t: Vec<char>)
    ensures
        t@ == trim_spec(v@),
{
    let start = skip_ws(v, 0);
    let mut rest: Vec<char> = Vec::new();
    let mut i = start;
    while i < v.len()
        invariant
            start <= i <= v@.len(),
            rest@ == v@.subrange(start as int, i as int),
        decreases v@.len() - i,
    {
        rest.push(v[i]);
        i += 1;
    }
    assert(rest@ =~= v@.skip(start as int));
    let end = trim_end_index(&rest, rest.len());
    let mut t: Vec<char> = Vec::new();
    let mut k: usize = 0;
    while k < end
        invariant
            k <= end <= rest@.len(),
            t@ == rest@.take(k as int),
        decreases end - k,
    {
        t.push(rest[k]);
        k += 1;
        assert(t@ =~= rest@.take(k as int));
    }
    t
}

/// The lines of a text (see [`lines_spec`]).
pub fn lines_of(s: &str) -> (lines: Vec<Vec<char>>)
    ensures
        lines@.len() == lines_spec(s@).len(),
        forall|k: int| 0 <= k < lines@.len() ==> (#[trigger] lines@[k])@ == lines_spec(s@)[k],
{
    let v = chars_of(s);
    let parts = split_chars(&v, '\n');
    let ghost ps = split_char(s@, '\n');
    let n = parts.len();
    proof {
        crate::text::lemma_split_char_nonempty(s@, '\n');
    }
    let mut lines: Vec<Vec<char>> = Vec::new();
    let mut k: usize = 0;
    while k + 1 < n
        invariant
            n == parts@.len() == ps.len(),
            n >= 1,
            k + 1 <= n,
            forall|j: int| 0 <= j < n ==> (#[trigger] parts@[j])@ == ps[j],
            lines@.len() == k,
            forall|j: int| 0 <= j < k ==> (#[trigger] lines@[j])@ == strip_cr(ps[j]),
        decreases n - k,
    {
        let p = &parts[k];
        let mut line: Vec<char> = Vec::new();
        let keep = if p.len() > 0 && p[p.len() - 1] == '\r' { p.len() - 1 } else { p.len() };
        let mut j: usize = 0;
        while j < keep
            invariant
                keep <= p@.len(),
                line@ == p@.take(j as int),
                j <= keep,
            decreases keep - j,
        {
            line.push(p[j]);
            j += 1;
            assert(line@ =~= p@.take(j as int));
        }
        assert(line@ =~= strip_cr(p@));
        lines.push(line);
        k += 1;
    }
    let last = &parts[n - 1];
    if last.len() > 0 {
        let mut copy: Vec<char> = Vec::new();
        let mut j: usize = 0;
        while j < last.len()
            invariant
                j <= last@.len(),
                copy@ == last@.take(j as int),
            decreases last@.len() - j,
        {
            copy.push(last[j]);
            j += 1;
            assert(copy@ =~= last@.take(j as int));
        }
        lines.push(copy);
    }
    proof {
        let ended = ps.take(n - 1).map_values(|p: Seq<char>| strip_cr(p));
        assert forall|j: int| 0 <= j < lines@.len() implies (#[trigger] lines@[j])@ == lines_spec(s@)[j] by {
            if j < n - 1 {
                assert(ended[j] == strip_cr(ps[j]));
            }
        }
    }
    lines
}

/// Whether a line of characters is a table line, and whether it is a separator.
pub(crate) fn classify_line(line: &Vec<char>) -> (r: (bool, bool))
    ensures
        r.0 == is_table_line(line@),
        r.1 == is_separator_line(line@),
{
    let t = trim_chars(line);
    let is_table = t.len() > 0 && t[0] == '|' && t[t.len() - 1] == '|';
    let dashes: Vec<char> = vec!['-', '-', '-'];
    assert(dashes@ =~= seq!['-', '-', '-']);
    let is_sep = contains(&t, &dashes);
    (is_table, is_sep)
}

/// A string holding the characters of `v`.
fn string_of_chars(v: &Vec<char>) -> (s: String)
    ensures
        s@ == v@,
{
    crate::text::string_of(v)
}

impl App {
    /// Sanitize table cell content to prevent markdown injection.
    pub fn sanitize_table_cell(value: &str) -> (s: String)
        ensures
            s@ == sanitize_spec(value@),
    {
        let v = chars_of(value);
        let mut s = String::new();
        let mut i: usize = 0;
        while i < v.len()
            invariant
                i <= v@.len(),
                v@ == value@,
                s@ == sanitize_spec(v@.take(i as int)),
            decreases v@.len() - i,
        {
            let c = v[i];
            assert(v@.take(i + 1).drop_last() =~= v@.take(i as int));
            if c == '|' {
                push_char(&mut s, '\\');
                push_char(&mut s, '|');
            } else if c == '\n' || c == '\r' {
                push_char(&mut s, ' ');
            } else {
                push_char(&mut s, c);
            }
            i += 1;
        }
        assert(v@.take(v@.len() as int) =~= v@);
        s
    }

    /// Replace a specific cell in a table row line (see [`replace_cell_spec`]).
    pub fn replace_cell_in_row(&self, line: &str, col: usize, new_value: &str) -> (s: String)
        ensures
            s@ == replace_cell_spec(line@, col as int, new_value@),
    {
        let v = chars_of(line);
        let mut parts = split_chars(&v, '|');
        let ghost ps = split_char(line@, '|');
        let n = parts.len();
        if col < n && col + 1 < n - 1 {
            let mut cell: Vec<char> = Vec::new();
            cell.push(' ');
            let nv = chars_of(new_value);
            let mut j: usize = 0;
            while j < nv.len()
                invariant
                    j <= nv@.len(),
                    cell@ == seq![' '] + nv@.take(j as int),
                decreases nv@.len() - j,
            {
                cell.push(nv[j]);
                j += 1;
                assert(cell@ =~= seq![' '] + nv@.take(j as int));
            }
            cell.push(' ');
            assert(cell@ =~= seq![' '] + new_value@ + seq![' ']);
            parts.set(col + 1, cell);
            let s = join_chars(&parts, '|');
            assert(parts@.map_values(|p: Vec<char>| p@) =~= ps.update(col + 1, seq![' '] + new_value@ + seq![' ']));
            s
        } else {
            proof {
                crate::text::lemma_join_split(line@, '|');
            }
            assert(parts@.map_values(|p: Vec<char>| p@) =~= ps);
            let s = join_chars(&parts, '|');
            s
        }
    }

    /// Find table `table_index` (0-indexed among the tables of the text) and
    /// replace cell `col` of its row `row` (0 is the header; separators do
    /// not count); the text comes back joined with `\n`.
    pub fn replace_table_cell_in_file(
        &self,
        content: &str,
        table_index: usize,
        row: usize,
        col: usize,
        new_value: &str,
    ) -> (r: Result<String, String>)
        ensures
            ({
                let st = scan_text(content@, table_index as int, row as int, col as int, new_value@);
                match r {
                    Ok(s) => st.modified && s@ == join_char(st.out, '\n'),
                    Err(e) => !st.modified && e@ == not_found_message(table_index as nat, row as nat),
                }
            }),
    {
        let lines = lines_of(content);
        let ghost ls = lines_spec(content@);
        let mut result: Vec<Vec<char>> = Vec::new();
        let mut in_table = false;
        let mut table_row_idx: usize = 0;
        let mut current_table_index: usize = 0;
        let mut modified = false;
        let mut i: usize = 0;
        while i < lines.len()
            invariant
                i <= lines@.len() == ls.len(),
                forall|k: int| 0 <= k < lines@.len() ==> (#[trigger] lines@[k])@ == ls[k],
                ({
                    let st = scan_lines(ls, i as int, table_index as int, row as int, col as int, new_value@);
                    &&& st.in_table == in_table
                    &&& st.row == table_row_idx
                    &&& st.table == current_table_index
                    &&& st.modified == modified
                    &&& result@.len() == st.out.len()
                    &&& forall|k: int| 0 <= k < result@.len() ==> (#[trigger] result@[k])@ == st.out[k]
                }),
            decreases lines@.len() - i,
        {
            proof {
                lemma_scan_bounds(ls, i as int, table_index as int, row as int, col as int, new_value@);
            }
            let ghost st0 = scan_lines(ls, i as int, table_index as int, row as int, col as int, new_value@);
            let line = &lines[i];
            let (is_table, is_sep) = classify_line(line);
            if is_table {
                if !in_table {
                    in_table = true;
                    table_row_idx = 0;
                }
                if is_sep {
                    result.push(copy_chars(line));
                } else if current_table_index == table_index && table_row_idx == row && !modified {
                    let text = string_of_chars(line);
                    let replaced = self.replace_cell_in_row(text.as_str(), col, new_value);
                    let rv = chars_of(replaced.as_str());
                    result.push(rv);
                    modified = true;
                    table_row_idx += 1;
                } else {
                    result.push(copy_chars(line));
                    table_row_idx += 1;
                }
            } else {
                if in_table {
                    in_table = false;
                    current_table_index += 1;
                }
                result.push(copy_chars(line));
            }
            i += 1;
            proof {
                let st = scan_lines(ls, i as int, table_index as int, row as int, col as int, new_value@);
                assert forall|k: int| 0 <= k < result@.len() implies (#[trigger] result@[k])@ == st.out[k] by {
                    if k < result@.len() - 1 {
                        assert(st.out[k] == st0.out[k]);
                    }
                }
            }
        }
        let ghost st = scan_lines(ls, ls.len() as int, table_index as int, row as int, col as int, new_value@);
        if modified {
            assert(result@.map_values(|p: Vec<char>| p@) =~= st.out);
            Ok(join_chars(&result, '\n'))
        } else {
            let mut e = string_from("Table ");
            let d1 = decimal_string(table_index as u64);
            push_str(&mut e, d1.as_str());
            push_str(&mut e, " not found or row ");
            let d2 = decimal_string(row as u64);
            push_str(&mut e, d2.as_str());
            push_str(&mut e, " not found");
            Err(e)
        }
    }
}

/// `s` when `n` is not 1 (for "N change(s)").
pub open spec fn plural(n: nat) -> Seq<char> {
    if n == 1 { seq![] } else { seq!['s'] }
}

/// The status after buffering a cell edit.
pub open spec fn cell_updated_message(n: nat) -> Seq<char> {
    "✓ Cell updated ("@ + decimal(n) + " unsaved change"@ + plural(n) + ")"@
}

/// The status after undoing an edit, with `n` edits left.
pub open spec fn undone_message(n: nat) -> Seq<char> {
    if n == 0 {
        "✓ Undone - no unsaved changes"@
    } else {
        "✓ Undone ("@ + decimal(n) + " unsaved change"@ + plural(n) + " remaining)"@
    }
}

/// The value of cell `(row, col)`: row 0 is the header; missing cells are empty.
pub open spec fn cell_value(headers: Seq<String>, rows: Seq<Vec<String>>, row: int, col: int) -> Seq<char> {
    if row == 0 {
        if 0 <= col < headers.len() { headers[col]@ } else { seq![] }
    } else if 0 <= row - 1 < rows.len() && 0 <= col < rows[row - 1]@.len() {
        rows[row - 1]@[col]@
    } else {
        seq![]
    }
}

/// Appends `"N unsaved change(s)"` to `s`.
fn push_change_count(s: &mut String, n: usize)
    ensures
        final(s)@ == old(s)@ + decimal(n as nat) + " unsaved change"@ + plural(n as nat),
{
    let d = decimal_string(n as u64);
    push_str(s, d.as_str());
    push_str(s, " unsaved change");
    if n != 1 {
        push_char(s, 's');
    }
    proof {
        reveal_strlit(" unsaved change");
    }
    assert(final(s)@ =~= old(s)@ + decimal(n as nat) + " unsaved change"@ + plural(n as nat));
}

impl App {
    /// Start editing the selected cell of the current table (its headers
    /// and rows given): the cell's value becomes the edited value and the
    /// value to undo to.
    pub fn enter_cell_edit_mode(&mut self, table: Option<(Vec<String>, Vec<Vec<String>>)>) -> (r: Result<(), String>)
        ensures
            match (table, old(self).interactive_state.table_cursor()) {
                (Some((headers, rows)), Some((row, col))) => {
                    &&& r is Ok
                    &&& final(self).edits.cell_edit_value@ == cell_value(headers@, rows@, row as int, col as int)
                    &&& final(self).edits.cell_edit_original_value@ == cell_value(headers@, rows@, row as int, col as int)
                    &&& final(self).edits.cell_edit_row == row
                    &&& final(self).edits.cell_edit_col == col
                    &&& final(self).mode == AppMode::CellEdit
                    &&& *final(self) == (App {
                        edits: Edits {
                            cell_edit_value: final(self).edits.cell_edit_value,
                            cell_edit_original_value: final(self).edits.cell_edit_original_value,
                            cell_edit_row: row,
                            cell_edit_col: col,
                            ..old(self).edits
                        },
                        mode: AppMode::CellEdit,
                        ..*old(self)
                    })
                },
                _ => r matches Err(e) && e@ == "No cell selected for editing"@ && *final(self) == *old(self),
            },
    {
        if let Some((headers, rows)) = table {
            if let Some((row, col)) = self.interactive_state.get_table_position() {
                let value = if row == 0 {
                    if col < headers.len() { string_from(headers[col].as_str()) } else { String::new() }
                } else if row - 1 < rows.len() && col < rows[row - 1].len() {
                    string_from(rows[row - 1][col].as_str())
                } else {
                    String::new()
                };
                self.edits.cell_edit_value = string_from(value.as_str());
                self.edits.cell_edit_original_value = value;
                self.edits.cell_edit_row = row;
                self.edits.cell_edit_col = col;
                self.mode = AppMode::CellEdit;
                return Ok(());
            }
        }
        Err(string_from("No cell selected for editing"))
    }

    /// Buffer the edited cell value in memory (not written to the file):
    /// the sanitized value replaces the cell of table `table_index` in the
    /// document text, and the edit is kept for undo. Nothing happens when
    /// the value did not change.
    pub fn save_edited_cell(&mut self, table_index: usize) -> (r: Result<(), String>)
        ensures
            ({
                let o = old(self);
                let v = sanitize_spec(o.edits.cell_edit_value@);
                if v == o.edits.cell_edit_original_value@ {
                    &&& r is Ok
                    &&& final(self).status_message matches Some(m) && m@ == "No changes made"@
                    &&& *final(self) == (App { status_message: final(self).status_message, ..*o })
                } else {
                    let st = scan_text(o.document.content@, table_index as int, o.edits.cell_edit_row as int, o.edits.cell_edit_col as int, v);
                    let e = final(self).edits;
                    &&& e.pending_edits@.len() == o.edits.pending_edits@.len() + 1
                    &&& e.pending_edits@.drop_last() == o.edits.pending_edits@
                    &&& e.pending_edits@.last().table_index == table_index
                    &&& e.pending_edits@.last().row == o.edits.cell_edit_row
                    &&& e.pending_edits@.last().col == o.edits.cell_edit_col
                    &&& e.pending_edits@.last().original_value@ == o.edits.cell_edit_original_value@
                    &&& e.pending_edits@.last().new_value@ == v
                    &&& e.has_unsaved_changes
                    &&& e == (Edits { pending_edits: e.pending_edits, has_unsaved_changes: true, ..o.edits })
                    &&& if st.modified {
                        &&& r is Ok
                        &&& final(self).document.content@ == join_char(st.out, '\n')
                        &&& final(self).document.headings == o.document.headings
                        &&& final(self).status_message matches Some(m) && m@ == cell_updated_message(e.pending_edits@.len())
                        &&& *final(self) == (App { edits: e, document: final(self).document, status_message: final(self).status_message, ..*o })
                    } else {
                        &&& r matches Err(msg) && msg@ == not_found_message(table_index as nat, o.edits.cell_edit_row as nat)
                        &&& *final(self) == (App { edits: e, ..*o })
                    }
                }
            }),
    {
        let sanitized = Self::sanitize_table_cell(self.edits.cell_edit_value.as_str());
        if sanitized == self.edits.cell_edit_original_value {
            self.status_message = Some(string_from("No changes made"));
            return Ok(());
        }
        let edit = PendingEdit {
            table_index,
            row: self.edits.cell_edit_row,
            col: self.edits.cell_edit_col,
            original_value: string_from(self.edits.cell_edit_original_value.as_str()),
            new_value: string_from(sanitized.as_str()),
        };
        self.edits.pending_edits.push(edit);
        self.edits.has_unsaved_changes = true;
        let new_content = self.replace_table_cell_in_file(
            self.document.content.as_str(),
            table_index,
            self.edits.cell_edit_row,
            self.edits.cell_edit_col,
            sanitized.as_str(),
        );
        match new_content {
            Ok(c) => {
                self.document.content = c;
                let mut msg = string_from("✓ Cell updated (");
                push_change_count(&mut msg, self.edits.pending_edits.len());
                push_str(&mut msg, ")");
                self.status_message = Some(msg);
                Ok(())
            },
            Err(e) => Err(e),
        }
    }

    /// Undo the last pending edit: its cell gets its original value back.
    pub fn undo_last_edit(&mut self) -> (r: Result<(), String>)
        ensures
            ({
                let o = old(self);
                let p = o.edits.pending_edits@;
                if p.len() == 0 {
                    &&& r is Ok
                    &&& final(self).status_message matches Some(m) && m@ == "Nothing to undo"@
                    &&& *final(self) == (App { status_message: final(self).status_message, ..*o })
                } else {
                    let edit = p.last();
                    let st = scan_text(o.document.content@, edit.table_index as int, edit.row as int, edit.col as int, edit.original_value@);
                    &&& final(self).edits.pending_edits@ == p.drop_last()
                    &&& if st.modified {
                        &&& r is Ok
                        &&& final(self).document.content@ == join_char(st.out, '\n')
                        &&& final(self).document.headings == o.document.headings
                        &&& final(self).edits == (Edits {
                            pending_edits: final(self).edits.pending_edits,
                            has_unsaved_changes: p.len() > 1,
                            ..o.edits
                        })
                        &&& final(self).status_message matches Some(m) && m@ == undone_message((p.len() - 1) as nat)
                        &&& *final(self) == (App {
                            edits: final(self).edits,
                            document: final(self).document,
                            status_message: final(self).status_message,
                            ..*o
                        })
                    } else {
                        &&& r matches Err(msg) && msg@ == not_found_message(edit.table_index as nat, edit.row as nat)
                        &&& *final(self) == (App {
                            edits: Edits { pending_edits: final(self).edits.pending_edits, ..o.edits },
                            ..*o
                        })
                    }
                }
            }),
    {
        if self.edits.pending_edits.len() == 0 {
            self.status_message = Some(string_from("Nothing to undo"));
            return Ok(());
        }
        match self.edits.pending_edits.pop() {
            Some(edit) => {
                let new_content = self.replace_table_cell_in_file(
                    self.document.content.as_str(),
                    edit.table_index,
                    edit.row,
                    edit.col,
                    edit.original_value.as_str(),
                );
                match new_content {
                    Ok(c) => {
                        self.document.content = c;
                        self.edits.has_unsaved_changes = self.edits.pending_edits.len() > 0;
                        if self.edits.pending_edits.len() == 0 {
                            self.status_message = Some(string_from("✓ Undone - no unsaved changes"));
                        } else {
                            let mut msg = string_from("✓ Undone (");
                            push_change_count(&mut msg, self.edits.pending_edits.len());
                            push_str(&mut msg, " remaining)");
                            self.status_message = Some(msg);
                        }
                        Ok(())
                    },
                    Err(e) => Err(e),
                }
            },
            None => {
                self.status_message = Some(string_from("Nothing to undo"));
                Ok(())
            },
        }
    }
}

/// The table as markdown: the header row, a `---` separator per column and
/// the data rows, each `| a | b |` and ending in a newline.
pub open spec fn table_markdown_spec(headers: Seq<Seq<char>>, rows: Seq<Seq<Seq<char>>>) -> Seq<char> {
    markdown_row(headers)
        + markdown_row(Seq::new(headers.len(), |_i: int| seq!['-', '-', '-']))
        + markdown_rows(rows, rows.len() as int)
}

/// One row: `| ` + cells joined with ` | ` + ` |\n`.
pub open spec fn markdown_row(cells: Seq<Seq<char>>) -> Seq<char> {
    seq!['|', ' '] + join_cells(cells, cells.len() as int) + seq![' ', '|', '\n']
}

/// The first `n` cells joined with ` | `.
pub open spec fn join_cells(cells: Seq<Seq<char>>, n: int) -> Seq<char>
    decreases n,
{
    if n <= 0 || n > cells.len() {
        seq![]
    } else if n == 1 {
        cells[0]
    } else {
        join_cells(cells, n - 1) + seq![' ', '|', ' '] + cells[n - 1]
    }
}

/// The first `n` rows.
pub open spec fn markdown_rows(rows: Seq<Seq<Seq<char>>>, n: int) -> Seq<char>
    decreases n,
{
    if n <= 0 || n > rows.len() {
        seq![]
    } else {
        markdown_rows(rows, n - 1) + markdown_row(rows[n - 1])
    }
}

/// Appends one markdown row of `cells`.
fn push_markdown_row(s: &mut String, cells: &Vec<String>)
    ensures
        final(s)@ == old(s)@ + markdown_row(cells@.map_values(|c: String| c@)),
{
    let ghost cs = cells@.map_values(|c: String| c@);
    push_str(s, "| ");
    proof { reveal_strlit("| "); }
    let ghost base = s@;
    let mut i: usize = 0;
    while i < cells.len()
        invariant
            i <= cells@.len(),
            cs == cells@.map_values(|c: String| c@),
            s@ == base + join_cells(cs, i as int),
        decreases cells@.len() - i,
    {
        if i > 0 {
            push_str(s, " | ");
            proof { reveal_strlit(" | "); }
        }
        push_str(s, cells[i].as_str());
        i += 1;
    }
    push_str(s, " |\n");
    proof { reveal_strlit(" |\n"); }
    assert(final(s)@ =~= old(s)@ + markdown_row(cs));
}

/// The current table as markdown (see [`table_markdown_spec`]).
pub fn table_markdown(headers: &Vec<String>, rows: &Vec<Vec<String>>) -> (s: String)
    ensures
        s@ == table_markdown_spec(
            headers@.map_values(|c: String| c@),
            rows@.map_values(|r: Vec<String>| r@.map_values(|c: String| c@)),
        ),
{
    let ghost hs = headers@.map_values(|c: String| c@);
    let ghost rs = rows@.map_values(|r: Vec<String>| r@.map_values(|c: String| c@));
    let mut s = String::new();
    push_markdown_row(&mut s, headers);
    let mut seps: Vec<String> = Vec::new();
    let mut k: usize = 0;
    while k < headers.len()
        invariant
            k <= headers@.len(),
            seps@.len() == k,
            forall|j: int| 0 <= j < k ==> (#[trigger] seps@[j])@ == seq!['-', '-', '-'],
        decreases headers@.len() - k,
    {
        seps.push(string_from("---"));
        proof { reveal_strlit("---"); }
        k += 1;
    }
    assert(seps@.map_values(|c: String| c@) =~= Seq::new(hs.len(), |_i: int| seq!['-', '-', '-']));
    push_markdown_row(&mut s, &seps);
    let ghost head = s@;
    let mut i: usize = 0;
    while i < rows.len()
        invariant
            i <= rows@.len(),
            rs == rows@.map_values(|r: Vec<String>| r@.map_values(|c: String| c@)),
            s@ == head + markdown_rows(rs, i as int),
        decreases rows@.len() - i,
    {
        push_markdown_row(&mut s, &rows[i]);
        i += 1;
    }
    s
}

} // verus!
