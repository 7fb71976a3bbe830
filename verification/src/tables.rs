//! The table selected in interactive mode: its data, its place among the
//! tables of the file, and copying its cells.

use vstd::prelude::*;
use crate::app::{App, displayed_spec, string_from};
use crate::blocks::Block;
use crate::content::ClipboardError;
use crate::edits::{classify_line, is_table_line, lines_of, table_markdown, table_markdown_spec};
use crate::interactive::{ElementType, InteractiveState};
use crate::text::{chars_of, find_from, find_from_spec, join_char, lemma_find_from_found, lines_spec, push_str};

verus! {

broadcast use vstd::string::group_string_axioms;

/// The block index of the selected element, when it is a table.
pub open spec fn selected_table_block(st: InteractiveState) -> Option<usize> {
    match st.current_index {
        Some(i) => if i < st.elements@.len() {
            match st.elements@[i as int].element_type {
                ElementType::Table { block_idx, .. } => Some(block_idx),
                _ => None,
            }
        } else {
            None
        },
        None => None,
    }
}

/// Headers and rows of the selected table in the parsed section `blocks`.
pub open spec fn table_data_spec(st: InteractiveState, blocks: Seq<Block>) -> Option<(Seq<String>, Seq<Vec<String>>)> {
    match selected_table_block(st) {
        Some(b) => if b < blocks.len() {
            match blocks[b as int] {
                Block::Table { headers, rows, .. } => Some((headers@, rows@)),
                _ => None,
            }
        } else {
            None
        },
        None => None,
    }
}

/// The number of table blocks among the first `n` blocks.
pub open spec fn tables_before(blocks: Seq<Block>, n: int) -> nat
    decreases n,
{
    if n <= 0 || n > blocks.len() {
        0
    } else {
        tables_before(blocks, n - 1) + if blocks[n - 1] is Table { 1nat } else { 0nat }
    }
}

/// The number of tables (runs of table lines) among the first `n` lines,
/// and whether line `n - 1` is a table line.
pub open spec fn table_runs(lines: Seq<Seq<char>>, n: int) -> (nat, bool)
    decreases n,
{
    if n <= 0 || n > lines.len() {
        (0, false)
    } else {
        let (count, in_table) = table_runs(lines, n - 1);
        if is_table_line(lines[n - 1]) {
            (if in_table { count } else { count + 1 }, true)
        } else {
            (count, false)
        }
    }
}

/// The text before the displayed section in the document (nothing when the
/// section is not found in it).
pub open spec fn text_before_section(app: App) -> Seq<char> {
    match find_from_spec(app.document.content@, displayed_spec(app), 0) {
        Some(i) => app.document.content@.take(i),
        None => seq![],
    }
}

/// The index among the file's tables of the selected table: the tables in
/// the text before the section, plus the table blocks before it in the
/// section.
pub open spec fn table_index_spec(app: App, blocks: Seq<Block>) -> Option<nat> {
    match selected_table_block(app.interactive_state) {
        Some(b) => if b < blocks.len() && blocks[b as int] is Table {
            let ls = lines_spec(text_before_section(app));
            Some(table_runs(ls, ls.len() as int).0 + tables_before(blocks, b as int))
        } else {
            None
        },
        None => None,
    }
}

/// A copy of a list of strings.
fn copy_strings(v: &Vec<String>) -> (c: Vec<String>)
    ensures
        c@ == v@,
{
    let mut c: Vec<String> = Vec::new();
    let mut i: usize = 0;
    while i < v.len()
        invariant
            i <= v@.len(),
            c@ == v@.take(i as int),
        decreases v@.len() - i,
    {
        c.push(v[i].clone());
        i += 1;
        assert(c@ =~= v@.take(i as int));
    }
    assert(v@.take(v@.len() as int) =~= v@);
    c
}

/// A copy of table rows, each row copied.
fn copy_rows(rows: &Vec<Vec<String>>) -> (c: Vec<Vec<String>>)
    ensures
        c@.len() == rows@.len(),
        forall|i: int| 0 <= i < rows@.len() ==> (#[trigger] c@[i])@ == rows@[i]@,
{
    let mut c: Vec<Vec<String>> = Vec::new();
    let mut i: usize = 0;
    while i < rows.len()
        invariant
            i <= rows@.len(),
            c@.len() == i,
            forall|k: int| 0 <= k < i ==> (#[trigger] c@[k])@ == rows@[k]@,
        decreases rows@.len() - i,
    {
        c.push(copy_strings(&rows[i]));
        i += 1;
    }
    c
}

impl App {
    /// Headers and rows of the selected table in `blocks` (the parsed
    /// displayed section), when a table element is selected.
    pub fn current_table_data(&self, blocks: &[Block]) -> (r: Option<(Vec<String>, Vec<Vec<String>>)>)
        ensures
            match table_data_spec(self.interactive_state, blocks@) {
                Some((h, rs)) => r matches Some((h2, rs2)) && h2@ == h && rs2@.len() == rs.len()
                    && forall|i: int| 0 <= i < rs.len() ==> (#[trigger] rs2@[i])@ == rs[i]@,
                None => r is None,
            },
    {
        let idx = match self.interactive_state.current_index {
            Some(i) => i,
            None => return None,
        };
        if idx >= self.interactive_state.elements.len() {
            return None;
        }
        let b = match &self.interactive_state.elements[idx].element_type {
            ElementType::Table { block_idx, .. } => *block_idx,
            _ => return None,
        };
        if b >= blocks.len() {
            return None;
        }
        match &blocks[b] {
            Block::Table { headers, rows, .. } => Some((copy_strings(headers), copy_rows(rows))),
            _ => None,
        }
    }

    /// The index among the file's tables of the selected table (see
    /// [`table_index_spec`]), or `Could not locate table`.
    pub fn calculate_current_table_index(&self, blocks: &[Block]) -> (r: Result<usize, String>)
        requires
            table_index_spec(*self, blocks@) matches Some(n) ==> n <= usize::MAX,
        ensures
            match table_index_spec(*self, blocks@) {
                Some(n) => r == Ok::<usize, String>(n as usize),
                None => r matches Err(e) && e@ == "Could not locate table"@,
            },
    {
        proof { reveal_strlit("Could not locate table"); }
        let b = match self.interactive_state.current_index {
            Some(i) => if i < self.interactive_state.elements.len() {
                match &self.interactive_state.elements[i].element_type {
                    ElementType::Table { block_idx, .. } => *block_idx,
                    _ => return Err(string_from("Could not locate table")),
                }
            } else {
                return Err(string_from("Could not locate table"));
            },
            None => return Err(string_from("Could not locate table")),
        };
        if b >= blocks.len() {
            return Err(string_from("Could not locate table"));
        }
        match &blocks[b] {
            Block::Table { .. } => {},
            _ => return Err(string_from("Could not locate table")),
        }
        let mut in_section: usize = 0;
        let mut k: usize = 0;
        while k < b
            invariant
                b < blocks@.len(),
                k <= b,
                in_section == tables_before(blocks@, k as int),
                in_section <= k,
            decreases b - k,
        {
            match &blocks[k] {
                Block::Table { .. } => {
                    in_section += 1;
                },
                _ => {},
            }
            k += 1;
        }
        let section = self.displayed_content();
        let content = chars_of(self.document.content.as_str());
        let sv = chars_of(section.as_str());
        let before_len = match find_from(&content, &sv, 0) {
            Some(i) => {
                proof { lemma_find_from_found(content@, sv@, 0, i as int); }
                i
            },
            None => 0,
        };
        let mut before = String::new();
        crate::text::push_range(&mut before, &content, 0, before_len);
        assert(before@ =~= text_before_section(*self));
        let lines = lines_of(before.as_str());
        let ghost ls = lines_spec(before@);
        let mut count: usize = 0;
        let mut in_table = false;
        let mut j: usize = 0;
        while j < lines.len()
            invariant
                j <= lines@.len() == ls.len(),
                forall|m: int| 0 <= m < lines@.len() ==> (#[trigger] lines@[m])@ == ls[m],
                (count as nat, in_table) == table_runs(ls, j as int),
                count <= j,
            decreases lines@.len() - j,
        {
            let (is_table, _) = classify_line(&lines[j]);
            if is_table {
                if !in_table {
                    in_table = true;
                    count += 1;
                }
            } else {
                in_table = false;
            }
            j += 1;
        }
        assert(table_index_spec(*self, blocks@) == Some((count + in_section) as nat));
        Ok(count + in_section)
    }

    /// Start copying the selected table cell: its text for the driver to
    /// put on the clipboard (then [`App::finish_copy_cell`]), or the error
    /// `No cell selected`.
    pub fn copy_table_cell(&self, blocks: &[Block]) -> (r: Result<String, String>)
        ensures
            match table_data_spec(self.interactive_state, blocks@) {
                Some((h, rs)) => match self.interactive_state.table_cursor() {
                    Some((row, col)) => match crate::interactive::table_cell_spec(h, rs, row, col) {
                        Some(c) => r matches Ok(s) && s@ == c,
                        None => r matches Err(e) && e@ == "No cell selected"@,
                    },
                    None => r matches Err(e) && e@ == "No cell selected"@,
                },
                None => r matches Err(e) && e@ == "No cell selected"@,
            },
    {
        proof { reveal_strlit("No cell selected"); }
        if let Some((headers, rows)) = self.current_table_data(blocks) {
            if let Some(cell) = self.interactive_state.get_table_cell(headers.as_slice(), rows.as_slice()) {
                return Ok(cell);
            }
        }
        Err(string_from("No cell selected"))
    }
}

/// Strings joined with a tab between them.
fn join_tabs(v: &Vec<String>) -> (s: String)
    ensures
        s@ == join_char(v@.map_values(|c: String| c@), '\t'),
{
    let ghost vs = v@.map_values(|c: String| c@);
    let mut s = String::new();
    let mut i: usize = 0;
    while i < v.len()
        invariant
            i <= v@.len(),
            vs == v@.map_values(|c: String| c@),
            s@ == join_char(vs.take(i as int), '\t'),
        decreases v@.len() - i,
    {
        if i > 0 {
            crate::text::push_char(&mut s, '\t');
        }
        push_str(&mut s, v[i].as_str());
        proof {
            assert(vs.take(i + 1).drop_last() =~= vs.take(i as int));
            assert(vs.take(i + 1).last() == vs[i as int]);
            if i == 0 {
                assert(vs.take(1) =~= seq![vs[0]]);
            }
        }
        i += 1;
    }
    assert(vs.take(v@.len() as int) =~= vs);
    s
}

/// What of a table was copied.
#[derive(Debug, Clone, PartialEq, Eq)]
pub enum TableCopy {
    /// The selected cell, with its text.
    Cell(String),
    /// The selected row.
    Row,
    /// The whole table as markdown.
    Table,
}

impl App {
    /// Start copying the selected table row: its cells joined by tabs, for
    /// the driver to put on the clipboard, or the error `No row selected`.
    pub fn copy_table_row(&self, blocks: &[Block]) -> (r: Result<String, String>)
        ensures
            match table_data_spec(self.interactive_state, blocks@) {
                Some((h, rs)) => match self.interactive_state.table_cursor() {
                    Some((row, _)) => match crate::interactive::table_row_spec(h, rs, row) {
                        Some(cells) => r matches Ok(s) && s@ == join_char(cells, '\t'),
                        None => r matches Err(e) && e@ == "No row selected"@,
                    },
                    None => r matches Err(e) && e@ == "No row selected"@,
                },
                None => r matches Err(e) && e@ == "No row selected"@,
            },
    {
        proof { reveal_strlit("No row selected"); }
        if let Some((headers, rows)) = self.current_table_data(blocks) {
            if let Some(row) = self.interactive_state.get_table_row(headers.as_slice(), rows.as_slice()) {
                return Ok(join_tabs(&row));
            }
        }
        Err(string_from("No row selected"))
    }

    /// Start copying the selected table as markdown (see
    /// [`crate::edits::table_markdown_spec`]), or the error `No table data available`.
    pub fn copy_table_markdown(&self, blocks: &[Block]) -> (r: Result<String, String>)
        ensures
            match table_data_spec(self.interactive_state, blocks@) {
                Some((h, rs)) => r matches Ok(s) && s@ == table_markdown_spec(
                    h.map_values(|c: String| c@),
                    rs.map_values(|row: Vec<String>| row@.map_values(|c: String| c@)),
                ),
                None => r matches Err(e) && e@ == "No table data available"@,
            },
    {
        proof { reveal_strlit("No table data available"); }
        match self.current_table_data(blocks) {
            Some((headers, rows)) => {
                let s = table_markdown(&headers, &rows);
                proof {
                    let data = table_data_spec(self.interactive_state, blocks@)->0;
                    let rs = data.1;
                    assert(rows@.map_values(|row: Vec<String>| row@.map_values(|c: String| c@))
                        =~= rs.map_values(|row: Vec<String>| row@.map_values(|c: String| c@)));
                }
                Ok(s)
            },
            None => Err(string_from("No table data available")),
        }
    }

    /// Report on copying part of a table: `✓ Cell copied: <text>`,
    /// `✓ Row copied (tab-separated)` or `✓ Table copied as markdown`; a
    /// clipboard failure is the error `Clipboard not available` or
    /// `Clipboard error: <error>`.
    pub fn finish_copy_table(&mut self, what: TableCopy, copied: Result<(), ClipboardError>) -> (r: Result<(), String>)
        ensures
            match copied {
                Ok(()) => {
                    &&& r is Ok
                    &&& final(self).status_message matches Some(m) && m@ == match what {
                        TableCopy::Cell(c) => "✓ Cell copied: "@ + c@,
                        TableCopy::Row => "✓ Row copied (tab-separated)"@,
                        TableCopy::Table => "✓ Table copied as markdown"@,
                    }
                    &&& *final(self) == (App { status_message: final(self).status_message, ..*old(self) })
                },
                Err(ClipboardError::Unavailable) => r matches Err(e) && e@ == "Clipboard not available"@ && *final(self) == *old(self),
                Err(ClipboardError::Failed(m)) => r matches Err(e) && e@ == "Clipboard error: "@ + m@ && *final(self) == *old(self),
            },
    {
        proof {
            reveal_strlit("✓ Cell copied: ");
            reveal_strlit("✓ Row copied (tab-separated)");
            reveal_strlit("✓ Table copied as markdown");
            reveal_strlit("Clipboard not available");
            reveal_strlit("Clipboard error: ");
        }
        match copied {
            Ok(()) => {
                let m = match what {
                    TableCopy::Cell(c) => {
                        let mut m = string_from("✓ Cell copied: ");
                        push_str(&mut m, c.as_str());
                        m
                    },
                    TableCopy::Row => string_from("✓ Row copied (tab-separated)"),
                    TableCopy::Table => string_from("✓ Table copied as markdown"),
                };
                self.status_message = Some(m);
                Ok(())
            },
            Err(ClipboardError::Unavailable) => Err(string_from("Clipboard not available")),
            Err(ClipboardError::Failed(m)) => {
                let mut e = string_from("Clipboard error: ");
                push_str(&mut e, m.as_str());
                Err(e)
            },
        }
    }
}

} // verus!
