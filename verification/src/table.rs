//! Table layout: content-weighted column widths, border lines and the
//! aligned text of each cell of a row.

use vstd::prelude::*;
use crate::blocks::Alignment;
use crate::text::{push_char, push_repeat, repeat_char};
use crate::util::{align_spec, align_text};
use crate::width::{str_width, text_width};

verus! {

broadcast use vstd::string::group_string_axioms;

/// Minimum column width (including padding) to maintain readability.
pub const MIN_COL_WIDTH: usize = 3;

/// Width of cell `i` of `row`, or nothing when the row is shorter.
pub open spec fn cell_width(row: Vec<String>, i: int) -> Option<int> {
    if 0 <= i < row@.len() { Some(str_width(row@[i]@) as int) } else { None }
}

/// Sum of the widths of column `i` over the first `n` rows.
pub open spec fn col_sum(rows: Seq<Vec<String>>, i: int, n: int) -> int
    decreases n,
{
    if n <= 0 || n > rows.len() {
        0
    } else {
        col_sum(rows, i, n - 1) + match cell_width(rows[n - 1], i) {
            Some(w) => w,
            None => 0,
        }
    }
}

/// Number of the first `n` rows that have a cell in column `i`.
pub open spec fn col_count(rows: Seq<Vec<String>>, i: int, n: int) -> int
    decreases n,
{
    if n <= 0 || n > rows.len() {
        0
    } else {
        col_count(rows, i, n - 1) + if cell_width(rows[n - 1], i) is Some { 1int } else { 0int }
    }
}

/// Largest width in column `i` over the first `n` rows (0 when none).
pub open spec fn col_max(rows: Seq<Vec<String>>, i: int, n: int) -> int
    decreases n,
{
    if n <= 0 || n > rows.len() {
        0
    } else {
        let m = col_max(rows, i, n - 1);
        match cell_width(rows[n - 1], i) {
            Some(w) => if w > m { w } else { m },
            None => m,
        }
    }
}

/// Width of column `i`: 70% of the average cell width plus 30% of the widest
/// cell (integer division), but at least the header width and at least 1.
/// Without data rows it is the header width (at least 1).
pub open spec fn column_width_spec(headers: Seq<String>, rows: Seq<Vec<String>>, i: int) -> int {
    let hw = str_width(headers[i]@) as int;
    if rows.len() == 0 {
        if hw > 1 { hw } else { 1 }
    } else {
        let n = rows.len() as int;
        let c = col_count(rows, i, n);
        let blended = if c > 0 { ((col_sum(rows, i, n) / c) * 7 + col_max(rows, i, n) * 3) / 10 } else { 0 };
        let w = if blended > hw { blended } else { hw };
        if w > 1 { w } else { 1 }
    }
}

/// The column sums and blends of [`column_width_spec`] stay within `usize`.
pub open spec fn widths_fit(headers: Seq<String>, rows: Seq<Vec<String>>) -> bool {
    forall|i: int| #![trigger col_sum(rows, i, rows.len() as int)] 0 <= i < headers.len() ==> {
        &&& col_sum(rows, i, rows.len() as int) <= usize::MAX
        &&& col_count(rows, i, rows.len() as int) > 0 ==> (col_sum(rows, i, rows.len() as int) / col_count(rows, i, rows.len() as int)) * 7
            + col_max(rows, i, rows.len() as int) * 3 <= usize::MAX
    }
}

proof fn lemma_col_bounds(rows: Seq<Vec<String>>, i: int, n: int)
    requires
        0 <= n <= rows.len(),
    ensures
        0 <= col_count(rows, i, n) <= n,
        0 <= col_max(rows, i, n) <= col_sum(rows, i, n),
    decreases n,
{
    if n > 0 {
        lemma_col_bounds(rows, i, n - 1);
    }
}

proof fn lemma_col_sum_mono(rows: Seq<Vec<String>>, i: int, m: int, n: int)
    requires
        0 <= m <= n <= rows.len(),
    ensures
        col_sum(rows, i, m) <= col_sum(rows, i, n),
    decreases n - m,
{
    if m < n {
        lemma_col_sum_mono(rows, i, m, n - 1);
    }
}

/// Width of one column (see [`column_width_spec`]).
fn column_width(headers: &[String], rows: &[Vec<String>], i: usize) -> (w: usize)
    requires
        i < headers@.len(),
        widths_fit(headers@, rows@),
    ensures
        w == column_width_spec(headers@, rows@, i as int),
{
    let hw = text_width(headers[i].as_str());
    if rows.len() == 0 {
        return if hw > 1 { hw } else { 1 };
    }
    let mut total_width: usize = 0;
    let mut cell_count: usize = 0;
    let mut max_width: usize = 0;
    let mut r: usize = 0;
    let ghost n = rows@.len() as int;
    assert(col_sum(rows@, i as int, n) <= usize::MAX);
    while r < rows.len()
        invariant
            r <= rows.len(),
            n == rows@.len(),
            i < headers@.len(),
            col_sum(rows@, i as int, n) <= usize::MAX,
            total_width == col_sum(rows@, i as int, r as int),
            cell_count == col_count(rows@, i as int, r as int),
            max_width == col_max(rows@, i as int, r as int),
        decreases rows.len() - r,
    {
        proof {
            lemma_col_sum_mono(rows@, i as int, r + 1, n);
            lemma_col_bounds(rows@, i as int, r + 1);
        }
        let row = &rows[r];
        if i < row.len() {
            let cw = text_width(row[i].as_str());
            total_width = total_width + cw;
            cell_count = cell_count + 1;
            if cw > max_width {
                max_width = cw;
            }
        }
        r += 1;
    }
    proof { lemma_col_bounds(rows@, i as int, n); }
    let blended = if cell_count > 0 {
        let avg_width = total_width / cell_count;
        (avg_width * 7 + max_width * 3) / 10
    } else {
        0
    };
    let w = if blended > hw { blended } else { hw };
    if w > 1 { w } else { 1 }
}

/// Calculate column widths using a content-weighted approach: a blend of the
/// average and the widest cell of each column, so that one outlier does not
/// dominate while content still fits.
pub fn calculate_column_widths(headers: &[String], rows: &[Vec<String>]) -> (widths: Vec<usize>)
    requires
        widths_fit(headers@, rows@),
    ensures
        widths@.len() == headers@.len(),
        forall|i: int| 0 <= i < headers@.len() ==> widths@[i] == column_width_spec(headers@, rows@, i),
{
    let mut widths: Vec<usize> = Vec::new();
    let mut i: usize = 0;
    while i < headers.len()
        invariant
            i <= headers.len(),
            widths_fit(headers@, rows@),
            widths@.len() == i,
            forall|k: int| 0 <= k < i ==> widths@[k] == column_width_spec(headers@, rows@, k),
        decreases headers.len() - i,
    {
        let w = column_width(headers, rows, i);
        widths.push(w);
        i += 1;
    }
    widths
}

// ---------------------------------------------------------------------------
// Borders and rows
// ---------------------------------------------------------------------------

/// A horizontal border: `left`, then each column's width of `─` separated by
/// `mid`, then `right` (`┌─┬─┐`, `├─┼─┤`, `└─┴─┘`).
pub open spec fn border_spec(widths: Seq<usize>, left: char, mid: char, right: char) -> Seq<char> {
    seq![left] + border_inner(widths, mid, widths.len() as int) + seq![right]
}

/// The first `n` column runs of a border, separated by `mid`.
pub open spec fn border_inner(widths: Seq<usize>, mid: char, n: int) -> Seq<char>
    decreases n,
{
    if n <= 0 || n > widths.len() {
        seq![]
    } else if n == 1 {
        repeat_char('─', widths[0] as nat)
    } else {
        border_inner(widths, mid, n - 1) + seq![mid] + repeat_char('─', widths[n - 1] as nat)
    }
}

/// Builds a border line (see [`border_spec`]).
pub fn table_border(widths: &[usize], left: char, mid: char, right: char) -> (s: String)
    ensures
        s@ == border_spec(widths@, left, mid, right),
{
    let mut s = String::new();
    push_char(&mut s, left);
    let mut i: usize = 0;
    while i < widths.len()
        invariant
            i <= widths.len(),
            s@ == seq![left] + border_inner(widths@, mid, i as int),
        decreases widths.len() - i,
    {
        if i > 0 {
            push_char(&mut s, mid);
        }
        push_repeat(&mut s, '─', widths[i]);
        i += 1;
        assert(s@ =~= seq![left] + border_inner(widths@, mid, i as int));
    }
    push_char(&mut s, right);
    s
}

/// Width used for cell `i`: its column width, or 10 when there is none.
pub open spec fn cell_column_width(widths: Seq<usize>, i: int) -> usize {
    if 0 <= i < widths.len() { widths[i] } else { 10 }
}

/// Alignment used for cell `i`: its column alignment, or left.
pub open spec fn cell_alignment(alignments: Seq<Alignment>, i: int) -> Alignment {
    if 0 <= i < alignments.len() { alignments[i] } else { Alignment::Left }
}

/// The aligned text of every cell of a row.
pub fn table_row_cells(cells: &[String], col_widths: &[usize], alignments: &[Alignment]) -> (texts: Vec<String>)
    ensures
        texts@.len() == cells@.len(),
        forall|i: int| 0 <= i < cells@.len() ==> (#[trigger] texts@[i])@ == align_spec(
            cells@[i]@,
            cell_column_width(col_widths@, i),
            cell_alignment(alignments@, i),
        ),
{
    let mut texts: Vec<String> = Vec::new();
    let mut i: usize = 0;
    while i < cells.len()
        invariant
            i <= cells.len(),
            texts@.len() == i,
            forall|k: int| 0 <= k < i ==> (#[trigger] texts@[k])@ == align_spec(
                cells@[k]@,
                cell_column_width(col_widths@, k),
                cell_alignment(alignments@, k),
            ),
        decreases cells.len() - i,
    {
        let width = if i < col_widths.len() { col_widths[i] } else { 10 };
        let alignment = if i < alignments.len() { alignments[i] } else { Alignment::Left };
        texts.push(align_text(cells[i].as_str(), width, &alignment));
        i += 1;
    }
    texts
}

/// Whether cell `col` of row `row_num` is the selected cell.
pub fn is_selected_cell(selected_cell: Option<(usize, usize)>, row_num: usize, col: usize) -> (b: bool)
    ensures
        b == (selected_cell == Some((row_num, col))),
{
    match selected_cell {
        Some((r, c)) => r == row_num && c == col,
        None => false,
    }
}

/// What a table row needs to know about its place when drawn; `theme`
/// is the colour theme the view styles it with.
pub struct TableRenderContext<'a, T> {
    pub theme: &'a T,
    pub row_num: usize,
    pub is_header: bool,
    pub in_table_mode: bool,
    pub is_table_selected: bool,
    pub selected_cell: Option<(usize, usize)>,
}

/// The marker drawn before a row's left border.
#[derive(Debug, Clone, Copy, PartialEq, Eq, Structural)]
pub enum RowMarker {
    /// No marker: the table is neither selected nor navigated.
    NoMarker,
    /// Two spaces, keeping the row aligned with marked rows.
    Gap,
    /// `→ `: the selected row while navigating the table.
    Arrow,
}

impl<'a, T> TableRenderContext<'a, T> {
    /// The marker before the row: in table mode an arrow on the selected
    /// row and a gap on the others; a gap on every row of a selected table.
    pub fn row_marker(&self) -> (m: RowMarker)
        ensures
            m == (if self.in_table_mode {
                if self.selected_cell matches Some((r, _)) && r == self.row_num { RowMarker::Arrow } else { RowMarker::Gap }
            } else if self.is_table_selected {
                RowMarker::Gap
            } else {
                RowMarker::NoMarker
            }),
    {
        if self.in_table_mode {
            match self.selected_cell {
                Some((r, _)) => if r == self.row_num { RowMarker::Arrow } else { RowMarker::Gap },
                None => RowMarker::Gap,
            }
        } else if self.is_table_selected {
            RowMarker::Gap
        } else {
            RowMarker::NoMarker
        }
    }

    /// Whether cell `col` of this row is the selected cell.
    pub fn is_cell_selected(&self, col: usize) -> (b: bool)
        ensures
            b == (self.selected_cell == Some((self.row_num, col))),
    {
        is_selected_cell(self.selected_cell, self.row_num, col)
    }
}

} // verus!
