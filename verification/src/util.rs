//! Text utilities for rendering: task-list checkbox detection, aligning
//! cell text to a column width, and the content filters (frontmatter and
//! LaTeX removal).

use vstd::prelude::*;
use crate::blocks::Alignment;
use vstd::string::StringSliceAdditionalSpecFns;
use crate::text::{
    chars_of, find_from, find_from_spec, has_prefix, is_ws, lemma_find_from_found, matches_at,
    occurs_at, push_char, push_range, push_repeat, repeat_char, skip_ws, skip_ws_from, string_of,
    trim_start_spec,
};
use vstd::utf8::{
    encode_utf8_valid_utf8, is_char_boundary, is_char_boundary_iff_not_is_continuation_byte,
    is_char_boundary_start_end_of_seq, valid_utf8,
};
use crate::width::{char_display_width, char_width, str_width, text_width};

verus! {

broadcast use vstd::string::group_string_axioms;

// ---------------------------------------------------------------------------
// Checkbox detection
// ---------------------------------------------------------------------------

/// What [`detect_checkbox_in_text`] returns: `(is_task, is_checked, rest)`.
/// A task starts (after leading whitespace) with `[x]`, `[X]` or `[ ]`; the
/// rest is what follows the marker, without leading whitespace. Other text
/// is returned unchanged.
pub open spec fn checkbox_spec(s: Seq<char>) -> (bool, bool, Seq<char>) {
    let t = trim_start_spec(s);
    if has_prefix(t, "[x]"@) || has_prefix(t, "[X]"@) {
        (true, true, trim_start_spec(t.skip(3)))
    } else if has_prefix(t, "[ ]"@) {
        (true, false, trim_start_spec(t.skip(3)))
    } else {
        (false, false, s)
    }
}

proof fn lemma_skip_ws_shift(s: Seq<char>, a: int, b: int)
    requires
        0 <= a <= s.len(),
        0 <= b <= s.len() - a,
    ensures
        skip_ws_from(s.skip(a), b) + a == skip_ws_from(s, a + b),
    decreases s.len() - a - b,
{
    if b < s.len() - a && is_ws(s[a + b]) {
        assert(s.skip(a)[b] == s[a + b]);
        lemma_skip_ws_shift(s, a, b + 1);
    } else if b < s.len() - a {
        assert(s.skip(a)[b] == s[a + b]);
    }
}

proof fn lemma_prefix_at(s: Seq<char>, i: int, p: Seq<char>)
    requires
        0 <= i <= s.len(),
    ensures
        has_prefix(s.skip(i), p) == occurs_at(s, p, i),
{
    if i + p.len() <= s.len() {
        assert(s.skip(i).subrange(0, p.len() as int) =~= s.subrange(i, i + p.len()));
    }
}

/// Detect checkbox markers in text for task list items.
///
/// Returns `(is_task, is_checked, remaining_text)`.
pub fn detect_checkbox_in_text(text: &str) -> (r: (bool, bool, &str))
    ensures
        (r.0, r.1, r.2@) == checkbox_spec(text@),
{
    proof {
        reveal_strlit("[x]");
        reveal_strlit("[X]");
        reveal_strlit("[ ]");
    }
    let v = chars_of(text);
    let i = skip_ws(&v, 0);
    let lower = chars_of("[x]");
    let upper = chars_of("[X]");
    let open = chars_of("[ ]");
    proof {
        assert(v@.skip(0) =~= v@);
        lemma_prefix_at(v@, i as int, "[x]"@);
        lemma_prefix_at(v@, i as int, "[X]"@);
        lemma_prefix_at(v@, i as int, "[ ]"@);
    }
    let checked = matches_at(&v, &lower, i) || matches_at(&v, &upper, i);
    if checked || matches_at(&v, &open, i) {
        let j = skip_ws(&v, i + 3);
        proof {
            let t = trim_start_spec(v@);
            assert(t == v@.skip(i as int));
            lemma_skip_ws_shift(t, 3, 0);
            lemma_skip_ws_shift(v@, i as int, 3);
            assert(t.skip(3) =~= v@.skip(i + 3));
            lemma_skip_ws_shift(v@, i + 3, 0);
            assert(v@.skip(i + 3).skip(skip_ws_from(v@.skip(i + 3), 0)) =~= v@.skip(j as int));
        }
        let rest = text.substring_char(j, v.len());
        assert(rest@ =~= v@.skip(j as int));
        return (true, checked, rest);
    }
    (false, false, text)
}

// ---------------------------------------------------------------------------
// Alignment
// ---------------------------------------------------------------------------

/// Columns a character takes when truncating: its display width, or 1 for control characters.
pub open spec fn char_cols(c: char) -> int {
    match char_width(c) {
        Some(w) => w as int,
        None => 1,
    }
}

/// How many leading characters of `s` fit in `avail` columns, taking them in order.
pub open spec fn fit_count(s: Seq<char>, avail: int) -> nat
    decreases s.len(),
{
    if s.len() == 0 || char_cols(s[0]) > avail {
        0
    } else {
        1 + fit_count(s.drop_first(), avail - char_cols(s[0]))
    }
}

/// Columns taken by the characters that [`fit_count`] keeps.
pub open spec fn fit_width(s: Seq<char>, avail: int) -> int
    decreases s.len(),
{
    if s.len() == 0 || char_cols(s[0]) > avail {
        0
    } else {
        char_cols(s[0]) + fit_width(s.drop_first(), avail - char_cols(s[0]))
    }
}

/// `a - b`, or 0 when `b > a` (`usize::saturating_sub`).
pub open spec fn sat_sub(a: int, b: int) -> nat {
    if a >= b { (a - b) as nat } else { 0 }
}

/// What [`align_text`] returns: the text padded to `width` columns with one
/// space of margin (left, right or centred), or, when it does not fit,
/// truncated with an ellipsis (or, when `width <= 3`, cut to what fits).
pub open spec fn align_spec(text: Seq<char>, width: usize, alignment: Alignment) -> Seq<char> {
    let tw = str_width(text) as int;
    if tw >= width {
        if width > 3 {
            let avail = width - 2;
            seq![' '] + text.take(fit_count(text, avail) as int) + seq!['…']
                + repeat_char(' ', sat_sub(width as int, fit_width(text, avail) + 2))
        } else {
            text.take(fit_count(text, width as int) as int)
        }
    } else {
        match alignment {
            Alignment::Center => {
                let total = width - tw;
                let left = total / 2;
                repeat_char(' ', left as nat) + text + repeat_char(' ', (total - left) as nat)
            },
            Alignment::Right => repeat_char(' ', sat_sub(width as int, tw + 1)) + text + seq![' '],
            _ => seq![' '] + text + repeat_char(' ', sat_sub(width as int, tw + 1)),
        }
    }
}

proof fn lemma_fit_nonneg(s: Seq<char>, avail: int)
    ensures
        fit_width(s, avail) >= 0,
        fit_count(s, avail) <= s.len(),
        avail >= 0 ==> fit_width(s, avail) <= avail,
    decreases s.len(),
{
    if s.len() > 0 && char_cols(s[0]) <= avail {
        lemma_fit_nonneg(s.drop_first(), avail - char_cols(s[0]));
    }
}

/// Leading characters of `v` that fit in `avail` columns, and the columns they take.
fn fit_prefix(v: &Vec<char>, avail: usize) -> (r: (usize, usize))
    ensures
        r.0 == fit_count(v@, avail as int),
        r.1 == fit_width(v@, avail as int),
        r.1 <= avail,
{
    let mut i: usize = 0;
    let mut cur: usize = 0;
    assert(v@.skip(0) =~= v@);
    while i < v.len()
        invariant_except_break
            i <= v.len(),
            cur <= avail,
            fit_count(v@, avail as int) == i + fit_count(v@.skip(i as int), avail - cur),
            fit_width(v@, avail as int) == cur + fit_width(v@.skip(i as int), avail - cur),
        ensures
            i <= v.len(),
            cur <= avail,
            fit_count(v@, avail as int) == i,
            fit_width(v@, avail as int) == cur,
        decreases v.len() - i,
    {
        let w = match char_display_width(v[i]) {
            Some(w) => w,
            None => 1,
        };
        assert(v@.skip(i as int)[0] == v@[i as int]);
        if w > avail - cur {
            break;
        }
        assert(v@.skip(i as int).drop_first() =~= v@.skip(i + 1));
        cur = cur + w;
        i += 1;
    }
    proof {
        if i == v.len() {
            assert(v@.skip(i as int).len() == 0);
        }
    }
    (i, cur)
}

/// Align text within a fixed width using Unicode-aware width calculations.
///
/// Handles left, center, right, and unspecified (defaults to left) alignments.
/// If text is longer than width, it is truncated with an ellipsis.
pub fn align_text(text: &str, width: usize, alignment: &Alignment) -> (s: String)
    ensures
        s@ == align_spec(text@, width, *alignment),
{
    let text_width = text_width(text);
    let v = chars_of(text);
    if text_width >= width {
        if width > 3 {
            let available = width - 2;
            let (n, current_width) = fit_prefix(&v, available);
            proof { lemma_fit_nonneg(v@, available as int); }
            let remaining = if width >= current_width + 2 { width - (current_width + 2) } else { 0 };
            let mut s = String::new();
            push_char(&mut s, ' ');
            push_range(&mut s, &v, 0, n);
            push_char(&mut s, '…');
            push_repeat(&mut s, ' ', remaining);
            assert(v@.subrange(0, n as int) =~= v@.take(n as int));
            assert(s@ =~= align_spec(text@, width, *alignment));
            return s;
        }
        let (n, _) = fit_prefix(&v, width);
        proof { lemma_fit_nonneg(v@, width as int); }
        let mut s = String::new();
        push_range(&mut s, &v, 0, n);
        assert(v@.subrange(0, n as int) =~= v@.take(n as int));
        return s;
    }
    let mut s = String::new();
    match alignment {
        Alignment::Center => {
            let total_padding = width - text_width;
            let left_pad = total_padding / 2;
            let right_pad = total_padding - left_pad;
            push_repeat(&mut s, ' ', left_pad);
            push_range(&mut s, &v, 0, v.len());
            push_repeat(&mut s, ' ', right_pad);
        },
        Alignment::Right => {
            let left_padding = if width >= text_width + 1 { width - (text_width + 1) } else { 0 };
            push_repeat(&mut s, ' ', left_padding);
            push_range(&mut s, &v, 0, v.len());
            push_char(&mut s, ' ');
        },
        _ => {
            let right_padding = if width >= text_width + 1 { width - (text_width + 1) } else { 0 };
            push_char(&mut s, ' ');
            push_range(&mut s, &v, 0, v.len());
            push_repeat(&mut s, ' ', right_padding);
        },
    }
    assert(v@.subrange(0, v@.len() as int) =~= v@);
    assert(s@ =~= align_spec(text@, width, *alignment));
    s
}

// ---------------------------------------------------------------------------
// Frontmatter
// ---------------------------------------------------------------------------

/// A marker line `---` closes at `p` of `rest`: `\n---` stands there and
/// is followed by a line break or the end of the text.
pub open spec fn closes_at(rest: Seq<char>, p: int) -> bool {
    occurs_at(rest, "\n---"@, p) && (p + 4 == rest.len() || rest[p + 4] == '\n')
}

/// The first position from `i` on where a closing marker line stands.
pub open spec fn first_close_from(rest: Seq<char>, i: int) -> Option<int>
    decreases rest.len() - i,
{
    if i < 0 || i >= rest.len() {
        None
    } else if closes_at(rest, i) {
        Some(i)
    } else {
        first_close_from(rest, i + 1)
    }
}

/// What [`strip_frontmatter`] returns. Frontmatter starts the document
/// (after leading whitespace) with `---` on its own line and ends at the
/// next line that is `---` on its own; it is removed together with the
/// line break after the closing marker. Anything else is returned
/// unchanged.
pub open spec fn strip_frontmatter_spec(content: Seq<char>) -> Seq<char> {
    let t = trim_start_spec(content);
    if !has_prefix(t, "---"@) || !(t.len() == 3 || t[3] == '\n') {
        content
    } else {
        let rest = t.skip(3);
        match first_close_from(rest, 0) {
            Some(p) => {
                let after = rest.skip(p + 4);
                if has_prefix(after, seq!['\n']) { after.skip(1) } else { after }
            },
            None => content,
        }
    }
}

/// Strip YAML frontmatter from the beginning of a document.
pub fn strip_frontmatter(content: &str) -> (s: String)
    ensures
        s@ == strip_frontmatter_spec(content@),
{
    proof {
        reveal_strlit("---");
        reveal_strlit("\n---");
    }
    let v = chars_of(content);
    let i = skip_ws(&v, 0);
    let dashes = chars_of("---");
    proof {
        assert(v@.skip(0) =~= v@);
        lemma_prefix_at(v@, i as int, "---"@);
    }
    if !matches_at(&v, &dashes, i) {
        return string_of(&v);
    }
    if !(i + 3 == v.len() || v[i + 3] == '\n') {
        return string_of(&v);
    }
    let mut rest: Vec<char> = Vec::new();
    let mut k = i + 3;
    while k < v.len()
        invariant
            i + 3 <= k <= v.len(),
            rest@ == v@.subrange(i + 3, k as int),
        decreases v.len() - k,
    {
        rest.push(v[k]);
        k += 1;
        assert(rest@ =~= v@.subrange(i + 3, k as int));
    }
    assert(rest@ =~= trim_start_spec(v@).skip(3));
    let close = chars_of("\n---");
    let mut p: usize = 0;
    let mut found = false;
    while !found && p < rest.len()
        invariant
            p <= rest@.len(),
            close@ == "\n---"@,
            close@.len() == 4,
            !found ==> first_close_from(rest@, 0) == first_close_from(rest@, p as int),
            found ==> p + 4 <= rest@.len() && first_close_from(rest@, 0) == Some(p as int),
        decreases rest@.len() - p + (if found { 0int } else { 1int }),
    {
        proof { lemma_prefix_at(rest@, p as int, close@); }
        let mut closes = false;
        if matches_at(&rest, &close, p) {
            closes = p + 4 == rest.len() || rest[p + 4] == '\n';
        }
        if closes {
            found = true;
        } else {
            p += 1;
        }
    }
    if !found {
        return string_of(&v);
    }
    let start = p + 4;
    let nl: Vec<char> = vec!['\n'];
    assert(nl@ == seq!['\n']);
    proof { lemma_prefix_at(rest@, start as int, nl@); }
    let from = if matches_at(&rest, &nl, start) { start + 1 } else { start };
    let mut s = String::new();
    push_range(&mut s, &rest, from, rest.len());
    proof {
        let after = rest@.skip(start as int);
        if has_prefix(after, seq!['\n']) {
            assert(after.skip(1) =~= rest@.subrange(from as int, rest@.len() as int));
        } else {
            assert(after =~= rest@.subrange(from as int, rest@.len() as int));
        }
    }
    s
}

// ---------------------------------------------------------------------------
// LaTeX filtering
// ---------------------------------------------------------------------------

/// Name for the result of compiling `pattern` with `regex::Regex::new` and
/// applying `Regex::replace_all` with `replacement` to `text`; `None` when the
/// pattern does not compile.
pub uninterp spec fn regex_replaced(pattern: Seq<char>, text: Seq<char>, replacement: Seq<char>) -> Option<Seq<char>>;

/// `regex::Regex::new(pattern)` followed by `replace_all(text, replacement)`.
/// The contract only ties the result to [`regex_replaced`] of the three arguments.
#[verifier::external_body]
fn regex_replace_all(pattern: &str, text: &str, replacement: &str) -> (r: Option<String>)
    ensures
        match r {
            Some(s) => regex_replaced(pattern@, text@, replacement@) == Some(s@),
            None => regex_replaced(pattern@, text@, replacement@) is None,
        },
{
    match regex::Regex::new(pattern) {
        Ok(re) => Some(re.replace_all(text, replacement).to_string()),
        Err(_) => None,
    }
}

/// One replacement pass; a pattern that does not compile leaves the text as it is.
pub open spec fn replace_pass(pattern: Seq<char>, text: Seq<char>, replacement: Seq<char>) -> Seq<char> {
    match regex_replaced(pattern, text, replacement) {
        Some(s) => s,
        None => text,
    }
}

/// Runs one replacement pass (see [`replace_pass`]).
fn apply_pass(pattern: &str, text: String, replacement: &str) -> (s: String)
    ensures
        s@ == replace_pass(pattern@, text@, replacement@),
{
    match regex_replace_all(pattern, text.as_str(), replacement) {
        Some(r) => r,
        None => text,
    }
}

/// What [`strip_latex`] returns: ten replacement passes, in this order —
/// display math, inline math, environments, font-size commands, standalone
/// commands, preamble commands with arguments, inline commands with
/// arguments (all removed), then text formatting, `\textcolor` and
/// `\colorbox` (replaced by their text argument).
pub open spec fn strip_latex_spec(content: Seq<char>) -> Seq<char> {
    let r = replace_pass(r"\$\$[\s\S]*?\$\$"@, content, ""@);
    let r = replace_pass(r"\$([^\$\n]+)\$"@, r, ""@);
    let r = replace_pass(r"\\begin\{[^}]+\}[\s\S]*?\\end\{[^}]+\}"@, r, ""@);
    let r = replace_pass(r"(?m)^\s*\\(tiny|scriptsize|footnotesize|small|normalsize|large|Large|LARGE|huge|Huge|HUGE|ssmall|miniscule)\s*$"@, r, ""@);
    let r = replace_pass(r"(?m)^\s*\\(newpage|clearpage|pagebreak|tableofcontents|maketitle|listoffigures|listoftables|appendix|frontmatter|mainmatter|backmatter|centering|raggedright|raggedleft|noindent|indent|par|bigskip|medskip|smallskip|vfill|hfill|newline|linebreak)\s*$"@, r, ""@);
    let r = replace_pass(r"(?m)^\s*\\(usepackage|documentclass|title|author|date|include|input|bibliography|bibliographystyle|setlength|renewcommand|newcommand|setcounter|addtocounter|pagenumbering|pagestyle|thispagestyle|geometry|hypersetup|definecolor|graphicspath|addbibresource|fontsize|sethlcolor|titlespacing|titleformat|captionsetup|lstset)(\[[^\]]*\])?(\{[^}]*\})+\s*$"@, r, ""@);
    let r = replace_pass(r"\\(label|ref|cite|eqref|pageref|vspace|hspace|phantom|hphantom|vphantom)\{[^}]*\}"@, r, ""@);
    let r = replace_pass(r"\\(textbf|textit|emph|underline|texttt|hl|textsf|textsc|textsl)\{([^}]*)\}"@, r, "$2"@);
    let r = replace_pass(r"\\textcolor\{[^}]*\}\{([^}]*)\}"@, r, "$1"@);
    replace_pass(r"\\colorbox\{[^}]*\}\{([^}]*)\}"@, r, "$1"@)
}

/// Strip LaTeX math expressions and commands from content.
pub fn strip_latex(content: &str) -> (s: String)
    ensures
        s@ == strip_latex_spec(content@),
{
    let mut v: Vec<char> = chars_of(content);
    let r = string_of(&v);
    let r = apply_pass(r"\$\$[\s\S]*?\$\$", r, "");
    let r = apply_pass(r"\$([^\$\n]+)\$", r, "");
    let r = apply_pass(r"\\begin\{[^}]+\}[\s\S]*?\\end\{[^}]+\}", r, "");
    let r = apply_pass(r"(?m)^\s*\\(tiny|scriptsize|footnotesize|small|normalsize|large|Large|LARGE|huge|Huge|HUGE|ssmall|miniscule)\s*$", r, "");
    let r = apply_pass(r"(?m)^\s*\\(newpage|clearpage|pagebreak|tableofcontents|maketitle|listoffigures|listoftables|appendix|frontmatter|mainmatter|backmatter|centering|raggedright|raggedleft|noindent|indent|par|bigskip|medskip|smallskip|vfill|hfill|newline|linebreak)\s*$", r, "");
    let r = apply_pass(r"(?m)^\s*\\(usepackage|documentclass|title|author|date|include|input|bibliography|bibliographystyle|setlength|renewcommand|newcommand|setcounter|addtocounter|pagenumbering|pagestyle|thispagestyle|geometry|hypersetup|definecolor|graphicspath|addbibresource|fontsize|sethlcolor|titlespacing|titleformat|captionsetup|lstset)(\[[^\]]*\])?(\{[^}]*\})+\s*$", r, "");
    let r = apply_pass(r"\\(label|ref|cite|eqref|pageref|vspace|hspace|phantom|hphantom|vphantom)\{[^}]*\}", r, "");
    let r = apply_pass(r"\\(textbf|textit|emph|underline|texttt|hl|textsf|textsc|textsl)\{([^}]*)\}", r, "$2");
    let r = apply_pass(r"\\textcolor\{[^}]*\}\{([^}]*)\}", r, "$1");
    apply_pass(r"\\colorbox\{[^}]*\}\{([^}]*)\}", r, "$1")
}

/// What [`strip_latex_aggressive`] returns: every line that starts (after
/// whitespace) with a backslash and a letter is emptied.
pub open spec fn strip_latex_aggressive_spec(content: Seq<char>) -> Seq<char> {
    replace_pass(r"(?m)^\s*\\[a-zA-Z].*$"@, content, ""@)
}

/// Strip all lines starting with a backslash command (aggressive LaTeX filtering).
pub fn strip_latex_aggressive(content: &str) -> (s: String)
    ensures
        s@ == strip_latex_aggressive_spec(content@),
{
    let v: Vec<char> = chars_of(content);
    apply_pass(r"(?m)^\s*\\[a-zA-Z].*$", string_of(&v), "")
}

/// What [`filter_content`] returns.
pub open spec fn filter_content_spec(content: Seq<char>, hide_frontmatter: bool, hide_latex: bool, latex_aggressive: bool) -> Seq<char> {
    let r = if hide_frontmatter { strip_frontmatter_spec(content) } else { content };
    if hide_latex {
        let r = strip_latex_spec(r);
        if latex_aggressive { strip_latex_aggressive_spec(r) } else { r }
    } else {
        r
    }
}

/// Apply content filters based on configuration.
pub fn filter_content(content: &str, hide_frontmatter: bool, hide_latex: bool, latex_aggressive: bool) -> (s: String)
    ensures
        s@ == filter_content_spec(content@, hide_frontmatter, hide_latex, latex_aggressive),
{
    let v: Vec<char> = chars_of(content);
    let mut result = string_of(&v);
    if hide_frontmatter {
        result = strip_frontmatter(result.as_str());
    }
    if hide_latex {
        result = strip_latex(result.as_str());
        if latex_aggressive {
            result = strip_latex_aggressive(result.as_str());
        }
    }
    result
}

// ---------------------------------------------------------------------------
// Byte slicing
// ---------------------------------------------------------------------------

/// What [`safe_slice`] accepts: an ordered, in-bounds pair of character boundaries.
pub open spec fn slice_ok(s: &str, start: usize, end: usize) -> bool {
    &&& start <= end <= s.spec_bytes().len()
    &&& is_char_boundary(s.spec_bytes(), start as int)
    &&& is_char_boundary(s.spec_bytes(), end as int)
}

proof fn lemma_boundary_in_prefix(bytes: Seq<u8>, end: int, start: int)
    requires
        valid_utf8(bytes),
        valid_utf8(bytes.subrange(0, end)),
        0 <= start <= end <= bytes.len(),
        is_char_boundary(bytes, start),
    ensures
        is_char_boundary(bytes.subrange(0, end), start),
{
    let pre = bytes.subrange(0, end);
    if start == end {
        is_char_boundary_start_end_of_seq(pre);
    } else if start == 0 {
        is_char_boundary_start_end_of_seq(pre);
    } else {
        is_char_boundary_iff_not_is_continuation_byte(bytes, start);
        is_char_boundary_iff_not_is_continuation_byte(pre, start);
    }
}

/// Safely slice a string at byte positions, returning `None` unless both are
/// in-bounds character boundaries with `start <= end`.
pub fn safe_slice(s: &str, start: usize, end: usize) -> (r: Option<&str>)
    ensures
        match r {
            Some(t) => slice_ok(s, start, end) && t.spec_bytes() == s.spec_bytes().subrange(start as int, end as int),
            None => !slice_ok(s, start, end),
        },
{
    let n = s.as_bytes().len();
    if start > end || end > n {
        return None;
    }
    if !s.is_char_boundary(start) || !s.is_char_boundary(end) {
        return None;
    }
    let (a, _) = s.split_at(end);
    proof {
        encode_utf8_valid_utf8(s@);
        encode_utf8_valid_utf8(a@);
        lemma_boundary_in_prefix(s.spec_bytes(), end as int, start as int);
    }
    let (_, b) = a.split_at(start);
    assert(b.spec_bytes() =~= s.spec_bytes().subrange(start as int, end as int));
    Some(b)
}

} // verus!
