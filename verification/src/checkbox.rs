//! Toggling a task-list checkbox in a markdown file, found by its text.

use vstd::prelude::*;
use crate::search::{plain_text_of, to_plain_text};
use crate::text::{
    chars_of, find_from, find_from_spec, has_prefix, join_char, lemma_find_from_found, lines_spec, matches_at,
    occurs_at, push_range, push_str, skip_ws, string_of, trim_end_index, trim_spec, trim_start_spec, trim_end_from,
    skip_ws_from,
};
use crate::app::string_from;
use crate::edits::lines_of;

verus! {

broadcast use vstd::string::group_string_axioms;

/// `str::trim_start_matches(p)` for a non-empty `p`: every leading
/// occurrence of `p` removed.
pub open spec fn strip_all_prefix(s: Seq<char>, p: Seq<char>) -> Seq<char>
    decreases s.len(),
{
    if p.len() > 0 && has_prefix(s, p) {
        strip_all_prefix(s.skip(p.len() as int), p)
    } else {
        s
    }
}

/// `str::replacen(from, to, 1)`: the first occurrence of `from` replaced.
pub open spec fn replace_first(s: Seq<char>, from: Seq<char>, to: Seq<char>) -> Seq<char> {
    match find_from_spec(s, from, 0) {
        Some(i) => s.take(i) + to + s.skip(i + from.len()),
        None => s,
    }
}

/// A checkbox's text with its leading whitespace, any leading `[x]`,
/// `[X]` and `[ ]` markers, and surrounding whitespace removed.
pub open spec fn clean_checkbox_text(t: Seq<char>) -> Seq<char> {
    trim_spec(strip_all_prefix(strip_all_prefix(strip_all_prefix(trim_start_spec(t), "[x]"@), "[X]"@), "[ ]"@))
}

/// The line (after its indentation) starts with `- [ ]`, `- [x]` or `- [X]`.
pub open spec fn is_checkbox_line(line: Seq<char>) -> bool {
    let t = trim_start_spec(line);
    has_prefix(t, "- [ ]"@) || has_prefix(t, "- [x]"@) || has_prefix(t, "- [X]"@)
}

/// The text of a checkbox line after its marker, trimmed.
pub open spec fn checkbox_line_text(line: Seq<char>) -> Seq<char> {
    trim_spec(strip_all_prefix(strip_all_prefix(strip_all_prefix(trim_start_spec(line), "- [ ]"@), "- [x]"@), "- [X]"@))
}

/// The line is the checkbox with this (clean) text: its text, as plain
/// text, is the clean text.
pub open spec fn is_the_checkbox(line: Seq<char>, clean: Seq<char>) -> bool {
    is_checkbox_line(line) && plain_text_of(checkbox_line_text(line)) == clean
}

/// The first line from `i` on that is the checkbox.
pub open spec fn first_checkbox_from(lines: Seq<Seq<char>>, clean: Seq<char>, i: int) -> Option<int>
    decreases lines.len() - i,
{
    if i < 0 || i >= lines.len() {
        None
    } else if is_the_checkbox(lines[i], clean) {
        Some(i)
    } else {
        first_checkbox_from(lines, clean, i + 1)
    }
}

/// A checkbox line toggled: `[x]` then `[X]` made `[ ]` when it was
/// checked, `[ ]` made `[x]` otherwise (first occurrences).
pub open spec fn toggled_line(line: Seq<char>, checked: bool) -> Seq<char> {
    if checked {
        replace_first(replace_first(line, "[x]"@, "[ ]"@), "[X]"@, "[ ]"@)
    } else {
        replace_first(line, "[ ]"@, "[x]"@)
    }
}

/// The file with the first line that is the checkbox toggled, its lines
/// joined by newlines and ended by one; or the error when there is none.
pub open spec fn toggle_checkbox_spec(file: Seq<char>, checkbox_text: Seq<char>, checked: bool) -> Result<Seq<char>, Seq<char>> {
    let clean = clean_checkbox_text(checkbox_text);
    let lines = lines_spec(file);
    match first_checkbox_from(lines, clean, 0) {
        Some(k) => Ok(join_char(lines.update(k, toggled_line(lines[k], checked)), '\n') + "\n"@),
        None => Err("Checkbox not found in file: '"@ + clean + "'"@),
    }
}

/// The characters `v[from..]`.
fn suffix_from(v: &Vec<char>, from: usize) -> (w: Vec<char>)
    requires
        from <= v@.len(),
    ensures
        w@ == v@.skip(from as int),
{
    let mut w: Vec<char> = Vec::new();
    let mut i = from;
    while i < v.len()
        invariant
            from <= i <= v@.len(),
            w@ == v@.subrange(from as int, i as int),
        decreases v@.len() - i,
    {
        w.push(v[i]);
        i += 1;
        assert(w@ =~= v@.subrange(from as int, i as int));
    }
    assert(v@.subrange(from as int, v@.len() as int) =~= v@.skip(from as int));
    w
}

/// The characters without leading whitespace.
fn trim_start_chars(v: &Vec<char>) -> (w: Vec<char>)
    ensures
        w@ == trim_start_spec(v@),
{
    let i = skip_ws(v, 0);
    suffix_from(v, i)
}

/// The characters without leading and trailing whitespace.
fn trim_chars(v: &Vec<char>) -> (w: Vec<char>)
    ensures
        w@ == trim_spec(v@),
{
    let t = trim_start_chars(v);
    let e = trim_end_index(&t, t.len());
    let mut w: Vec<char> = Vec::new();
    let mut i: usize = 0;
    while i < e
        invariant
            e <= t@.len(),
            i <= e,
            w@ == t@.take(i as int),
        decreases e - i,
    {
        w.push(t[i]);
        i += 1;
        assert(w@ =~= t@.take(i as int));
    }
    w
}

/// Every leading occurrence of `p` removed.
fn strip_all_prefix_chars(v: &Vec<char>, p: &Vec<char>) -> (w: Vec<char>)
    requires
        p@.len() > 0,
    ensures
        w@ == strip_all_prefix(v@, p@),
{
    let mut i: usize = 0;
    assert(v@.skip(0) =~= v@);
    loop
        invariant
            p@.len() > 0,
            i <= v@.len(),
            strip_all_prefix(v@, p@) == strip_all_prefix(v@.skip(i as int), p@),
        ensures
            i <= v@.len(),
            strip_all_prefix(v@, p@) == strip_all_prefix(v@.skip(i as int), p@),
            !occurs_at(v@, p@, i as int),
        decreases v@.len() - i,
    {
        let hit = matches_at(v, p, i);
        if !hit {
            break;
        }
        let vl = v.len();
        assert(i + p@.len() <= vl);
        proof {
            let s = v@.skip(i as int);
            assert(s.subrange(0, p@.len() as int) =~= v@.subrange(i as int, i + p@.len()));
            assert(has_prefix(s, p@));
            assert(s.skip(p@.len() as int) =~= v@.skip(i + p@.len()));
        }
        i += p.len();
    }
    proof {
        let s = v@.skip(i as int);
        if has_prefix(s, p@) {
            assert(v@.subrange(i as int, i + p@.len()) =~= s.subrange(0, p@.len() as int));
        }
    }
    suffix_from(v, i)
}

/// The first occurrence of `from` replaced by `to`.
fn replace_first_chars(v: &Vec<char>, from: &Vec<char>, to: &Vec<char>) -> (w: Vec<char>)
    ensures
        w@ == replace_first(v@, from@, to@),
{
    match find_from(v, from, 0) {
        Some(i) => {
            proof { lemma_find_from_found(v@, from@, 0, i as int); }
            let mut w: Vec<char> = Vec::new();
            let mut k: usize = 0;
            while k < i
                invariant
                    i + from@.len() <= v@.len(),
                    k <= i,
                    w@ == v@.take(k as int),
                decreases i - k,
            {
                w.push(v[k]);
                k += 1;
                assert(w@ =~= v@.take(k as int));
            }
            let mut j: usize = 0;
            while j < to.len()
                invariant
                    i + from@.len() <= v@.len(),
                    j <= to@.len(),
                    w@ == v@.take(i as int) + to@.take(j as int),
                decreases to@.len() - j,
            {
                w.push(to[j]);
                j += 1;
                assert(w@ =~= v@.take(i as int) + to@.take(j as int));
            }
            let vl = v.len();
            assert(i + from@.len() <= vl);
            let mut m = i + from.len();
            while m < v.len()
                invariant
                    i + from@.len() <= m <= v@.len(),
                    w@ == v@.take(i as int) + to@ + v@.subrange(i + from@.len(), m as int),
                decreases v@.len() - m,
            {
                w.push(v[m]);
                m += 1;
                assert(w@ =~= v@.take(i as int) + to@ + v@.subrange(i + from@.len(), m as int));
            }
            assert(to@.take(to@.len() as int) =~= to@);
            assert(v@.subrange(i + from@.len(), v@.len() as int) =~= v@.skip(i + from@.len()));
            w
        },
        None => {
            let mut w: Vec<char> = Vec::new();
            let mut k: usize = 0;
            while k < v.len()
                invariant
                    k <= v@.len(),
                    w@ == v@.take(k as int),
                decreases v@.len() - k,
            {
                w.push(v[k]);
                k += 1;
                assert(w@ =~= v@.take(k as int));
            }
            assert(v@.take(v@.len() as int) =~= v@);
            w
        },
    }
}

/// The clean text of a checkbox (see [`clean_checkbox_text`]).
fn clean_text(t: &str) -> (w: Vec<char>)
    ensures
        w@ == clean_checkbox_text(t@),
{
    proof {
        reveal_strlit("[x]");
        reveal_strlit("[X]");
        reveal_strlit("[ ]");
    }
    let v = trim_start_chars(&chars_of(t));
    let a = strip_all_prefix_chars(&v, &chars_of("[x]"));
    let b = strip_all_prefix_chars(&a, &chars_of("[X]"));
    let c = strip_all_prefix_chars(&b, &chars_of("[ ]"));
    trim_chars(&c)
}

/// Whether a line is the checkbox with this clean text.
fn is_the_checkbox_line(line: &Vec<char>, clean: &Vec<char>) -> (b: bool)
    ensures
        b == is_the_checkbox(line@, clean@),
{
    proof {
        reveal_strlit("- [ ]");
        reveal_strlit("- [x]");
        reveal_strlit("- [X]");
    }
    let t = trim_start_chars(line);
    let open_box = chars_of("- [ ]");
    let lower_box = chars_of("- [x]");
    let upper_box = chars_of("- [X]");
    if !(matches_at(&t, &open_box, 0) || matches_at(&t, &lower_box, 0) || matches_at(&t, &upper_box, 0)) {
        return false;
    }
    let a = strip_all_prefix_chars(&t, &open_box);
    let b = strip_all_prefix_chars(&a, &lower_box);
    let c = strip_all_prefix_chars(&b, &upper_box);
    let text = trim_chars(&c);
    let plain = to_plain_text(string_of(&text).as_str());
    let pv = chars_of(plain.as_str());
    let ghost want = is_the_checkbox(line@, clean@);
    assert(want == (pv@ == clean@));
    if pv.len() != clean.len() {
        return false;
    }
    let mut i: usize = 0;
    while i < pv.len()
        invariant
            pv@.len() == clean@.len(),
            want == (pv@ == clean@),
            want == is_the_checkbox(line@, clean@),
            i <= pv@.len(),
            forall|k: int| 0 <= k < i ==> pv@[k] == clean@[k],
        decreases pv@.len() - i,
    {
        if pv[i] != clean[i] {
            return false;
        }
        i += 1;
    }
    assert(pv@ =~= clean@);
    true
}

/// Toggle the checkbox with the given text in a markdown file's content
/// (see [`toggle_checkbox_spec`]); `current_checked` is its state before.
/// Its text is compared, as plain text, with the checkbox lines' texts.
pub fn toggle_checkbox_by_content(file_content: &str, checkbox_text: &str, current_checked: bool) -> (r: Result<String, String>)
    ensures
        match toggle_checkbox_spec(file_content@, checkbox_text@, current_checked) {
            Ok(s) => r matches Ok(t) && t@ == s,
            Err(e) => r matches Err(t) && t@ == e,
        },
{
    proof {
        reveal_strlit("[x]");
        reveal_strlit("[X]");
        reveal_strlit("[ ]");
        reveal_strlit("Checkbox not found in file: '");
        reveal_strlit("'");
        reveal_strlit("\n");
    }
    let clean = clean_text(checkbox_text);
    let lines = lines_of(file_content);
    let ghost ls = lines_spec(file_content@);
    let ghost cl = clean@;
    let mut found: Option<usize> = None;
    let mut i: usize = 0;
    while i < lines.len()
        invariant_except_break
            i <= lines@.len() == ls.len(),
            forall|k: int| 0 <= k < lines@.len() ==> (#[trigger] lines@[k])@ == ls[k],
            found is None,
            first_checkbox_from(ls, cl, 0) == first_checkbox_from(ls, cl, i as int),
            clean@ == cl,
        ensures
            lines@.len() == ls.len(),
            forall|k: int| 0 <= k < lines@.len() ==> (#[trigger] lines@[k])@ == ls[k],
            clean@ == cl,
            match found {
                Some(k) => k < lines@.len() && first_checkbox_from(ls, cl, 0) == Some(k as int),
                None => first_checkbox_from(ls, cl, 0) is None,
            },
        decreases lines@.len() - i,
    {
        if is_the_checkbox_line(&lines[i], &clean) {
            found = Some(i);
            break;
        }
        i += 1;
    }
    let k = match found {
        Some(k) => k,
        None => {
            let mut e = string_from("Checkbox not found in file: '");
            push_str(&mut e, string_of(&clean).as_str());
            push_str(&mut e, "'");
            assert(e@ =~= "Checkbox not found in file: '"@ + cl + "'"@);
            return Err(e);
        },
    };
    let new_line = if current_checked {
        let a = replace_first_chars(&lines[k], &chars_of("[x]"), &chars_of("[ ]"));
        replace_first_chars(&a, &chars_of("[X]"), &chars_of("[ ]"))
    } else {
        replace_first_chars(&lines[k], &chars_of("[ ]"), &chars_of("[x]"))
    };
    let ghost out = ls.update(k as int, toggled_line(ls[k as int], current_checked));
    let mut s = String::new();
    let mut j: usize = 0;
    while j < lines.len()
        invariant
            lines@.len() == ls.len() == out.len(),
            forall|m: int| 0 <= m < lines@.len() ==> (#[trigger] lines@[m])@ == ls[m],
            k < lines@.len(),
            new_line@ == out[k as int],
            forall|m: int| 0 <= m < out.len() && m != k ==> out[m] == ls[m],
            j <= lines@.len(),
            s@ == join_char(out.take(j as int), '\n'),
        decreases lines@.len() - j,
    {
        if j > 0 {
            crate::text::push_char(&mut s, '\n');
        }
        if j == k {
            push_range(&mut s, &new_line, 0, new_line.len());
            assert(new_line@.subrange(0, new_line@.len() as int) =~= new_line@);
        } else {
            push_range(&mut s, &lines[j], 0, lines[j].len());
            assert(lines@[j as int]@.subrange(0, lines@[j as int]@.len() as int) =~= lines@[j as int]@);
        }
        proof {
            assert(out.take(j + 1).drop_last() =~= out.take(j as int));
            assert(out.take(j + 1).last() == out[j as int]);
            if j == 0 {
                assert(out.take(1) =~= seq![out[0]]);
            }
        }
        j += 1;
    }
    assert(out.take(out.len() as int) =~= out);
    crate::text::push_char(&mut s, '\n');
    Ok(s)
}

} // verus!
