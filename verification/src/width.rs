//! Display widths of text, from the `unicode-width` crate.

use vstd::prelude::*;
use unicode_width::{UnicodeWidthChar, UnicodeWidthStr};

verus! {

/// Name for what `UnicodeWidthStr::width` returns for a string: its display
/// width in terminal columns under Unicode Standard Annex #11 and the crate's
/// ligature rules.
pub uninterp spec fn str_width(s: Seq<char>) -> usize;

/// Name for what `UnicodeWidthChar::width` returns for a character: its
/// display width in columns, or `None` for a control character.
pub uninterp spec fn char_width(c: char) -> Option<usize>;

/// `UnicodeWidthStr::width` on `s`; the contract only ties the result to
/// [`str_width`] of the characters of `s`.
#[verifier::external_body]
pub(crate) fn text_width(s: &str) -> (w: usize)
    ensures
        w == str_width(s@),
{
    s.width()
}

/// `UnicodeWidthChar::width` on `c`; the contract only ties the result to
/// [`char_width`] of `c`.
#[verifier::external_body]
pub(crate) fn char_display_width(c: char) -> (w: Option<usize>)
    ensures
        w == char_width(c),
{
    c.width()
}

} // verus!
