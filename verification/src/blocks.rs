//! Parsed markdown content as the navigator sees it: blocks, inline
//! elements and link targets, with the line accounting used for scrolling.

use vstd::prelude::*;
use crate::text::{chars_of, find_from, find_from_spec, has_prefix, lemma_find_from_found, occurs_at, push_range, starts_with, string_of};

verus! {

broadcast use vstd::string::group_string_axioms;

/// Column alignment of a markdown table.
#[derive(Debug, Clone, Copy, PartialEq, Eq)]
pub enum Alignment {
    Left,
    Center,
    Right,
    NotSpecified,
}

/// Inline content of a paragraph or list item.
#[derive(Debug, Clone)]
pub enum InlineElement {
    Text { value: String },
    Code { value: String },
    Strong { value: String },
    Emphasis { value: String },
    Link { text: String, url: String },
    Image { alt: String, src: String },
}

/// One item of a list; `checked` is `Some` for task-list items.
#[derive(Debug, Clone)]
pub struct ListItem {
    pub checked: Option<bool>,
    pub content: String,
    pub inline: Vec<InlineElement>,
}

/// A block of parsed markdown content.
#[derive(Debug)]
pub enum Block {
    Heading { level: usize, text: String },
    Paragraph { content: String, inline: Vec<InlineElement> },
    Code { language: Option<String>, content: String },
    List { ordered: bool, items: Vec<ListItem> },
    Blockquote { blocks: Vec<Block> },
    Table { headers: Vec<String>, alignments: Vec<Alignment>, rows: Vec<Vec<String>> },
    Image { alt: String, src: String },
    HorizontalRule,
    Details { summary: String, blocks: Vec<Block> },
}

/// Where a link points.
#[derive(Debug, Clone)]
pub enum LinkTarget {
    /// `#anchor` inside the current document.
    Anchor(String),
    /// Another file, relative to the current one, with an optional anchor.
    RelativeFile { path: String, anchor: Option<String> },
    /// `[[target]]`: a note of the vault, by name or path, with an optional `#anchor`.
    WikiLink { target: String },
    /// An `http://` or `https://` URL.
    External(String),
}

/// A link found in content.
#[derive(Debug, Clone)]
pub struct Link {
    pub text: String,
    pub target: LinkTarget,
    /// Byte offset of the link in its source text.
    pub offset: usize,
}

/// Mathematical view of a [`LinkTarget`].
pub enum LinkTargetView {
    Anchor(Seq<char>),
    RelativeFile { path: Seq<char>, anchor: Option<Seq<char>> },
    WikiLink { target: Seq<char> },
    External(Seq<char>),
}

impl View for LinkTarget {
    type V = LinkTargetView;

    open spec fn view(&self) -> LinkTargetView {
        match self {
            LinkTarget::Anchor(a) => LinkTargetView::Anchor(a@),
            LinkTarget::RelativeFile { path, anchor } => LinkTargetView::RelativeFile {
                path: path@,
                anchor: match anchor {
                    Some(a) => Some(a@),
                    None => None,
                },
            },
            LinkTarget::WikiLink { target } => LinkTargetView::WikiLink { target: target@ },
            LinkTarget::External(u) => LinkTargetView::External(u@),
        }
    }
}

impl Link {
    /// Creates a link.
    pub fn new(text: String, target: LinkTarget, offset: usize) -> (l: Link)
        ensures
            l.text@ == text@,
            l.target@ == target@,
            l.offset == offset,
    {
        Link { text, target, offset }
    }
}

// ---------------------------------------------------------------------------
// Link targets
// ---------------------------------------------------------------------------

/// The one-character sequence `#`.
pub open spec fn hash_char() -> Seq<char> {
    seq!['#']
}

/// How a link URL is classified: `#anchor`, an `http(s)://` URL, `path#anchor`, or a plain path.
pub open spec fn link_target_of(url: Seq<char>) -> LinkTargetView {
    if has_prefix(url, seq!['#']) {
        LinkTargetView::Anchor(url.skip(1))
    } else if has_prefix(url, "http://"@) || has_prefix(url, "https://"@) {
        LinkTargetView::External(url)
    } else {
        match find_from_spec(url, hash_char(), 0) {
            Some(i) => LinkTargetView::RelativeFile { path: url.take(i), anchor: Some(url.skip(i + 1)) },
            None => LinkTargetView::RelativeFile { path: url, anchor: None },
        }
    }
}

/// Classifies a link URL (see [`link_target_of`]).
pub fn parse_link_target(url: &str) -> (t: LinkTarget)
    ensures
        t@ == link_target_of(url@),
{
    let v = chars_of(url);
    let hash: Vec<char> = vec!['#'];
    assert(hash@ == seq!['#']);
    if starts_with(&v, &hash) {
        let mut a = String::new();
        push_range(&mut a, &v, 1, v.len());
        assert(v@.subrange(1, v@.len() as int) == v@.skip(1));
        return LinkTarget::Anchor(a);
    }
    if is_web_url(&v) {
        return LinkTarget::External(string_of(&v));
    }
    relative_target(&v)
}

/// Whether the URL starts with `http://` or `https://`.
fn is_web_url(v: &Vec<char>) -> (b: bool)
    ensures
        b == (has_prefix(v@, "http://"@) || has_prefix(v@, "https://"@)),
{
    let http = chars_of("http://");
    let https = chars_of("https://");
    starts_with(v, &http) || starts_with(v, &https)
}

/// `path#anchor` or a plain path.
fn relative_target(v: &Vec<char>) -> (t: LinkTarget)
    ensures
        t@ == match find_from_spec(v@, hash_char(), 0) {
            Some(i) => LinkTargetView::RelativeFile { path: v@.take(i), anchor: Some(v@.skip(i + 1)) },
            None => LinkTargetView::RelativeFile { path: v@, anchor: None },
        },
{
    let hash: Vec<char> = vec!['#'];
    assert(hash@ == hash_char());
    match find_from(v, &hash, 0) {
        Some(i) => {
            proof { assert(find_from_spec(v@, hash@, 0) == Some(i as int)); lemma_find_from_found(v@, hash@, 0, i as int); assert(hash@.len() == 1); assert(occurs_at(v@, hash@, i as int)); assert(i < v.len()); }
            let mut p = String::new();
            push_range(&mut p, v, 0, i);
            let mut a = String::new();
            push_range(&mut a, v, i + 1, v.len());
            assert(v@.subrange(0, i as int) == v@.take(i as int));
            assert(v@.subrange(i + 1, v@.len() as int) == v@.skip(i + 1));
            LinkTarget::RelativeFile { path: p, anchor: Some(a) }
        },
        None => LinkTarget::RelativeFile { path: string_of(v), anchor: None },
    }
}

// ---------------------------------------------------------------------------
// Line accounting
// ---------------------------------------------------------------------------

/// Number of `'\n'` characters in `s`.
pub open spec fn newline_count(s: Seq<char>) -> nat
    decreases s.len(),
{
    if s.len() == 0 {
        0
    } else {
        newline_count(s.drop_last()) + if s.last() == '\n' { 1nat } else { 0nat }
    }
}

/// What `str::lines().count()` returns: one line per newline, plus a final
/// unterminated line when the text does not end with a newline.
pub open spec fn line_count(s: Seq<char>) -> nat {
    newline_count(s) + if s.len() > 0 && s.last() != '\n' { 1nat } else { 0nat }
}

proof fn lemma_newline_count_bound(s: Seq<char>)
    ensures
        newline_count(s) <= s.len(),
    decreases s.len(),
{
    if s.len() > 0 {
        lemma_newline_count_bound(s.drop_last());
    }
}

/// Number of `'\n'` characters in a text.
pub fn count_newlines(s: &str) -> (n: usize)
    ensures
        n == newline_count(s@),
{
    let v = chars_of(s);
    let mut n: usize = 0;
    let mut i: usize = 0;
    while i < v.len()
        invariant
            i <= v.len(),
            v@ == s@,
            n == newline_count(v@.take(i as int)),
            n <= i,
        decreases v.len() - i,
    {
        assert(v@.take(i + 1).drop_last() == v@.take(i as int));
        if v[i] == '\n' {
            n += 1;
        }
        i += 1;
    }
    assert(v@.take(v.len() as int) == v@);
    n
}

/// Number of lines of a text, as `str::lines().count()` counts them.
pub fn count_lines(s: &str) -> (n: usize)
    ensures
        n == line_count(s@),
{
    let v = chars_of(s);
    let mut n: usize = 0;
    let mut i: usize = 0;
    while i < v.len()
        invariant
            i <= v.len(),
            n == newline_count(v@.take(i as int)),
            n <= i,
        decreases v.len() - i,
    {
        assert(v@.take(i + 1).drop_last() == v@.take(i as int));
        if v[i] == '\n' {
            n += 1;
        }
        i += 1;
    }
    assert(v@.take(v.len() as int) == v@);
    if v.len() > 0 && v[v.len() - 1] != '\n' {
        proof { lemma_newline_count_bound(v@.drop_last()); }
        n += 1;
    }
    n
}

/// Rendered height of one block (a fence line above and below code; three
/// border lines around table rows; nested blocks for quotes and details).
pub open spec fn block_lines(b: Block) -> nat
    decreases b, 0int,
{
    match b {
        Block::Heading { .. } => 1,
        Block::Paragraph { .. } => 1,
        Block::Code { content, .. } => 2 + line_count(content@),
        Block::List { items, .. } => items@.len(),
        Block::Blockquote { blocks } => blocks_lines(blocks@, blocks@.len() as int),
        Block::Table { rows, .. } => 4 + rows@.len(),
        Block::Image { .. } => 1,
        Block::HorizontalRule => 1,
        Block::Details { blocks, .. } => 1 + blocks_lines(blocks@, blocks@.len() as int),
    }
}

/// Total rendered height of the first `n` blocks of `bs`.
pub open spec fn blocks_lines(bs: Seq<Block>, n: int) -> nat
    decreases bs, n,
{
    if n <= 0 || n > bs.len() {
        0
    } else {
        blocks_lines(bs, n - 1) + block_lines(bs[n - 1])
    }
}

/// Height of a block sequence (sum of [`block_lines`]).
pub fn count_block_lines(blocks: &[Block]) -> (n: usize)
    requires
        blocks_lines(blocks@, blocks@.len() as int) <= usize::MAX,
    ensures
        n == blocks_lines(blocks@, blocks@.len() as int),
    decreases blocks@, 1int,
{
    let mut total: usize = 0;
    let mut i: usize = 0;
    while i < blocks.len()
        invariant
            i <= blocks.len(),
            total == blocks_lines(blocks@, i as int),
            blocks_lines(blocks@, blocks@.len() as int) <= usize::MAX,
        decreases blocks.len() - i,
    {
        proof { lemma_blocks_lines_mono(blocks@, i + 1, blocks@.len() as int); }
        let n = count_single_block_lines(&blocks[i]);
        total = total + n;
        i += 1;
    }
    total
}

/// Height of one block (see [`block_lines`]).
pub fn count_single_block_lines(block: &Block) -> (n: usize)
    requires
        block_lines(*block) <= usize::MAX,
    ensures
        n == block_lines(*block),
    decreases *block, 0int,
{
    match block {
        Block::Heading { .. } => 1,
        Block::Paragraph { .. } => 1,
        Block::Code { content, .. } => 2 + count_lines(content.as_str()),
        Block::List { items, .. } => items.len(),
        Block::Blockquote { blocks } => count_block_lines(blocks.as_slice()),
        Block::Table { rows, .. } => 4 + rows.len(),
        Block::Image { .. } => 1,
        Block::HorizontalRule => 1,
        Block::Details { blocks, .. } => 1 + count_block_lines(blocks.as_slice()),
    }
}

/// Block heights only add up: a prefix is never taller than a longer prefix.
pub proof fn lemma_blocks_lines_mono(bs: Seq<Block>, i: int, j: int)
    requires
        0 <= i <= j <= bs.len(),
    ensures
        blocks_lines(bs, i) <= blocks_lines(bs, j),
    decreases j - i,
{
    if i < j {
        lemma_blocks_lines_mono(bs, i, j - 1);
    }
}

} // verus!
