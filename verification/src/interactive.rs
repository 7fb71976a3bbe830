//! Interactive element navigation: indexing the details blocks, links,
//! checkboxes, code blocks, tables and images of a section, cycling through
//! them, and moving a cell cursor inside a table.

use vstd::prelude::*;
use crate::blocks::{
    Block, InlineElement, Link, LinkTargetView, ListItem, block_lines, blocks_lines,
    count_block_lines, count_lines, line_count, link_target_of, parse_link_target,
    lemma_blocks_lines_mono,
};
use crate::text::{decimal, decimal_string, push_str};

verus! {

broadcast use vstd::string::group_string_axioms;

/// Unique identifier for an element.
#[derive(Debug, Clone, Copy, PartialEq, Eq, Hash, Structural)]
pub struct ElementId {
    /// Block index in parsed content
    pub block_idx: usize,
    /// Sub-item index for lists, cells in tables
    pub sub_idx: Option<usize>,
}

impl ElementId {
    /// Creates an element identifier.
    pub fn new(block_idx: usize, sub_idx: Option<usize>) -> (r: ElementId)
        ensures
            r.block_idx == block_idx,
            r.sub_idx == sub_idx,
    {
        ElementId { block_idx, sub_idx }
    }
}

/// Types of interactive elements.
#[derive(Debug, Clone)]
pub enum ElementType {
    Details { summary: String, block_idx: usize },
    Link {
        link: Link,
        /// Position in rendered content for highlighting
        line_idx: usize,
    },
    Checkbox { content: String, checked: bool, block_idx: usize, item_idx: usize },
    CodeBlock { language: Option<String>, content: String, block_idx: usize },
    Table { rows: usize, cols: usize, block_idx: usize },
    Image { alt: String, src: String, block_idx: usize },
}

/// An interactive element that can be navigated to and acted upon.
#[derive(Debug)]
pub struct InteractiveElement {
    pub id: ElementId,
    pub element_type: ElementType,
    /// Line range in rendered content (for scroll-to-view)
    pub line_range: (usize, usize),
}

/// Per-element state.
#[derive(Debug, Clone, Copy, PartialEq, Eq, Structural)]
pub enum ElementState {
    Details { expanded: bool },
    Table { selected_row: usize, selected_col: usize },
    List { selected_item: usize },
}

/// Fine-grained navigation mode for complex elements.
#[derive(Debug, Clone, Copy, PartialEq, Eq, Structural)]
pub enum DetailMode {
    Table { element_idx: usize },
    List { element_idx: usize },
}

/// Interactive navigation state.
#[derive(Debug)]
pub struct InteractiveState {
    /// All interactive elements in current view
    pub elements: Vec<InteractiveElement>,
    /// Current selected element index
    pub current_index: Option<usize>,
    /// Per-element state (expanded/collapsed, selected cell, etc.), as an
    /// association list in which the last entry for an identifier counts
    pub element_states: Vec<(ElementId, ElementState)>,
    /// Current detail navigation mode (for tables/lists)
    pub detail_mode: Option<DetailMode>,
}

// ---------------------------------------------------------------------------
// Views
// ---------------------------------------------------------------------------

/// Mathematical view of an [`ElementType`].
pub enum ElementKind {
    Details { summary: Seq<char>, block_idx: usize },
    Link { text: Seq<char>, target: LinkTargetView, offset: usize, line_idx: usize },
    Checkbox { content: Seq<char>, checked: bool, block_idx: usize, item_idx: usize },
    CodeBlock { language: Option<Seq<char>>, content: Seq<char>, block_idx: usize },
    Table { rows: usize, cols: usize, block_idx: usize },
    Image { alt: Seq<char>, src: Seq<char>, block_idx: usize },
}

/// Mathematical view of an [`InteractiveElement`].
pub struct ElementView {
    pub id: ElementId,
    pub kind: ElementKind,
    pub line_range: (usize, usize),
}

impl View for ElementType {
    type V = ElementKind;

    open spec fn view(&self) -> ElementKind {
        match self {
            ElementType::Details { summary, block_idx } => ElementKind::Details { summary: summary@, block_idx: *block_idx },
            ElementType::Link { link, line_idx } => ElementKind::Link {
                text: link.text@,
                target: link.target@,
                offset: link.offset,
                line_idx: *line_idx,
            },
            ElementType::Checkbox { content, checked, block_idx, item_idx } => ElementKind::Checkbox {
                content: content@,
                checked: *checked,
                block_idx: *block_idx,
                item_idx: *item_idx,
            },
            ElementType::CodeBlock { language, content, block_idx } => ElementKind::CodeBlock {
                language: match language {
                    Some(l) => Some(l@),
                    None => None,
                },
                content: content@,
                block_idx: *block_idx,
            },
            ElementType::Table { rows, cols, block_idx } => ElementKind::Table { rows: *rows, cols: *cols, block_idx: *block_idx },
            ElementType::Image { alt, src, block_idx } => ElementKind::Image { alt: alt@, src: src@, block_idx: *block_idx },
        }
    }
}

impl View for InteractiveElement {
    type V = ElementView;

    open spec fn view(&self) -> ElementView {
        ElementView { id: self.id, kind: self.element_type@, line_range: self.line_range }
    }
}

/// Map view of an association list: later entries override earlier ones.
pub open spec fn assoc_map(s: Seq<(ElementId, ElementState)>) -> Map<ElementId, ElementState>
    decreases s.len(),
{
    if s.len() == 0 {
        Map::empty()
    } else {
        assoc_map(s.drop_last()).insert(s.last().0, s.last().1)
    }
}

/// `i` is the last position of `id` in the association list.
pub open spec fn last_index_of(s: Seq<(ElementId, ElementState)>, id: ElementId, i: int) -> bool {
    0 <= i < s.len() && s[i].0 == id && forall|j: int| i < j < s.len() ==> s[j].0 != id
}

proof fn lemma_assoc_absent(s: Seq<(ElementId, ElementState)>, id: ElementId)
    requires
        forall|j: int| 0 <= j < s.len() ==> s[j].0 != id,
    ensures
        !assoc_map(s).contains_key(id),
    decreases s.len(),
{
    if s.len() > 0 {
        lemma_assoc_absent(s.drop_last(), id);
    }
}

proof fn lemma_assoc_last(s: Seq<(ElementId, ElementState)>, id: ElementId, i: int)
    requires
        last_index_of(s, id, i),
    ensures
        assoc_map(s).contains_key(id),
        assoc_map(s)[id] == s[i].1,
    decreases s.len(),
{
    if i < s.len() - 1 {
        lemma_assoc_last(s.drop_last(), id, i);
    }
}

proof fn lemma_assoc_update(s: Seq<(ElementId, ElementState)>, id: ElementId, i: int, v: ElementState)
    requires
        last_index_of(s, id, i),
    ensures
        assoc_map(s.update(i, (id, v))) == assoc_map(s).insert(id, v),
    decreases s.len(),
{
    if i == s.len() - 1 {
        assert(s.update(i, (id, v)).drop_last() =~= s.drop_last());
        assert(assoc_map(s.update(i, (id, v))) =~= assoc_map(s).insert(id, v));
    } else {
        lemma_assoc_update(s.drop_last(), id, i, v);
        assert(s.update(i, (id, v)).drop_last() =~= s.drop_last().update(i, (id, v)));
        assert(assoc_map(s.update(i, (id, v))) =~= assoc_map(s).insert(id, v));
    }
}

impl InteractiveState {
    /// The per-element states as a map.
    pub open spec fn states(&self) -> Map<ElementId, ElementState> {
        assoc_map(self.element_states@)
    }

    /// The elements as mathematical values.
    pub open spec fn element_views(&self) -> Seq<ElementView> {
        self.elements@.map_values(|e: InteractiveElement| e@)
    }

    /// The state stored for `id`, if any.
    pub open spec fn state_of(&self, id: ElementId) -> Option<ElementState> {
        if self.states().contains_key(id) {
            Some(self.states()[id])
        } else {
            None
        }
    }

    /// The table element that table mode is attached to, if any.
    pub open spec fn table_mode_element(&self) -> Option<usize> {
        match self.detail_mode {
            Some(DetailMode::Table { element_idx }) => Some(element_idx),
            _ => None,
        }
    }

    /// Selected `(row, col)` of the table that table mode is attached to.
    pub open spec fn table_cursor(&self) -> Option<(usize, usize)> {
        match self.table_mode_element() {
            Some(idx) => if idx < self.elements@.len() {
                match self.state_of(self.elements@[idx as int].id) {
                    Some(ElementState::Table { selected_row, selected_col }) => Some((selected_row, selected_col)),
                    _ => None,
                }
            } else {
                None
            },
            None => None,
        }
    }
}

// ---------------------------------------------------------------------------
// Association-list operations
// ---------------------------------------------------------------------------

/// Position of the last entry for `id`.
fn find_state(states: &Vec<(ElementId, ElementState)>, id: ElementId) -> (r: Option<usize>)
    ensures
        match r {
            Some(i) => last_index_of(states@, id, i as int),
            None => forall|j: int| 0 <= j < states@.len() ==> states@[j].0 != id,
        },
{
    let mut k = states.len();
    while k > 0
        invariant
            k <= states.len(),
            forall|j: int| k <= j < states@.len() ==> states@[j].0 != id,
        decreases k,
    {
        k -= 1;
        if states[k].0 == id {
            return Some(k);
        }
    }
    None
}

/// The state stored for `id`.
fn lookup_state(states: &Vec<(ElementId, ElementState)>, id: ElementId) -> (r: Option<ElementState>)
    ensures
        r == (if assoc_map(states@).contains_key(id) { Some(assoc_map(states@)[id]) } else { None }),
{
    match find_state(states, id) {
        Some(i) => {
            proof { lemma_assoc_last(states@, id, i as int); }
            Some(states[i].1)
        },
        None => {
            proof { lemma_assoc_absent(states@, id); }
            None
        },
    }
}

/// Stores `v` for `id`.
fn set_state(states: &mut Vec<(ElementId, ElementState)>, id: ElementId, v: ElementState)
    ensures
        assoc_map(final(states)@) == assoc_map(old(states)@).insert(id, v),
{
    match find_state(states, id) {
        Some(i) => {
            proof { lemma_assoc_update(states@, id, i as int, v); }
            states.set(i, (id, v));
        },
        None => {
            states.push((id, v));
            assert(states@.drop_last() =~= old(states)@);
        },
    }
}

/// Stores `v` for `id` unless a state is already stored (`HashMap::entry(..).or_insert(..)`).
fn insert_state_if_absent(states: &mut Vec<(ElementId, ElementState)>, id: ElementId, v: ElementState)
    ensures
        assoc_map(final(states)@) == (if assoc_map(old(states)@).contains_key(id) {
            assoc_map(old(states)@)
        } else {
            assoc_map(old(states)@).insert(id, v)
        }),
{
    match find_state(states, id) {
        Some(i) => {
            proof { lemma_assoc_last(states@, id, i as int); }
        },
        None => {
            proof { lemma_assoc_absent(states@, id); }
            states.push((id, v));
            assert(states@.drop_last() =~= old(states)@);
        },
    }
}

// ---------------------------------------------------------------------------
// Indexing specification
// ---------------------------------------------------------------------------

/// Views of a sequence of elements.
pub open spec fn views(v: Seq<InteractiveElement>) -> Seq<ElementView> {
    v.map_values(|e: InteractiveElement| e@)
}

/// The link element for `text`/`url` with identifier `id` on rendered line `line`.
pub open spec fn link_element(text: Seq<char>, url: Seq<char>, id: ElementId, line: int) -> ElementView {
    ElementView {
        id,
        kind: ElementKind::Link { text, target: link_target_of(url), offset: 0, line_idx: line as usize },
        line_range: (line as usize, (line + 1) as usize),
    }
}

/// Sub-index of the `j`-th inline element: its position in a paragraph, or
/// `item * 1000 + j + 100` inside list item `item` (kept apart from checkbox indices).
pub open spec fn link_sub_idx(item: Option<usize>, j: int) -> int {
    match item {
        None => j,
        Some(i) => i * 1000 + j + 100,
    }
}

/// Link elements among the first `n` inline elements, all on line `line`.
pub open spec fn inline_links(inline: Seq<InlineElement>, n: int, block_idx: usize, item: Option<usize>, line: int) -> Seq<ElementView>
    decreases n,
{
    if n <= 0 || n > inline.len() {
        seq![]
    } else {
        let prev = inline_links(inline, n - 1, block_idx, item, line);
        match inline[n - 1] {
            InlineElement::Link { text, url } => prev.push(link_element(
                text@,
                url@,
                ElementId { block_idx, sub_idx: Some(link_sub_idx(item, n - 1) as usize) },
                line,
            )),
            _ => prev,
        }
    }
}

/// Elements of one list item on line `line`: its checkbox (for task items), then its links.
pub open spec fn item_elements(item: ListItem, block_idx: usize, item_idx: int, line: int) -> Seq<ElementView> {
    let checkbox = match item.checked {
        Some(c) => seq![ElementView {
            id: ElementId { block_idx, sub_idx: Some(item_idx as usize) },
            kind: ElementKind::Checkbox { content: item.content@, checked: c, block_idx, item_idx: item_idx as usize },
            line_range: (line as usize, (line + 1) as usize),
        }],
        None => seq![],
    };
    checkbox + inline_links(item.inline@, item.inline@.len() as int, block_idx, Some(item_idx as usize), line)
}

/// Elements of the first `n` items of a list starting on line `start` (one line per item).
pub open spec fn list_elements(items: Seq<ListItem>, n: int, block_idx: usize, start: int) -> Seq<ElementView>
    decreases n,
{
    if n <= 0 || n > items.len() {
        seq![]
    } else {
        list_elements(items, n - 1, block_idx, start) + item_elements(items[n - 1], block_idx, n - 1, start + n - 1)
    }
}

/// Whether the details block `id` is shown expanded under `st`.
pub open spec fn expanded_in(st: Map<ElementId, ElementState>, id: ElementId) -> bool {
    st.contains_key(id) && st[id] == (ElementState::Details { expanded: true })
}

/// `HashMap::entry(id).or_insert(v)` on a map.
pub open spec fn or_insert(st: Map<ElementId, ElementState>, id: ElementId, v: ElementState) -> Map<ElementId, ElementState> {
    if st.contains_key(id) { st } else { st.insert(id, v) }
}

/// Indexing one block starting on line `line`: the elements it contributes,
/// the states afterwards, and the number of rendered lines it takes.
pub open spec fn block_step(b: Block, bi: usize, line: int, st: Map<ElementId, ElementState>) -> (Seq<ElementView>, Map<ElementId, ElementState>, int) {
    let id = ElementId { block_idx: bi, sub_idx: None };
    match b {
        Block::Details { summary, blocks } => {
            let lines = 1 + if expanded_in(st, id) { blocks_lines(blocks@, blocks@.len() as int) as int } else { 0 };
            (
                seq![ElementView {
                    id,
                    kind: ElementKind::Details { summary: summary@, block_idx: bi },
                    line_range: (line as usize, (line + lines) as usize),
                }],
                or_insert(st, id, ElementState::Details { expanded: false }),
                lines,
            )
        },
        Block::Paragraph { inline, .. } => (inline_links(inline@, inline@.len() as int, bi, None, line), st, 1),
        Block::List { items, .. } => (list_elements(items@, items@.len() as int, bi, line), st, items@.len() as int),
        Block::Code { language, content } => {
            let lines: int = 2 + line_count(content@) as int;
            (
                seq![ElementView {
                    id,
                    kind: ElementKind::CodeBlock {
                        language: match language {
                            Some(l) => Some(l@),
                            None => None,
                        },
                        content: content@,
                        block_idx: bi,
                    },
                    line_range: (line as usize, (line + lines) as usize),
                }],
                st,
                lines,
            )
        },
        Block::Table { headers, rows, .. } => {
            let lines: int = 4 + rows@.len() as int;
            (
                seq![ElementView {
                    id,
                    kind: ElementKind::Table { rows: rows@.len() as usize, cols: headers@.len() as usize, block_idx: bi },
                    line_range: (line as usize, (line + lines) as usize),
                }],
                or_insert(st, id, ElementState::Table { selected_row: 0, selected_col: 0 }),
                lines,
            )
        },
        Block::Image { alt, src } => (
            seq![ElementView {
                id,
                kind: ElementKind::Image { alt: alt@, src: src@, block_idx: bi },
                line_range: (line as usize, (line + 1) as usize),
            }],
            st,
            1,
        ),
        _ => (seq![], st, block_lines(b) as int),
    }
}

/// Indexing the first `k` blocks: elements, states, and the next free line
/// (each block is followed by one blank rendered line).
pub open spec fn index_upto(bs: Seq<Block>, k: int, st: Map<ElementId, ElementState>) -> (Seq<ElementView>, Map<ElementId, ElementState>, int)
    decreases k,
{
    if k <= 0 || k > bs.len() {
        (seq![], st, 0)
    } else {
        let prev = index_upto(bs, k - 1, st);
        let step = block_step(bs[k - 1], (k - 1) as usize, prev.2, prev.1);
        (prev.0 + step.0, step.1, prev.2 + step.2 + 1)
    }
}

/// Sub-indices of list-item links stay within `usize`.
pub open spec fn list_links_fit(bs: Seq<Block>) -> bool {
    forall|b: int| #![trigger bs[b]] 0 <= b < bs.len() ==> match bs[b] {
        Block::List { items, .. } => forall|i: int| #![trigger items@[i]] 0 <= i < items@.len() ==>
            i * 1000 + items@[i].inline@.len() + 100 <= usize::MAX,
        _ => true,
    }
}

/// The selection after re-indexing: dropped when nothing is left, reset to the
/// first element when it falls off the end, kept otherwise.
pub open spec fn reindexed_selection(sel: Option<usize>, len: nat) -> Option<usize> {
    match sel {
        Some(idx) => if len == 0 { None } else if idx >= len { Some(0) } else { Some(idx) },
        None => None,
    }
}

proof fn lemma_step_lines_nonneg(b: Block, bi: usize, line: int, st: Map<ElementId, ElementState>)
    ensures
        block_step(b, bi, line, st).2 >= 0,
{
}

/// The next free line never decreases while indexing.
pub proof fn lemma_index_lines_mono(bs: Seq<Block>, i: int, j: int, st: Map<ElementId, ElementState>)
    requires
        0 <= i <= j <= bs.len(),
    ensures
        0 <= index_upto(bs, i, st).2 <= index_upto(bs, j, st).2,
    decreases j,
{
    if j > 0 {
        let i2 = if i < j { i } else { j - 1 };
        lemma_index_lines_mono(bs, i2, j - 1, st);
        let prev = index_upto(bs, j - 1, st);
        lemma_step_lines_nonneg(bs[j - 1], (j - 1) as usize, prev.2, prev.1);
    }
}

// ---------------------------------------------------------------------------
// Indexing
// ---------------------------------------------------------------------------

/// Appends an element.
fn push_element(v: &mut Vec<InteractiveElement>, e: InteractiveElement)
    ensures
        views(final(v)@) == views(old(v)@).push(e@),
{
    v.push(e);
    assert(views(v@) =~= views(old(v)@).push(e@));
}

/// The link element for `text`/`url` on `line`.
fn make_link_element(text: &String, url: &String, id: ElementId, line: usize) -> (e: InteractiveElement)
    requires
        line < usize::MAX,
    ensures
        e@ == link_element(text@, url@, id, line as int),
{
    let target = parse_link_target(url.as_str());
    InteractiveElement {
        id,
        element_type: ElementType::Link { link: Link::new(text.clone(), target, 0), line_idx: line },
        line_range: (line, line + 1),
    }
}

/// Appends the link elements of `inline` (all on `line`).
fn push_inline_links(
    elements: &mut Vec<InteractiveElement>,
    inline: &Vec<InlineElement>,
    block_idx: usize,
    item: Option<usize>,
    line: usize,
)
    requires
        line < usize::MAX,
        match item {
            Some(i) => i * 1000 + inline@.len() + 100 <= usize::MAX,
            None => true,
        },
    ensures
        views(final(elements)@) == views(old(elements)@) + inline_links(inline@, inline@.len() as int, block_idx, item, line as int),
{
    let mut j: usize = 0;
    while j < inline.len()
        invariant
            j <= inline.len(),
            line < usize::MAX,
            match item {
                Some(i) => i * 1000 + inline@.len() + 100 <= usize::MAX,
                None => true,
            },
            views(elements@) == views(old(elements)@) + inline_links(inline@, j as int, block_idx, item, line as int),
        decreases inline.len() - j,
    {
        let ghost before = views(elements@);
        match &inline[j] {
            InlineElement::Link { text, url } => {
                let sub = match item {
                    Some(i) => i * 1000 + j + 100,
                    None => j,
                };
                let id = ElementId { block_idx, sub_idx: Some(sub) };
                let e = make_link_element(text, url, id, line);
                push_element(elements, e);
                assert(views(elements@) =~= views(old(elements)@) + inline_links(inline@, j + 1, block_idx, item, line as int));
            },
            _ => {
                assert(inline_links(inline@, j + 1, block_idx, item, line as int) == inline_links(inline@, j as int, block_idx, item, line as int));
            },
        }
        j += 1;
    }
}

/// Appends the elements of a list whose first item is on line `start`.
fn push_list_elements(elements: &mut Vec<InteractiveElement>, items: &Vec<ListItem>, block_idx: usize, start: usize)
    requires
        start + items@.len() < usize::MAX,
        forall|i: int| #![trigger items@[i]] 0 <= i < items@.len() ==> i * 1000 + items@[i].inline@.len() + 100 <= usize::MAX,
    ensures
        views(final(elements)@) == views(old(elements)@) + list_elements(items@, items@.len() as int, block_idx, start as int),
{
    let mut i: usize = 0;
    while i < items.len()
        invariant
            i <= items.len(),
            start + items@.len() < usize::MAX,
            forall|k: int| #![trigger items@[k]] 0 <= k < items@.len() ==> k * 1000 + items@[k].inline@.len() + 100 <= usize::MAX,
            views(elements@) == views(old(elements)@) + list_elements(items@, i as int, block_idx, start as int),
        decreases items.len() - i,
    {
        let item = &items[i];
        let line = start + i;
        let ghost mid0 = views(elements@);
        if let Some(checked) = item.checked {
            let e = InteractiveElement {
                id: ElementId { block_idx, sub_idx: Some(i) },
                element_type: ElementType::Checkbox {
                    content: item.content.clone(),
                    checked,
                    block_idx,
                    item_idx: i,
                },
                line_range: (line, line + 1),
            };
            push_element(elements, e);
        }
        let ghost mid1 = views(elements@);
        assert(items@[i as int] == *item);
        push_inline_links(elements, &item.inline, block_idx, Some(i), line);
        proof {
            let cb = match item.checked {
                Some(c) => seq![ElementView {
                    id: ElementId { block_idx, sub_idx: Some(i) },
                    kind: ElementKind::Checkbox { content: item.content@, checked: c, block_idx, item_idx: i },
                    line_range: (line, (line + 1) as usize),
                }],
                None => seq![],
            };
            assert(mid1 =~= mid0 + cb);
            assert(views(elements@) =~= views(old(elements)@) + list_elements(items@, i + 1, block_idx, start as int));
        }
        i += 1;
    }
}

impl InteractiveState {
    /// An empty state: no elements, no selection.
    pub fn new() -> (s: InteractiveState)
        ensures
            s.elements@.len() == 0,
            s.current_index is None,
            s.states() == Map::<ElementId, ElementState>::empty(),
            s.detail_mode is None,
    {
        InteractiveState { elements: Vec::new(), current_index: None, element_states: Vec::new(), detail_mode: None }
    }

    /// Build element index from parsed blocks.
    pub fn index_elements(&mut self, blocks: &[Block])
        requires
            index_upto(blocks@, blocks@.len() as int, old(self).states()).2 <= usize::MAX,
            list_links_fit(blocks@),
        ensures
            final(self).element_views() == index_upto(blocks@, blocks@.len() as int, old(self).states()).0,
            final(self).states() == index_upto(blocks@, blocks@.len() as int, old(self).states()).1,
            final(self).current_index == reindexed_selection(old(self).current_index, final(self).elements@.len()),
            final(self).detail_mode == old(self).detail_mode,
    {
        let ghost st0 = self.states();
        let ghost total = index_upto(blocks@, blocks@.len() as int, st0).2;
        self.elements.clear();
        assert(views(self.elements@) =~= Seq::<ElementView>::empty());
        let mut current_line: usize = 0;
        let mut bi: usize = 0;
        while bi < blocks.len()
            invariant
                bi <= blocks.len(),
                total == index_upto(blocks@, blocks@.len() as int, st0).2,
                total <= usize::MAX,
                list_links_fit(blocks@),
                views(self.elements@) == index_upto(blocks@, bi as int, st0).0,
                self.states() == index_upto(blocks@, bi as int, st0).1,
                current_line as int == index_upto(blocks@, bi as int, st0).2,
                self.detail_mode == old(self).detail_mode,
                self.current_index == old(self).current_index,
            decreases blocks.len() - bi,
        {
            proof { lemma_index_lines_mono(blocks@, bi + 1, blocks@.len() as int, st0); }
            let ghost prev = index_upto(blocks@, bi as int, st0);
            let ghost step = block_step(blocks@[bi as int], bi, prev.2, prev.1);
            assert(index_upto(blocks@, bi + 1, st0) == (prev.0 + step.0, step.1, prev.2 + step.2 + 1));
            let lines = self.index_block(&blocks[bi], bi, current_line, Ghost(total), Ghost(blocks@), Ghost(bi as int));
            current_line = current_line + lines + 1;
            bi += 1;
        }
        if self.current_index.is_some() {
            if self.elements.len() == 0 {
                self.current_index = None;
            } else if let Some(idx) = self.current_index {
                if idx >= self.elements.len() {
                    self.current_index = Some(0);
                }
            }
        }
        proof {
            assert(views(self.elements@).len() == self.elements@.len());
        }
    }

    /// Indexes one block starting on `line`; returns the lines it takes.
    fn index_block(
        &mut self,
        block: &Block,
        bi: usize,
        line: usize,
        Ghost(total): Ghost<int>,
        Ghost(bs): Ghost<Seq<Block>>,
        Ghost(k): Ghost<int>,
    ) -> (lines: usize)
        requires
            0 <= k < bs.len(),
            bs[k] == *block,
            k == bi,
            list_links_fit(bs),
            line as int + block_step(*block, bi, line as int, old(self).states()).2 + 1 <= total,
            total <= usize::MAX,
        ensures
            lines as int == block_step(*block, bi, line as int, old(self).states()).2,
            views(final(self).elements@) == views(old(self).elements@) + block_step(*block, bi, line as int, old(self).states()).0,
            final(self).states() == block_step(*block, bi, line as int, old(self).states()).1,
            final(self).detail_mode == old(self).detail_mode,
            final(self).current_index == old(self).current_index,
    {
        let id = ElementId { block_idx: bi, sub_idx: None };
        match block {
            Block::Details { summary, blocks: nested } => {
                let expanded = self.is_details_expanded(id);
                let lines = if expanded {
                    proof { lemma_blocks_lines_mono(nested@, nested@.len() as int, nested@.len() as int); }
                    1 + count_block_lines(nested.as_slice())
                } else {
                    1
                };
                let e = InteractiveElement {
                    id,
                    element_type: ElementType::Details { summary: summary.clone(), block_idx: bi },
                    line_range: (line, line + lines),
                };
                push_element(&mut self.elements, e);
                insert_state_if_absent(&mut self.element_states, id, ElementState::Details { expanded: false });
                lines
            },
            Block::Paragraph { inline, .. } => {
                push_inline_links(&mut self.elements, inline, bi, None, line);
                1
            },
            Block::List { items, .. } => {
                assert(bs[k] matches Block::List { .. });
                push_list_elements(&mut self.elements, items, bi, line);
                items.len()
            },
            Block::Code { language, content } => {
                let lines = 2 + count_lines(content.as_str());
                let e = InteractiveElement {
                    id,
                    element_type: ElementType::CodeBlock { language: language.clone(), content: content.clone(), block_idx: bi },
                    line_range: (line, line + lines),
                };
                push_element(&mut self.elements, e);
                lines
            },
            Block::Table { headers, rows, .. } => {
                let lines = 4 + rows.len();
                let e = InteractiveElement {
                    id,
                    element_type: ElementType::Table { rows: rows.len(), cols: headers.len(), block_idx: bi },
                    line_range: (line, line + lines),
                };
                push_element(&mut self.elements, e);
                insert_state_if_absent(&mut self.element_states, id, ElementState::Table { selected_row: 0, selected_col: 0 });
                lines
            },
            Block::Image { alt, src } => {
                let e = InteractiveElement {
                    id,
                    element_type: ElementType::Image { alt: alt.clone(), src: src.clone(), block_idx: bi },
                    line_range: (line, line + 1),
                };
                push_element(&mut self.elements, e);
                1
            },
            _ => {
                assert(views(self.elements@) =~= views(old(self).elements@) + Seq::<ElementView>::empty());
                count_single_block_lines_of(block)
            },
        }
    }

    /// Check if details block is expanded.
    pub fn is_details_expanded(&self, id: ElementId) -> (b: bool)
        ensures
            b == expanded_in(self.states(), id),
    {
        match lookup_state(&self.element_states, id) {
            Some(ElementState::Details { expanded: true }) => true,
            _ => false,
        }
    }
}

/// Height of a non-interactive block.
fn count_single_block_lines_of(block: &Block) -> (n: usize)
    requires
        block_lines(*block) <= usize::MAX,
    ensures
        n == block_lines(*block),
{
    crate::blocks::count_single_block_lines(block)
}


// ---------------------------------------------------------------------------
// Navigation and status
// ---------------------------------------------------------------------------

/// Selection after moving forward, wrapping from the last element to the first.
pub open spec fn next_index(cur: Option<usize>, len: nat) -> Option<usize> {
    if len == 0 {
        cur
    } else {
        Some(match cur {
            Some(idx) => if idx >= len - 1 { 0usize } else { (idx + 1) as usize },
            None => 0usize,
        })
    }
}

/// Selection after moving backward, wrapping from the first element to the last.
pub open spec fn previous_index(cur: Option<usize>, len: nat) -> Option<usize> {
    if len == 0 {
        cur
    } else {
        Some(match cur {
            Some(idx) => if idx == 0 { (len - 1) as usize } else { (idx - 1) as usize },
            None => (len - 1) as usize,
        })
    }
}

/// The status-bar hint for an element kind, around its `position` ("3/7").
pub open spec fn element_status(kind: ElementKind, position: Seq<char>) -> Seq<char> {
    match kind {
        ElementKind::Details { .. } => "[INTERACTIVE] Details("@ + position + ") | Enter:Toggle Tab:Next Esc:Exit"@,
        ElementKind::Link { .. } => "[INTERACTIVE] Link("@ + position + ") | Enter:Follow y:Copy Tab:Next Esc:Exit"@,
        ElementKind::Checkbox { .. } => "[INTERACTIVE] Checkbox("@ + position + ") | Space:Toggle Tab:Next Esc:Exit"@,
        ElementKind::CodeBlock { .. } => "[INTERACTIVE] Code("@ + position + ") | y:Copy Tab:Next Esc:Exit"@,
        ElementKind::Table { .. } => "[INTERACTIVE] Table("@ + position + ") | Enter:Navigate y:Copy Tab:Next Esc:Exit"@,
        ElementKind::Image { .. } => "[INTERACTIVE] Image("@ + position + ") | i:Info y:Copy Tab:Next Esc:Exit"@,
    }
}

/// The status-bar text of interactive mode.
pub open spec fn status_text_spec(elements: Seq<ElementView>, cur: Option<usize>) -> Seq<char> {
    match cur {
        Some(idx) if idx < elements.len() => element_status(
            elements[idx as int].kind,
            decimal((idx + 1) as nat) + "/"@ + decimal(elements.len()),
        ),
        _ => if elements.len() == 0 {
            "[INTERACTIVE] No interactive elements in this section | Esc:Exit"@
        } else {
            "[INTERACTIVE] Tab:Next Shift+Tab:Previous Esc:Exit"@
        },
    }
}

/// The status-bar text of table mode.
pub open spec fn table_status_spec(cursor: Option<(usize, usize)>) -> Seq<char> {
    match cursor {
        Some((r, c)) => "[TABLE] Cell("@ + decimal((r + 1) as nat) + ","@ + decimal((c + 1) as nat)
            + ") | hjkl:Move y:Copy Y:CopyRow r:CopyTable Esc:Exit"@,
        None => "[TABLE] hjkl:Move y:Copy Esc:Exit"@,
    }
}

/// A string holding the characters of a literal.
fn owned(t: &str) -> (s: String)
    ensures
        s@ == t@,
{
    let mut s = String::new();
    push_str(&mut s, t);
    s
}

impl InteractiveState {
    /// Get the currently selected element.
    pub fn current_element(&self) -> (r: Option<&InteractiveElement>)
        ensures
            match self.current_index {
                Some(idx) => if idx < self.elements@.len() {
                    r == Some(&self.elements@[idx as int])
                } else {
                    r is None
                },
                None => r is None,
            },
    {
        match self.current_index {
            Some(idx) => if idx < self.elements.len() { Some(&self.elements[idx]) } else { None },
            None => None,
        }
    }

    /// The line range of the current element, when one is selected.
    pub open spec fn current_line_range(&self) -> Option<(usize, usize)> {
        match self.current_index {
            Some(idx) => if idx < self.elements@.len() {
                Some(self.elements@[idx as int].line_range)
            } else {
                None
            },
            None => None,
        }
    }

    /// Get the line range of the current element for scrolling.
    pub fn current_element_line_range(&self) -> (r: Option<(usize, usize)>)
        ensures
            r == self.current_line_range(),
    {
        match self.current_element() {
            Some(e) => Some(e.line_range),
            None => None,
        }
    }

    /// Move to next element.
    pub fn next(&mut self)
        ensures
            final(self).current_index == next_index(old(self).current_index, old(self).elements@.len()),
            final(self).elements == old(self).elements,
            final(self).element_states == old(self).element_states,
            final(self).detail_mode == old(self).detail_mode,
    {
        if self.elements.len() == 0 {
            return;
        }
        self.current_index = Some(match self.current_index {
            Some(idx) => if idx >= self.elements.len() - 1 { 0 } else { idx + 1 },
            None => 0,
        });
    }

    /// Move to previous element.
    pub fn previous(&mut self)
        ensures
            final(self).current_index == previous_index(old(self).current_index, old(self).elements@.len()),
            final(self).elements == old(self).elements,
            final(self).element_states == old(self).element_states,
            final(self).detail_mode == old(self).detail_mode,
    {
        if self.elements.len() == 0 {
            return;
        }
        self.current_index = Some(match self.current_index {
            Some(idx) => if idx == 0 { self.elements.len() - 1 } else { idx - 1 },
            None => self.elements.len() - 1,
        });
    }

    /// Toggle details block expansion.
    pub fn toggle_details(&mut self, id: ElementId)
        ensures
            final(self).states() == match old(self).state_of(id) {
                Some(ElementState::Details { expanded }) => old(self).states().insert(id, ElementState::Details { expanded: !expanded }),
                _ => old(self).states(),
            },
            final(self).elements == old(self).elements,
            final(self).current_index == old(self).current_index,
            final(self).detail_mode == old(self).detail_mode,
    {
        if let Some(ElementState::Details { expanded }) = lookup_state(&self.element_states, id) {
            set_state(&mut self.element_states, id, ElementState::Details { expanded: !expanded });
        }
    }

    /// Get status bar text for current element.
    pub fn status_text(&self) -> (s: String)
        ensures
            s@ == status_text_spec(self.element_views(), self.current_index),
    {
        match self.current_index {
            Some(idx) if idx < self.elements.len() => {
                let element = &self.elements[idx];
                let mut position = decimal_string((idx + 1) as u64);
                push_str(&mut position, "/");
                let total = decimal_string(self.elements.len() as u64);
                push_str(&mut position, total.as_str());
                let (head, tail) = match &element.element_type {
                    ElementType::Details { .. } => ("[INTERACTIVE] Details(", ") | Enter:Toggle Tab:Next Esc:Exit"),
                    ElementType::Link { .. } => ("[INTERACTIVE] Link(", ") | Enter:Follow y:Copy Tab:Next Esc:Exit"),
                    ElementType::Checkbox { .. } => ("[INTERACTIVE] Checkbox(", ") | Space:Toggle Tab:Next Esc:Exit"),
                    ElementType::CodeBlock { .. } => ("[INTERACTIVE] Code(", ") | y:Copy Tab:Next Esc:Exit"),
                    ElementType::Table { .. } => ("[INTERACTIVE] Table(", ") | Enter:Navigate y:Copy Tab:Next Esc:Exit"),
                    ElementType::Image { .. } => ("[INTERACTIVE] Image(", ") | i:Info y:Copy Tab:Next Esc:Exit"),
                };
                let mut s = owned(head);
                push_str(&mut s, position.as_str());
                push_str(&mut s, tail);
                proof {
                    assert(self.element_views()[idx as int] == self.elements@[idx as int]@);
                }
                s
            },
            _ => {
                if self.elements.len() == 0 {
                    owned("[INTERACTIVE] No interactive elements in this section | Esc:Exit")
                } else {
                    owned("[INTERACTIVE] Tab:Next Shift+Tab:Previous Esc:Exit")
                }
            },
        }
    }

    /// Enter interactive mode (select first element).
    pub fn enter(&mut self)
        ensures
            final(self).current_index == (if old(self).elements@.len() > 0 { Some(0usize) } else { old(self).current_index }),
            final(self).elements == old(self).elements,
            final(self).element_states == old(self).element_states,
            final(self).detail_mode == old(self).detail_mode,
    {
        if self.elements.len() > 0 {
            self.current_index = Some(0);
        }
    }

    /// Exit interactive mode.
    pub fn exit(&mut self)
        ensures
            final(self).current_index is None,
            final(self).detail_mode is None,
            final(self).elements == old(self).elements,
            final(self).element_states == old(self).element_states,
    {
        self.current_index = None;
        self.detail_mode = None;
    }

    /// Check if in interactive mode.
    pub fn is_active(&self) -> (b: bool)
        ensures
            b == self.current_index is Some,
    {
        self.current_index.is_some()
    }

    /// Enter table navigation mode.
    pub fn enter_table_mode(&mut self) -> (r: Result<(), String>)
        ensures
            match old(self).current_index {
                Some(idx) if idx < old(self).elements@.len()
                    && old(self).elements@[idx as int].element_type is Table => {
                    &&& r is Ok
                    &&& final(self).detail_mode == Some(DetailMode::Table { element_idx: idx })
                },
                _ => {
                    &&& r matches Err(e) && e@ == "Not on a table element"@
                    &&& final(self).detail_mode == old(self).detail_mode
                },
            },
            final(self).current_index == old(self).current_index,
            final(self).elements == old(self).elements,
            final(self).element_states == old(self).element_states,
    {
        if let Some(idx) = self.current_index {
            if idx < self.elements.len() {
                if let ElementType::Table { .. } = self.elements[idx].element_type {
                    self.detail_mode = Some(DetailMode::Table { element_idx: idx });
                    return Ok(());
                }
            }
        }
        Err(owned("Not on a table element"))
    }

    /// Exit table navigation mode.
    pub fn exit_table_mode(&mut self)
        ensures
            final(self).detail_mode is None,
            final(self).current_index == old(self).current_index,
            final(self).elements == old(self).elements,
            final(self).element_states == old(self).element_states,
    {
        self.detail_mode = None;
    }

    /// Check if in table navigation mode.
    pub fn is_in_table_mode(&self) -> (b: bool)
        ensures
            b == self.detail_mode matches Some(DetailMode::Table { .. }),
    {
        match self.detail_mode {
            Some(DetailMode::Table { .. }) => true,
            _ => false,
        }
    }

    /// The table state addressed by table mode, with its identifier.
    fn table_state(&self) -> (r: Option<(ElementId, usize, usize)>)
        ensures
            match r {
                Some((id, row, col)) => {
                    &&& self.table_cursor() == Some((row, col))
                    &&& self.table_mode_element() matches Some(idx) && idx < self.elements@.len()
                        && self.elements@[idx as int].id == id
                },
                None => self.table_cursor() is None,
            },
    {
        if let Some(DetailMode::Table { element_idx }) = self.detail_mode {
            if element_idx < self.elements.len() {
                let id = self.elements[element_idx].id;
                if let Some(ElementState::Table { selected_row, selected_col }) = lookup_state(&self.element_states, id) {
                    return Some((id, selected_row, selected_col));
                }
            }
        }
        None
    }

    /// Get table navigation status text.
    pub fn table_status_text(&self, _rows: usize, _cols: usize) -> (s: String)
        requires
            self.table_cursor() matches Some((r, c)) ==> r < usize::MAX && c < usize::MAX,
        ensures
            s@ == table_status_spec(self.table_cursor()),
    {
        match self.table_state() {
            Some((_, row, col)) => {
                let mut s = owned("[TABLE] Cell(");
                let r = decimal_string((row + 1) as u64);
                push_str(&mut s, r.as_str());
                push_str(&mut s, ",");
                let c = decimal_string((col + 1) as u64);
                push_str(&mut s, c.as_str());
                push_str(&mut s, ") | hjkl:Move y:Copy Y:CopyRow r:CopyTable Esc:Exit");
                s
            },
            None => owned("[TABLE] hjkl:Move y:Copy Esc:Exit"),
        }
    }
}

// ---------------------------------------------------------------------------
// Table cursor
// ---------------------------------------------------------------------------

/// String views of a row of cells.
pub open spec fn cells_view(cells: Seq<String>) -> Seq<Seq<char>> {
    cells.map_values(|c: String| c@)
}

/// Row `r` of a table whose row 0 is the header row.
pub open spec fn table_row_spec(headers: Seq<String>, rows: Seq<Vec<String>>, r: usize) -> Option<Seq<Seq<char>>> {
    if r == 0 {
        Some(cells_view(headers))
    } else if r - 1 < rows.len() {
        Some(cells_view(rows[r - 1]@))
    } else {
        None
    }
}

/// Cell `(r, c)` of a table whose row 0 is the header row.
pub open spec fn table_cell_spec(headers: Seq<String>, rows: Seq<Vec<String>>, r: usize, c: usize) -> Option<Seq<char>> {
    match table_row_spec(headers, rows, r) {
        Some(row) => if c < row.len() { Some(row[c as int]) } else { None },
        None => None,
    }
}

/// Copies a row of cells.
fn copy_cells(cells: &[String]) -> (v: Vec<String>)
    ensures
        cells_view(v@) == cells_view(cells@),
{
    let mut v: Vec<String> = Vec::new();
    let mut i: usize = 0;
    while i < cells.len()
        invariant
            i <= cells.len(),
            v@.len() == i,
            forall|k: int| 0 <= k < i ==> (#[trigger] v@[k])@ == cells@[k]@,
        decreases cells.len() - i,
    {
        let c = cells[i].clone();
        v.push(c);
        i += 1;
    }
    assert(cells_view(v@) =~= cells_view(cells@));
    v
}

impl InteractiveState {
    /// The state entry that table mode moves: the identifier of the table element.
    pub open spec fn table_id(&self) -> ElementId {
        self.elements@[self.table_mode_element().unwrap() as int].id
    }

    /// Move to next cell (right).
    pub fn table_move_right(&mut self, cols: usize)
        requires
            old(self).table_cursor() is Some ==> cols > 0,
        ensures
            final(self).states() == match old(self).table_cursor() {
                Some((r, c)) => if c + 1 < cols {
                    old(self).states().insert(old(self).table_id(), ElementState::Table { selected_row: r, selected_col: (c + 1) as usize })
                } else {
                    old(self).states()
                },
                None => old(self).states(),
            },
            final(self).elements == old(self).elements,
            final(self).current_index == old(self).current_index,
            final(self).detail_mode == old(self).detail_mode,
            final(self).table_cursor() == match old(self).table_cursor() {
                Some((r, c)) => Some(if c + 1 < cols { (r, (c + 1) as usize) } else { (r, c) }),
                None => None,
            },
    {
        if let Some((id, row, col)) = self.table_state() {
            if col < cols - 1 {
                set_state(&mut self.element_states, id, ElementState::Table { selected_row: row, selected_col: col + 1 });
            }
        }
    }

    /// Move to previous cell (left).
    pub fn table_move_left(&mut self)
        ensures
            final(self).states() == match old(self).table_cursor() {
                Some((r, c)) => if c > 0 {
                    old(self).states().insert(old(self).table_id(), ElementState::Table { selected_row: r, selected_col: (c - 1) as usize })
                } else {
                    old(self).states()
                },
                None => old(self).states(),
            },
            final(self).elements == old(self).elements,
            final(self).current_index == old(self).current_index,
            final(self).detail_mode == old(self).detail_mode,
            final(self).table_cursor() == match old(self).table_cursor() {
                Some((r, c)) => Some(if c > 0 { (r, (c - 1) as usize) } else { (r, c) }),
                None => None,
            },
    {
        if let Some((id, row, col)) = self.table_state() {
            if col > 0 {
                set_state(&mut self.element_states, id, ElementState::Table { selected_row: row, selected_col: col - 1 });
            }
        }
    }

    /// Move to next row (down).
    pub fn table_move_down(&mut self, rows: usize)
        requires
            old(self).table_cursor() is Some ==> rows > 0,
        ensures
            final(self).states() == match old(self).table_cursor() {
                Some((r, c)) => if r + 1 < rows {
                    old(self).states().insert(old(self).table_id(), ElementState::Table { selected_row: (r + 1) as usize, selected_col: c })
                } else {
                    old(self).states()
                },
                None => old(self).states(),
            },
            final(self).elements == old(self).elements,
            final(self).current_index == old(self).current_index,
            final(self).detail_mode == old(self).detail_mode,
            final(self).table_cursor() == match old(self).table_cursor() {
                Some((r, c)) => Some(if r + 1 < rows { ((r + 1) as usize, c) } else { (r, c) }),
                None => None,
            },
    {
        if let Some((id, row, col)) = self.table_state() {
            if row < rows - 1 {
                set_state(&mut self.element_states, id, ElementState::Table { selected_row: row + 1, selected_col: col });
            }
        }
    }

    /// Move to previous row (up).
    pub fn table_move_up(&mut self)
        ensures
            final(self).states() == match old(self).table_cursor() {
                Some((r, c)) => if r > 0 {
                    old(self).states().insert(old(self).table_id(), ElementState::Table { selected_row: (r - 1) as usize, selected_col: c })
                } else {
                    old(self).states()
                },
                None => old(self).states(),
            },
            final(self).elements == old(self).elements,
            final(self).current_index == old(self).current_index,
            final(self).detail_mode == old(self).detail_mode,
            final(self).table_cursor() == match old(self).table_cursor() {
                Some((r, c)) => Some(if r > 0 { ((r - 1) as usize, c) } else { (r, c) }),
                None => None,
            },
    {
        if let Some((id, row, col)) = self.table_state() {
            if row > 0 {
                set_state(&mut self.element_states, id, ElementState::Table { selected_row: row - 1, selected_col: col });
            }
        }
    }

    /// Get the currently selected table cell content.
    pub fn get_table_cell(&self, headers: &[String], rows: &[Vec<String>]) -> (r: Option<String>)
        ensures
            match self.table_cursor() {
                Some((row, col)) => match table_cell_spec(headers@, rows@, row, col) {
                    Some(c) => r matches Some(s) && s@ == c,
                    None => r is None,
                },
                None => r is None,
            },
    {
        if let Some((_, row, col)) = self.table_state() {
            if row == 0 {
                if col < headers.len() {
                    return Some(headers[col].clone());
                }
                return None;
            } else {
                let data_row = row - 1;
                if data_row < rows.len() && col < rows[data_row].len() {
                    return Some(rows[data_row][col].clone());
                }
                return None;
            }
        }
        None
    }

    /// Get the currently selected table row.
    pub fn get_table_row(&self, headers: &[String], rows: &[Vec<String>]) -> (r: Option<Vec<String>>)
        ensures
            match self.table_cursor() {
                Some((row, _)) => match table_row_spec(headers@, rows@, row) {
                    Some(cells) => r matches Some(v) && cells_view(v@) == cells,
                    None => r is None,
                },
                None => r is None,
            },
    {
        if let Some((_, row, _)) = self.table_state() {
            if row == 0 {
                return Some(copy_cells(headers));
            } else {
                let data_row = row - 1;
                if data_row < rows.len() {
                    return Some(copy_cells(rows[data_row].as_slice()));
                }
                return None;
            }
        }
        None
    }

    /// Get the selected cell position (row, col).
    pub fn get_table_position(&self) -> (r: Option<(usize, usize)>)
        ensures
            r == self.table_cursor(),
    {
        match self.table_state() {
            Some((_, row, col)) => Some((row, col)),
            None => None,
        }
    }
}

impl Default for InteractiveState {
    fn default() -> (s: InteractiveState)
        ensures
            s.elements@.len() == 0,
            s.current_index is None,
            s.states() == Map::<ElementId, ElementState>::empty(),
            s.detail_mode is None,
    {
        Self::new()
    }
}

} // verus!
