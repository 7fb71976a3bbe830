//! Following links: heading anchors, relative files, wikilinks and URLs.
//!
//! What the file system holds is not read here: the driver probes the
//! paths that [`App::link_probe_paths`] lists and hands in what it found,
//! and a file to be opened comes back as a [`LoadRequest`] that the driver
//! parses and passes to [`App::finish_load`].

use vstd::prelude::*;
use crate::app::{
    App, AppMode, Document, HeadingNode, LinkPicker, OutlineEntry, OutlineItem, PendingNavigation, document_wf, entries,
    outline_spec, shows_overview, string_from, text_set,
};
use crate::blocks::{Link, LinkTarget, LinkTargetView};
use crate::history::saved_on_back_stack;
use crate::text::{
    chars_of, contains, contains_spec, ends_with, find_from, find_from_spec, has_prefix, has_suffix, lemma_find_from_found, lowercase,
    push_range, push_str, split_char, split_chars, starts_with, str_eq, string_of, to_lowercase,
};

verus! {

broadcast use vstd::string::group_string_axioms;

// ---------------------------------------------------------------------------
// Paths
// ---------------------------------------------------------------------------

/// Name for what `Path::parent` gives of a path (as text).
pub uninterp spec fn parent_of(p: Seq<char>) -> Option<Seq<char>>;

/// Name for what `Path::join` gives of a base and a relative path (as text).
pub uninterp spec fn joined(base: Seq<char>, p: Seq<char>) -> Seq<char>;

/// Name for what `Path::file_name` gives of a path (as text).
pub uninterp spec fn file_name_of(p: Seq<char>) -> Option<Seq<char>>;

/// Name for what `Path::extension` gives of a path (as text).
pub uninterp spec fn extension_of(p: Seq<char>) -> Option<Seq<char>>;

/// The characters of an optional string.
pub open spec fn opt_chars(o: Option<String>) -> Option<Seq<char>> {
    match o {
        Some(s) => Some(s@),
        None => None,
    }
}

/// `Path::parent`: the path without its final component, `None` for a
/// root or an empty path. The contract only ties the result to [`parent_of`].
#[verifier::external_body]
pub(crate) fn path_parent(p: &str) -> (r: Option<String>)
    ensures
        opt_chars(r) == parent_of(p@),
{
    std::path::Path::new(p).parent().map(|q| q.to_string_lossy().into_owned())
}

/// `Path::join`. The contract only ties the result to [`joined`].
#[verifier::external_body]
pub(crate) fn path_join(base: &str, p: &str) -> (r: String)
    ensures
        r@ == joined(base@, p@),
{
    std::path::Path::new(base).join(p).to_string_lossy().into_owned()
}

/// `Path::file_name`: the final component, if it is a name. The contract
/// only ties the result to [`file_name_of`].
#[verifier::external_body]
pub(crate) fn path_file_name(p: &str) -> (r: Option<String>)
    ensures
        opt_chars(r) == file_name_of(p@),
{
    std::path::Path::new(p).file_name().map(|n| n.to_string_lossy().into_owned())
}

/// `Path::extension`: what follows the last `.` of the file name. The
/// contract only ties the result to [`extension_of`].
#[verifier::external_body]
pub(crate) fn path_extension(p: &str) -> (r: Option<String>)
    ensures
        opt_chars(r) == extension_of(p@),
{
    std::path::Path::new(p).extension().map(|e| e.to_string_lossy().into_owned())
}

/// Whether a path is absolute, as `Path::is_absolute` decides on Unix: it
/// starts with the root `/`.
pub(crate) fn path_is_absolute(p: &str) -> (b: bool)
    ensures
        b == (p@.len() > 0 && p@[0] == '/'),
{
    let v = chars_of(p);
    v.len() > 0 && v[0] == '/'
}

/// The two characters `..`.
pub open spec fn dot_dot() -> Seq<char> {
    seq!['.', '.']
}

/// The path has a `..` component: one of its `/`-separated pieces is `..`.
pub open spec fn has_parent_component_spec(p: Seq<char>) -> bool {
    exists|k: int| 0 <= k < split_char(p, '/').len() && #[trigger] split_char(p, '/')[k] == dot_dot()
}

/// Whether a path has a `..` component.
pub fn has_parent_component(p: &str) -> (b: bool)
    ensures
        b == has_parent_component_spec(p@),
{
    let v = chars_of(p);
    let parts = split_chars(&v, '/');
    let mut i: usize = 0;
    while i < parts.len()
        invariant
            v@ == p@,
            i <= parts@.len(),
            parts@.len() == split_char(v@, '/').len(),
            forall|k: int| 0 <= k < parts@.len() ==> (#[trigger] parts@[k])@ == split_char(v@, '/')[k],
            forall|k: int| 0 <= k < i ==> split_char(v@, '/')[k] != dot_dot(),
        decreases parts@.len() - i,
    {
        let part = &parts[i];
        if part.len() == 2 && part[0] == '.' && part[1] == '.' {
            assert(part@ =~= dot_dot());
            return true;
        }
        assert(parts@[i as int]@ != dot_dot());
        i += 1;
    }
    false
}

/// The lowercased extension names a markdown file.
pub open spec fn is_markdown_extension(ext: Seq<char>) -> bool {
    let l = lowercase(ext);
    l == "md"@ || l == "markdown"@ || l == "mdown"@
}

/// The path's extension, lowercased, is `md`, `markdown` or `mdown`.
pub open spec fn has_md_extension_spec(p: Seq<char>) -> bool {
    match extension_of(p) {
        Some(e) => is_markdown_extension(e),
        None => false,
    }
}

/// Whether the path's extension names a markdown file.
pub fn has_md_extension(p: &str) -> (b: bool)
    ensures
        b == has_md_extension_spec(p@),
{
    match path_extension(p) {
        Some(e) => {
            let l = to_lowercase(e.as_str());
            proof {
                reveal_strlit("md");
                reveal_strlit("markdown");
                reveal_strlit("mdown");
            }
            str_eq(l.as_str(), "md") || str_eq(l.as_str(), "markdown") || str_eq(l.as_str(), "mdown")
        },
        None => false,
    }
}

// ---------------------------------------------------------------------------
// Anchors
// ---------------------------------------------------------------------------

/// Name for what `turbovault_parser::slugify` gives of a heading's text:
/// its anchor.
pub uninterp spec fn slug(text: Seq<char>) -> Seq<char>;

/// `turbovault_parser::slugify`: a heading's anchor (lowercased, with
/// whitespace as `-` and other characters that are not letters or digits
/// dropped). The contract only ties the result to [`slug`].
#[verifier::external_body]
pub(crate) fn heading_to_anchor(heading: &str) -> (s: String)
    ensures
        s@ == slug(heading@),
{
    turbovault_parser::slugify(heading)
}

/// A character's code with ASCII upper case letters made lower case.
pub open spec fn ascii_lower_code(c: char) -> u32 {
    let u = c as u32;
    if 65 <= u <= 90 { (u + 32) as u32 } else { u }
}

/// `str::eq_ignore_ascii_case`: same length and equal characters up to
/// ASCII case.
pub open spec fn eq_ignore_ascii_case_spec(a: Seq<char>, b: Seq<char>) -> bool {
    &&& a.len() == b.len()
    &&& forall|i: int| 0 <= i < a.len() ==> #[trigger] ascii_lower_code(a[i]) == ascii_lower_code(b[i])
}

fn ascii_lower(c: char) -> (u: u32)
    ensures
        u == ascii_lower_code(c),
{
    let u = c as u32;
    if 65 <= u && u <= 90 { u + 32 } else { u }
}

/// Whether two texts are equal up to ASCII case.
pub fn eq_ignore_ascii_case(a: &str, b: &str) -> (r: bool)
    ensures
        r == eq_ignore_ascii_case_spec(a@, b@),
{
    let va = chars_of(a);
    let vb = chars_of(b);
    if va.len() != vb.len() {
        return false;
    }
    let mut i: usize = 0;
    while i < va.len()
        invariant
            va@ == a@,
            vb@ == b@,
            va@.len() == vb@.len(),
            i <= va@.len(),
            forall|k: int| 0 <= k < i ==> #[trigger] ascii_lower_code(va@[k]) == ascii_lower_code(vb@[k]),
        decreases va@.len() - i,
    {
        if ascii_lower(va[i]) != ascii_lower(vb[i]) {
            return false;
        }
        i += 1;
    }
    true
}

/// A heading text answers an anchor: its slug is the lowercased anchor,
/// or it equals the anchor up to ASCII case.
pub open spec fn answers_anchor(text: Seq<char>, anchor: Seq<char>) -> bool {
    slug(text) == lowercase(anchor) || eq_ignore_ascii_case_spec(text, anchor)
}

/// The first outline entry at or after `i` whose text answers the anchor.
pub open spec fn first_anchor_from(es: Seq<OutlineEntry>, anchor: Seq<char>, i: int) -> Option<int>
    decreases es.len() - i,
{
    if i < 0 || i >= es.len() {
        None
    } else if answers_anchor(es[i].1, anchor) {
        Some(i)
    } else {
        first_anchor_from(es, anchor, i + 1)
    }
}

proof fn lemma_first_anchor_range(es: Seq<OutlineEntry>, anchor: Seq<char>, i: int)
    ensures
        first_anchor_from(es, anchor, i) matches Some(k) ==> i <= k < es.len(),
    decreases es.len() - i,
{
    if 0 <= i < es.len() && !answers_anchor(es[i].1, anchor) {
        lemma_first_anchor_range(es, anchor, i + 1);
    }
}

/// `Heading '<anchor>' not found`.
pub open spec fn heading_not_found(anchor: Seq<char>) -> Seq<char> {
    "Heading '"@ + anchor + "' not found"@
}

impl App {
    /// Jump to the first heading whose anchor is the given one (the
    /// heading's slug equals the lowercased anchor) or whose text equals
    /// it up to ASCII case.
    pub fn jump_to_anchor(&mut self, anchor: &str) -> (r: Result<(), String>)
        ensures
            match first_anchor_from(entries(old(self).outline.items@), anchor@, 0) {
                Some(k) => r is Ok && *final(self) == old(self).with_selected(Some(k as usize)),
                None => r matches Err(e) && e@ == heading_not_found(anchor@) && *final(self) == *old(self),
            },
    {
        let anchor_lower = to_lowercase(anchor);
        let ghost es = entries(self.outline.items@);
        let mut idx: usize = 0;
        while idx < self.outline.items.len()
            invariant
                *self == *old(self),
                es == entries(self.outline.items@),
                anchor_lower@ == lowercase(anchor@),
                idx <= self.outline.items@.len(),
                first_anchor_from(es, anchor@, 0) == first_anchor_from(es, anchor@, idx as int),
            decreases self.outline.items@.len() - idx,
        {
            let slug_text = heading_to_anchor(self.outline.items[idx].text.as_str());
            let hit = str_eq(slug_text.as_str(), anchor_lower.as_str())
                || eq_ignore_ascii_case(self.outline.items[idx].text.as_str(), anchor);
            assert(es[idx as int].1 == self.outline.items@[idx as int].text@);
            if hit {
                self.select_outline_index(idx);
                return Ok(());
            }
            idx += 1;
        }
        let mut e = string_from("Heading '");
        push_str(&mut e, anchor);
        push_str(&mut e, "' not found");
        proof {
            reveal_strlit("Heading '");
            reveal_strlit("' not found");
        }
        Err(e)
    }
}

// ---------------------------------------------------------------------------
// Loading files
// ---------------------------------------------------------------------------

/// What the file system reports of a path.
#[derive(Debug, Clone, Copy, PartialEq, Eq, Structural)]
pub struct PathInfo {
    pub exists: bool,
    pub is_symlink: bool,
    /// The path and the current file's directory both resolve, and the
    /// path's canonical form lies outside that directory.
    pub escapes_base: bool,
}

/// What is known of a path: the first entry for it, else nothing (it does
/// not exist).
pub open spec fn info_from(facts: Seq<(String, PathInfo)>, p: Seq<char>, i: int) -> PathInfo
    decreases facts.len() - i,
{
    if i < 0 || i >= facts.len() {
        PathInfo { exists: false, is_symlink: false, escapes_base: false }
    } else if facts[i].0@ == p {
        facts[i].1
    } else {
        info_from(facts, p, i + 1)
    }
}

/// What `facts` report of the path `p`.
pub open spec fn info_of(facts: Seq<(String, PathInfo)>, p: Seq<char>) -> PathInfo {
    info_from(facts, p, 0)
}

/// The path exists and is not a symbolic link.
pub open spec fn usable(i: PathInfo) -> bool {
    i.exists && !i.is_symlink
}

/// What `facts` report of a path.
pub fn lookup_info(facts: &Vec<(String, PathInfo)>, p: &str) -> (r: PathInfo)
    ensures
        r == info_of(facts@, p@),
{
    let mut i: usize = 0;
    while i < facts.len()
        invariant
            i <= facts@.len(),
            info_of(facts@, p@) == info_from(facts@, p@, i as int),
        decreases facts@.len() - i,
    {
        if str_eq(facts[i].0.as_str(), p) {
            return facts[i].1;
        }
        i += 1;
    }
    PathInfo { exists: false, is_symlink: false, escapes_base: false }
}

/// What to do once a requested file has been parsed.
#[derive(Debug, Clone, PartialEq, Eq)]
pub enum LoadOrigin {
    /// A link followed in link follow mode: show this status (if any) and
    /// leave the mode.
    LinkFollow(Option<String>),
    /// A link followed in interactive mode: leave the mode.
    Interactive,
    /// A navigation that waited for unsaved changes to be settled.
    PendingNavigation,
    /// A file just created: show this status and leave link follow mode.
    Created(String),
}

/// A file to parse and load, with the anchor to jump to.
#[derive(Debug, Clone, PartialEq, Eq)]
pub struct LoadRequest {
    /// Absolute path of the file.
    pub path: String,
    pub anchor: Option<String>,
    pub origin: LoadOrigin,
}

/// What navigating to a relative path does.
pub enum Nav {
    /// Fails with this message.
    Fail(Seq<char>),
    /// Asks whether to create this file, with this message.
    Prompt(Seq<char>, Seq<char>),
    /// Waits until the unsaved changes are saved or discarded.
    Pend,
    /// Loads this file.
    Load(Seq<char>),
}

/// `File '<rel>' does not exist. Create it?`
pub open spec fn missing_file_message(rel: Seq<char>) -> Seq<char> {
    "File '"@ + rel + "' does not exist. Create it?"@
}

/// Loading a relative path without looking at unsaved changes: absolute
/// paths, `..` components, symbolic links and paths escaping the current
/// file's directory are refused; a missing file is offered for creation.
pub open spec fn nav_internal(current_file: Seq<char>, rel: Seq<char>, facts: Seq<(String, PathInfo)>) -> Nav {
    if rel.len() > 0 && rel[0] == '/' {
        Nav::Fail("Absolute paths are not allowed for security reasons"@)
    } else if has_parent_component_spec(rel) {
        Nav::Fail("Path traversal (..) is not allowed for security reasons"@)
    } else {
        match parent_of(current_file) {
            None => Nav::Fail("Cannot determine current directory"@),
            Some(d) => {
                let abs = joined(d, rel);
                let i = info_of(facts, abs);
                if i.escapes_base {
                    Nav::Fail("Path escapes document directory boundary"@)
                } else if i.is_symlink {
                    Nav::Fail("Symlinks are not allowed for security reasons"@)
                } else if !i.exists {
                    Nav::Prompt(abs, missing_file_message(rel))
                } else {
                    Nav::Load(abs)
                }
            },
        }
    }
}

/// Loading a relative path: with unsaved changes it waits for them.
pub open spec fn nav_file(app: App, rel: Seq<char>, facts: Seq<(String, PathInfo)>) -> Nav {
    if app.edits.has_unsaved_changes {
        Nav::Pend
    } else {
        nav_internal(app.current_file_path@, rel, facts)
    }
}

/// The state and result after navigating to `rel` as [`nav_file`] says.
pub open spec fn nav_done(
    old: App,
    new: App,
    r: Result<Option<LoadRequest>, String>,
    rel: Seq<char>,
    anchor: Option<Seq<char>>,
    origin: LoadOrigin,
    nav: Nav,
) -> bool {
    match nav {
        Nav::Fail(m) => r matches Err(e) && e@ == m && new == old,
        Nav::Prompt(p, msg) => {
            &&& r == Ok::<Option<LoadRequest>, String>(None)
            &&& new.pending_file_create matches Some(f) && f@ == p
            &&& new.pending_file_create_message matches Some(t) && t@ == msg
            &&& new == (App {
                pending_file_create: new.pending_file_create,
                pending_file_create_message: new.pending_file_create_message,
                mode: AppMode::ConfirmFileCreate,
                ..old
            })
        },
        Nav::Pend => {
            &&& r == Ok::<Option<LoadRequest>, String>(None)
            &&& new.pending_navigation matches Some(PendingNavigation::LoadFile(f, a)) && f@ == rel && opt_chars(a) == anchor
            &&& new == (App { pending_navigation: new.pending_navigation, mode: AppMode::ConfirmSaveBeforeNav, ..old })
        },
        Nav::Load(p) => {
            &&& r matches Ok(Some(q)) && q.path@ == p && opt_chars(q.anchor) == anchor && q.origin == origin
            &&& new == old
        },
    }
}

impl App {
    /// The current file's directory.
    pub fn current_dir(&self) -> (r: Result<String, String>)
        ensures
            match parent_of(self.current_file_path@) {
                Some(d) => r matches Ok(s) && s@ == d,
                None => r matches Err(e) && e@ == "Cannot determine current directory"@,
            },
    {
        match path_parent(self.current_file_path.as_str()) {
            Some(d) => Ok(d),
            None => {
                proof { reveal_strlit("Cannot determine current directory"); }
                Err(string_from("Cannot determine current directory"))
            },
        }
    }

    /// Load a file by path relative to the current file, without looking
    /// at unsaved changes (see [`nav_internal`]): the file to parse comes
    /// back as a request; a missing file is offered for creation.
    pub fn load_file_internal(
        &mut self,
        relative_path: &str,
        anchor: Option<String>,
        origin: LoadOrigin,
        facts: &Vec<(String, PathInfo)>,
    ) -> (r: Result<Option<LoadRequest>, String>)
        ensures
            nav_done(*old(self), *final(self), r, relative_path@, opt_chars(anchor), origin,
                nav_internal(old(self).current_file_path@, relative_path@, facts@)),
    {
        proof {
            reveal_strlit("Absolute paths are not allowed for security reasons");
            reveal_strlit("Path traversal (..) is not allowed for security reasons");
            reveal_strlit("Path escapes document directory boundary");
            reveal_strlit("Symlinks are not allowed for security reasons");
            reveal_strlit("File '");
            reveal_strlit("' does not exist. Create it?");
        }
        if path_is_absolute(relative_path) {
            return Err(string_from("Absolute paths are not allowed for security reasons"));
        }
        if has_parent_component(relative_path) {
            return Err(string_from("Path traversal (..) is not allowed for security reasons"));
        }
        let dir = match self.current_dir() {
            Ok(d) => d,
            Err(e) => return Err(e),
        };
        let absolute_path = path_join(dir.as_str(), relative_path);
        let info = lookup_info(facts, absolute_path.as_str());
        if info.escapes_base {
            return Err(string_from("Path escapes document directory boundary"));
        }
        if info.is_symlink {
            return Err(string_from("Symlinks are not allowed for security reasons"));
        }
        if !info.exists {
            let mut msg = string_from("File '");
            push_str(&mut msg, relative_path);
            push_str(&mut msg, "' does not exist. Create it?");
            self.pending_file_create = Some(absolute_path);
            self.pending_file_create_message = Some(msg);
            self.mode = AppMode::ConfirmFileCreate;
            return Ok(None);
        }
        Ok(Some(LoadRequest { path: absolute_path, anchor, origin }))
    }

    /// Load a file by relative path; with unsaved changes the navigation
    /// waits for them to be saved or discarded (see [`nav_file`]).
    pub fn load_file(
        &mut self,
        relative_path: &str,
        anchor: Option<String>,
        origin: LoadOrigin,
        facts: &Vec<(String, PathInfo)>,
    ) -> (r: Result<Option<LoadRequest>, String>)
        ensures
            nav_done(*old(self), *final(self), r, relative_path@, opt_chars(anchor), origin, nav_file(*old(self), relative_path@, facts@)),
    {
        if self.edits.has_unsaved_changes {
            self.pending_navigation = Some(PendingNavigation::LoadFile(string_from(relative_path), anchor));
            self.mode = AppMode::ConfirmSaveBeforeNav;
            return Ok(None);
        }
        self.load_file_internal(relative_path, anchor, origin, facts)
    }
}

// ---------------------------------------------------------------------------
// Wikilinks
// ---------------------------------------------------------------------------

/// The text with each backslash made a slash.
pub open spec fn slashes(s: Seq<char>) -> Seq<char> {
    s.map_values(|c: char| if c == '\\' { '/' } else { c })
}

/// The (lowercased) name ends with a markdown extension.
pub open spec fn wiki_has_md(ft: Seq<char>) -> bool {
    let l = lowercase(ft);
    has_suffix(l, ".md"@) || has_suffix(l, ".markdown"@) || has_suffix(l, ".mdown"@)
}

/// The file part of a wikilink target: what precedes its first `#`.
pub open spec fn wiki_file_part(target: Seq<char>) -> Seq<char> {
    match find_from_spec(target, seq!['#'], 0) {
        Some(i) => target.take(i),
        None => target,
    }
}

/// The names tried for a wikilink: the name itself when it has a markdown
/// extension, else with `.md`, with `.markdown`, and as it is.
pub open spec fn wiki_candidates(ft: Seq<char>) -> Seq<Seq<char>> {
    if wiki_has_md(ft) {
        seq![ft]
    } else {
        seq![ft + ".md"@, ft + ".markdown"@, ft]
    }
}

/// The first candidate from `i` on that exists and is not a symbolic link.
pub open spec fn first_usable(d: Seq<char>, cands: Seq<Seq<char>>, facts: Seq<(String, PathInfo)>, i: int) -> Option<Seq<char>>
    decreases cands.len() - i,
{
    if i < 0 || i >= cands.len() {
        None
    } else if usable(info_of(facts, joined(d, cands[i]))) {
        Some(cands[i])
    } else {
        first_usable(d, cands, facts, i + 1)
    }
}

/// What a wikilink asks for.
pub enum WikiPlan {
    /// Jump to this heading of the current document.
    Jump(Seq<char>),
    /// Fail with this message.
    Fail(Seq<char>),
    /// Navigate to this relative path, with this anchor.
    Open(Seq<char>, Option<Seq<char>>),
    /// Offer to create this file, with this message.
    Prompt(Seq<char>, Seq<char>),
}

/// `Wikilink '[[<target>]]' not found. Create '<name>'?`
pub open spec fn wiki_missing_message(target: Seq<char>, name: Seq<char>) -> Seq<char> {
    "Wikilink '[["@ + target + "]]' not found. Create '"@ + name + "'?"@
}

/// `[[#anchor]]` jumps in the current document; `[[file#anchor]]` and
/// `[[file]]` load the first existing candidate name (see
/// [`wiki_candidates`]), refusing `..` and absolute names, and offer to
/// create the file when none exists.
pub open spec fn wiki_plan(current_file: Seq<char>, target: Seq<char>, facts: Seq<(String, PathInfo)>) -> WikiPlan {
    if target.len() > 0 && target[0] == '#' {
        WikiPlan::Jump(target.skip(1))
    } else {
        let file = wiki_file_part(target);
        let anchor = match find_from_spec(target, seq!['#'], 0) {
            Some(i) => Some(target.skip(i + 1)),
            None => None,
        };
        if contains_spec(file, dot_dot()) {
            WikiPlan::Fail("WikiLinks cannot contain path traversal (..)"@)
        } else if file.len() > 0 && file[0] == '/' {
            WikiPlan::Fail("WikiLinks cannot be absolute paths"@)
        } else {
            let ft = slashes(file);
            match parent_of(current_file) {
                None => WikiPlan::Fail("Cannot determine current directory"@),
                Some(d) => match first_usable(d, wiki_candidates(ft), facts, 0) {
                    Some(c) => WikiPlan::Open(c, anchor),
                    None => {
                        let name = if wiki_has_md(ft) { ft } else { ft + ".md"@ };
                        WikiPlan::Prompt(joined(d, name), wiki_missing_message(target, name))
                    },
                },
            }
        }
    }
}

/// `✓ Jumped to #<anchor>`
pub open spec fn jumped_message(anchor: Seq<char>) -> Seq<char> {
    "✓ Jumped to #"@ + anchor
}

/// The state and result after following a wikilink as [`wiki_plan`] says.
pub open spec fn wiki_done(
    old: App,
    new: App,
    r: Result<Option<LoadRequest>, String>,
    target: Seq<char>,
    origin: LoadOrigin,
    facts: Seq<(String, PathInfo)>,
) -> bool {
    match wiki_plan(old.current_file_path@, target, facts) {
        WikiPlan::Jump(a) => match first_anchor_from(entries(old.outline.items@), a, 0) {
            None => r matches Err(e) && e@ == heading_not_found(a) && new == old,
            Some(k) => {
                &&& r == Ok::<Option<LoadRequest>, String>(None)
                &&& new.status_message matches Some(m) && m@ == jumped_message(a)
                &&& new == (App { status_message: new.status_message, ..old.with_selected(Some(k as usize)) })
            },
        },
        WikiPlan::Fail(m) => r matches Err(e) && e@ == m && new == old,
        WikiPlan::Prompt(p, msg) => nav_done(old, new, r, Seq::empty(), None, origin, Nav::Prompt(p, msg)),
        WikiPlan::Open(c, a) => nav_done(old, new, r, c, a, origin, nav_file(old, c, facts)),
    }
}

/// A string of the characters `v[from..to]`.
fn string_range(v: &Vec<char>, from: usize, to: usize) -> (s: String)
    requires
        from <= to <= v@.len(),
    ensures
        s@ == v@.subrange(from as int, to as int),
{
    let mut s = String::new();
    push_range(&mut s, v, from, to);
    s
}

/// The characters with each backslash made a slash.
fn to_slashes(v: &Vec<char>) -> (w: Vec<char>)
    ensures
        w@ == slashes(v@),
{
    let mut w: Vec<char> = Vec::new();
    let mut i: usize = 0;
    while i < v.len()
        invariant
            i <= v@.len(),
            w@ == slashes(v@.take(i as int)),
        decreases v@.len() - i,
    {
        let c = if v[i] == '\\' { '/' } else { v[i] };
        w.push(c);
        i += 1;
        assert(w@ =~= slashes(v@.take(i as int)));
    }
    assert(v@.take(v@.len() as int) =~= v@);
    w
}

impl App {
    /// Follow a wikilink (see [`wiki_plan`]): jump to a heading of this
    /// document, or load the first existing candidate file (through
    /// [`App::load_file`]), or offer to create the file.
    pub fn load_wikilink(&mut self, target: &str, origin: LoadOrigin, facts: &Vec<(String, PathInfo)>) -> (r: Result<Option<LoadRequest>, String>)
        ensures
            wiki_done(*old(self), *final(self), r, target@, origin, facts@),
    {
        proof {
            reveal_strlit("✓ Jumped to #");
            reveal_strlit("WikiLinks cannot contain path traversal (..)");
            reveal_strlit("WikiLinks cannot be absolute paths");
            reveal_strlit(".md");
            reveal_strlit(".markdown");
            reveal_strlit(".mdown");
            reveal_strlit("Wikilink '[[");
            reveal_strlit("]]' not found. Create '");
            reveal_strlit("'?");
        }
        let tv = chars_of(target);
        if tv.len() > 0 && tv[0] == '#' {
            let anchor = string_range(&tv, 1, tv.len());
            assert(anchor@ == target@.skip(1));
            match self.jump_to_anchor(anchor.as_str()) {
                Err(e) => return Err(e),
                Ok(()) => {},
            }
            let mut msg = string_from("✓ Jumped to #");
            push_str(&mut msg, anchor.as_str());
            self.status_message = Some(msg);
            return Ok(None);
        }
        let hash: Vec<char> = vec!['#'];
        assert(hash@ =~= seq!['#']);
        let (file, anchor) = match find_from(&tv, &hash, 0) {
            Some(i) => {
                proof { lemma_find_from_found(tv@, hash@, 0, i as int); }
                (copy_prefix(&tv, i), Some(string_range(&tv, i + 1, tv.len())))
            },
            None => (copy_prefix(&tv, tv.len()), None),
        };
        assert(file@ == wiki_file_part(target@)) by {
            assert(tv@.take(tv@.len() as int) =~= tv@);
        }
        assert(opt_chars(anchor) == (match find_from_spec(target@, seq!['#'], 0) {
            Some(i) => Some(target@.skip(i + 1)),
            None => None::<Seq<char>>,
        }));
        let dd: Vec<char> = vec!['.', '.'];
        assert(dd@ =~= dot_dot());
        if contains(&file, &dd) {
            return Err(string_from("WikiLinks cannot contain path traversal (..)"));
        }
        if file.len() > 0 && file[0] == '/' {
            return Err(string_from("WikiLinks cannot be absolute paths"));
        }
        let ftv = to_slashes(&file);
        let ft = string_of(&ftv);
        let dir = match self.current_dir() {
            Ok(d) => d,
            Err(e) => return Err(e),
        };
        let lower = chars_of(to_lowercase(ft.as_str()).as_str());
        let has_md = ends_with(&lower, &chars_of(".md")) || ends_with(&lower, &chars_of(".markdown"))
            || ends_with(&lower, &chars_of(".mdown"));
        let mut candidates: Vec<String> = Vec::new();
        if has_md {
            candidates.push(string_from(ft.as_str()));
        } else {
            let mut a = string_from(ft.as_str());
            push_str(&mut a, ".md");
            let mut b = string_from(ft.as_str());
            push_str(&mut b, ".markdown");
            candidates.push(a);
            candidates.push(b);
            candidates.push(string_from(ft.as_str()));
        }
        assert(has_md == wiki_has_md(ft@));
        let ghost cands = wiki_candidates(ft@);
        let ghost plan_open = wiki_plan(old(self).current_file_path@, target@, facts@);
        assert(match first_usable(dir@, cands, facts@, 0) {
            Some(c) => plan_open == WikiPlan::Open(c, opt_chars(anchor)),
            None => plan_open == WikiPlan::Prompt(joined(dir@, if has_md { ft@ } else { ft@ + ".md"@ }),
                wiki_missing_message(target@, if has_md { ft@ } else { ft@ + ".md"@ })),
        });
        assert(candidates@.len() == cands.len());
        assert(forall|k: int| 0 <= k < cands.len() ==> (#[trigger] candidates@[k])@ == cands[k]);
        let mut i: usize = 0;
        while i < candidates.len()
            invariant
                *self == *old(self),
                i <= candidates@.len(),
                candidates@.len() == cands.len(),
                forall|k: int| 0 <= k < cands.len() ==> (#[trigger] candidates@[k])@ == cands[k],
                first_usable(dir@, cands, facts@, 0) == first_usable(dir@, cands, facts@, i as int),
                plan_open == wiki_plan(old(self).current_file_path@, target@, facts@),
                match first_usable(dir@, cands, facts@, 0) {
                    Some(c) => plan_open == WikiPlan::Open(c, opt_chars(anchor)),
                    None => plan_open == WikiPlan::Prompt(joined(dir@, if has_md { ft@ } else { ft@ + ".md"@ }),
                        wiki_missing_message(target@, if has_md { ft@ } else { ft@ + ".md"@ })),
                },
            decreases candidates@.len() - i,
        {
            let path = path_join(dir.as_str(), candidates[i].as_str());
            let info = lookup_info(facts, path.as_str());
            if !info.is_symlink && info.exists {
                assert(first_usable(dir@, cands, facts@, i as int) == Some(cands[i as int]));
                return self.load_file(candidates[i].as_str(), anchor, origin, facts);
            }
            i += 1;
        }
        let mut name = string_from(ft.as_str());
        if !has_md {
            push_str(&mut name, ".md");
        }
        let new_path = path_join(dir.as_str(), name.as_str());
        let mut msg = string_from("Wikilink '[[");
        push_str(&mut msg, target);
        push_str(&mut msg, "]]' not found. Create '");
        push_str(&mut msg, name.as_str());
        push_str(&mut msg, "'?");
        self.pending_file_create = Some(new_path);
        self.pending_file_create_message = Some(msg);
        self.mode = AppMode::ConfirmFileCreate;
        Ok(None)
    }
}

/// A copy of the first `n` characters.
fn copy_prefix(v: &Vec<char>, n: usize) -> (w: Vec<char>)
    requires
        n <= v@.len(),
    ensures
        w@ == v@.take(n as int),
{
    let mut w: Vec<char> = Vec::new();
    let mut i: usize = 0;
    while i < n
        invariant
            i <= n <= v@.len(),
            w@ == v@.take(i as int),
        decreases n - i,
    {
        w.push(v[i]);
        i += 1;
        assert(w@ =~= v@.take(i as int));
    }
    w
}

// ---------------------------------------------------------------------------
// Following the selected link
// ---------------------------------------------------------------------------

/// What following a link leaves to the driver.
#[derive(Debug, Clone, PartialEq, Eq)]
pub enum LinkStep {
    /// Nothing: the state shows the outcome.
    Done,
    /// Parse this file and hand it to [`App::finish_load`].
    Load(LoadRequest),
    /// Open this URL in the browser, copy it to the clipboard, and report
    /// with [`App::finish_open_url`].
    OpenUrl(String),
}

/// Where the selected link of link follow mode points, if a link is selected.
pub open spec fn selected_destination(app: App) -> Option<LinkTarget> {
    match app.links.selected_link_idx {
        Some(i) => {
            let f = app.links.filtered_link_indices@;
            if i < f.len() && f[i as int] < app.links.link_texts@.len() && f[i as int] < app.links.link_destinations@.len() {
                Some(app.links.link_destinations@[f[i as int] as int])
            } else {
                None
            }
        },
        None => None,
    }
}

/// The link picker holds no links and no search.
pub open spec fn links_cleared(l: LinkPicker) -> bool {
    &&& l.link_texts@.len() == 0
    &&& l.link_targets@.len() == 0
    &&& l.link_destinations@.len() == 0
    &&& l.filtered_link_indices@.len() == 0
    &&& l.selected_link_idx is None
    &&& l.link_search_query@.len() == 0
    &&& !l.link_search_active
}

/// `new` is `old` after leaving link follow mode for normal mode, with the
/// status message set when one is given.
pub open spec fn exited_link_mode(old: App, new: App, status: Option<Seq<char>>) -> bool {
    &&& links_cleared(new.links)
    &&& match status {
        Some(st) => new.status_message matches Some(m) && m@ == st,
        None => new.status_message == old.status_message,
    }
    &&& new == (App { links: new.links, mode: AppMode::Normal, status_message: new.status_message, ..old })
}

/// `new` is `old` after leaving interactive mode for normal mode (the
/// status line cleared).
pub open spec fn exited_interactive(old: App, new: App) -> bool {
    &&& new.interactive_state.current_index is None
    &&& new.interactive_state.detail_mode is None
    &&& new.interactive_state.elements == old.interactive_state.elements
    &&& new.interactive_state.element_states == old.interactive_state.element_states
    &&& new == (App { interactive_state: new.interactive_state, mode: AppMode::Normal, status_message: None, ..old })
}

/// What follows a navigation, unless it asks whether to create a file:
/// link follow mode is left (with its status) or interactive mode is left.
pub open spec fn leave_after(old: App, new: App, origin: LoadOrigin) -> bool {
    if old.mode == AppMode::ConfirmFileCreate {
        new == old
    } else {
        match origin {
            LoadOrigin::LinkFollow(st) => exited_link_mode(old, new, opt_chars(st)),
            LoadOrigin::Interactive => exited_interactive(old, new),
            _ => new == old,
        }
    }
}

/// After a navigation ended with `r1` in state `mid`: an error is passed
/// on; a file to load is handed to the driver; otherwise the mode the link
/// was followed from is left at once (see [`leave_after`]).
pub open spec fn nav_continue(
    mid: App,
    new: App,
    r1: Result<Option<LoadRequest>, String>,
    r: Result<LinkStep, String>,
    origin: LoadOrigin,
) -> bool {
    match r1 {
        Err(e) => r == Err::<LinkStep, String>(e) && new == mid,
        Ok(None) => r == Ok::<LinkStep, String>(LinkStep::Done) && leave_after(mid, new, origin),
        Ok(Some(q)) => r == Ok::<LinkStep, String>(LinkStep::Load(q)) && new == mid,
    }
}

/// The file name of a path, `file` when it has none.
pub open spec fn file_label(p: Seq<char>) -> Seq<char> {
    match file_name_of(p) {
        Some(n) => n,
        None => "file"@,
    }
}

/// `✓ Opened <name>`
pub open spec fn opened_message(name: Seq<char>) -> Seq<char> {
    "✓ Opened "@ + name
}

/// How a relative file link is followed.
pub enum RelChoice {
    /// Navigate to this relative path, then show this status.
    Open(Seq<char>, Seq<char>),
    /// Open this existing file in the editor.
    Editor(Seq<char>),
}

/// A path with a markdown extension is opened as it is; otherwise an
/// existing `<path>.md` is opened, else an existing file at the path goes
/// to the editor, else the file (with `.md` added when it has no
/// extension) is navigated to, which offers to create it.
pub open spec fn relative_choice(d: Seq<char>, path: Seq<char>, facts: Seq<(String, PathInfo)>) -> RelChoice {
    if has_md_extension_spec(path) {
        RelChoice::Open(path, opened_message(file_label(path)))
    } else if usable(info_of(facts, joined(d, path + ".md"@))) {
        RelChoice::Open(path + ".md"@, opened_message(file_label(path) + ".md"@))
    } else if usable(info_of(facts, joined(d, path))) {
        RelChoice::Editor(joined(d, path))
    } else {
        let rel = if extension_of(path) is None { path + ".md"@ } else { path };
        RelChoice::Open(rel, opened_message(rel))
    }
}

/// `✓ Opened [[<target>]]`
pub open spec fn opened_wiki_message(target: Seq<char>) -> Seq<char> {
    "✓ Opened [["@ + target + "]]"@
}

/// A copy of a load origin.
fn copy_origin(o: &LoadOrigin) -> (c: LoadOrigin)
    ensures
        c == *o,
{
    match o {
        LoadOrigin::LinkFollow(st) => LoadOrigin::LinkFollow(match st {
            Some(m) => Some(m.clone()),
            None => None,
        }),
        LoadOrigin::Interactive => LoadOrigin::Interactive,
        LoadOrigin::PendingNavigation => LoadOrigin::PendingNavigation,
        LoadOrigin::Created(m) => LoadOrigin::Created(m.clone()),
    }
}

/// A copy of a link target.
fn copy_target(t: &LinkTarget) -> (c: LinkTarget)
    ensures
        c@ == t@,
{
    match t {
        LinkTarget::Anchor(a) => LinkTarget::Anchor(a.clone()),
        LinkTarget::RelativeFile { path, anchor } => LinkTarget::RelativeFile {
            path: path.clone(),
            anchor: match anchor {
                Some(a) => Some(a.clone()),
                None => None,
            },
        },
        LinkTarget::WikiLink { target } => LinkTarget::WikiLink { target: target.clone() },
        LinkTarget::External(u) => LinkTarget::External(u.clone()),
    }
}

impl App {
    /// Leave link follow mode for normal mode, showing `status`.
    fn exit_link_mode_with(&mut self, status: String)
        ensures
            exited_link_mode(*old(self), *final(self), Some(status@)),
    {
        self.status_message = Some(status);
        self.exit_link_follow_mode();
    }

    /// Navigate to a relative path from the mode a link was followed in;
    /// once there (now, or after the requested file is loaded) that mode
    /// is left as [`leave_after`] says.
    fn navigate_from_link(&mut self, rel: &str, anchor: Option<String>, origin: LoadOrigin, facts: &Vec<(String, PathInfo)>) -> (r: Result<LinkStep, String>)
        requires
            origin is LinkFollow || origin is Interactive,
        ensures
            exists|mid: App, r1: Result<Option<LoadRequest>, String>|
                #[trigger] nav_done(*old(self), mid, r1, rel@, opt_chars(anchor), origin, nav_file(*old(self), rel@, facts@))
                && nav_continue(mid, *final(self), r1, r, origin),
    {
        let ghost anc = opt_chars(anchor);
        let leave = copy_origin(&origin);
        let r1 = self.load_file(rel, anchor, origin, facts);
        let ghost mid = *self;
        let ghost g1 = r1;
        assert(nav_done(*old(self), mid, g1, rel@, anc, leave, nav_file(*old(self), rel@, facts@)));
        match r1 {
            Err(e) => Err(e),
            Ok(Some(q)) => Ok(LinkStep::Load(q)),
            Ok(None) => {
                self.leave_link_origin(leave);
                Ok(LinkStep::Done)
            },
        }
    }

    /// Follow a wikilink from the mode a link was followed in; once there
    /// that mode is left as [`leave_after`] says.
    fn wikilink_from_link(&mut self, target: &str, origin: LoadOrigin, facts: &Vec<(String, PathInfo)>) -> (r: Result<LinkStep, String>)
        requires
            origin is LinkFollow || origin is Interactive,
        ensures
            exists|mid: App, r1: Result<Option<LoadRequest>, String>|
                #[trigger] wiki_done(*old(self), mid, r1, target@, origin, facts@)
                && nav_continue(mid, *final(self), r1, r, origin),
    {
        let leave = copy_origin(&origin);
        let r1 = self.load_wikilink(target, origin, facts);
        let ghost mid = *self;
        let ghost g1 = r1;
        assert(wiki_done(*old(self), mid, g1, target@, leave, facts@));
        match r1 {
            Err(e) => Err(e),
            Ok(Some(q)) => Ok(LinkStep::Load(q)),
            Ok(None) => {
                self.leave_link_origin(leave);
                Ok(LinkStep::Done)
            },
        }
    }

    /// Leave the mode a link was followed in (see [`leave_after`]).
    fn leave_link_origin(&mut self, origin: LoadOrigin)
        ensures
            leave_after(*old(self), *final(self), origin),
    {
        if self.mode == AppMode::ConfirmFileCreate {
            return;
        }
        match origin {
            LoadOrigin::LinkFollow(st) => {
                if let Some(m) = st {
                    self.status_message = Some(m);
                }
                self.exit_link_follow_mode();
            },
            LoadOrigin::Interactive => self.exit_interactive_mode(),
            _ => {},
        }
    }

    /// Follow the selected link of link follow mode. An anchor jumps to
    /// its heading; a relative file is chosen as [`relative_choice`] says
    /// and navigated to; a wikilink goes through [`App::load_wikilink`]; a
    /// URL is handed to the driver. Link follow mode is left once the
    /// target is reached.
    pub fn follow_selected_link(&mut self, facts: &Vec<(String, PathInfo)>) -> (r: Result<LinkStep, String>)
        ensures
            match selected_destination(*old(self)) {
                None => r matches Err(e) && e@ == "No link selected"@ && *final(self) == *old(self),
                Some(LinkTarget::Anchor(a)) => match first_anchor_from(entries(old(self).outline.items@), a@, 0) {
                    None => r matches Err(e) && e@ == heading_not_found(a@) && *final(self) == *old(self),
                    Some(k) => r == Ok::<LinkStep, String>(LinkStep::Done)
                        && exited_link_mode(old(self).with_selected(Some(k as usize)), *final(self), Some(jumped_message(a@))),
                },
                Some(LinkTarget::RelativeFile { path, anchor }) => match parent_of(old(self).current_file_path@) {
                    None => r matches Err(e) && e@ == "Cannot determine current directory"@ && *final(self) == *old(self),
                    Some(d) => match relative_choice(d, path@, facts@) {
                        RelChoice::Editor(abs) => {
                            &&& r == Ok::<LinkStep, String>(LinkStep::Done)
                            &&& final(self).pending_editor_file matches Some(f) && f@ == abs
                            &&& exited_link_mode(App { pending_editor_file: final(self).pending_editor_file, ..*old(self) }, *final(self), None)
                        },
                        RelChoice::Open(rel, st) => exists|mid: App, r1: Result<Option<LoadRequest>, String>, o: LoadOrigin|
                            o matches LoadOrigin::LinkFollow(Some(s)) && s@ == st
                            && #[trigger] nav_done(*old(self), mid, r1, rel, opt_chars(anchor), o, nav_file(*old(self), rel, facts@))
                            && nav_continue(mid, *final(self), r1, r, o),
                    },
                },
                Some(LinkTarget::WikiLink { target }) => exists|mid: App, r1: Result<Option<LoadRequest>, String>, o: LoadOrigin|
                    o matches LoadOrigin::LinkFollow(Some(s)) && s@ == opened_wiki_message(target@)
                    && #[trigger] wiki_done(*old(self), mid, r1, target@, o, facts@)
                    && nav_continue(mid, *final(self), r1, r, o),
                Some(LinkTarget::External(url)) => r matches Ok(LinkStep::OpenUrl(u)) && u@ == url@ && *final(self) == *old(self),
            },
    {
        proof {
            reveal_strlit("No link selected");
            reveal_strlit("✓ Jumped to #");
            reveal_strlit("✓ Opened ");
            reveal_strlit("✓ Opened [[");
            reveal_strlit("]]");
            reveal_strlit(".md");
            reveal_strlit("file");
        }
        let idx = match self.get_selected_link() {
            Some(i) => i,
            None => return Err(string_from("No link selected")),
        };
        if idx >= self.links.link_destinations.len() {
            return Err(string_from("No link selected"));
        }
        let target = copy_target(&self.links.link_destinations[idx]);
        assert(target@ == selected_destination(*old(self))->0@);
        match target {
            LinkTarget::Anchor(anchor) => {
                match self.jump_to_anchor(anchor.as_str()) {
                    Err(e) => return Err(e),
                    Ok(()) => {},
                }
                let mut msg = string_from("✓ Jumped to #");
                push_str(&mut msg, anchor.as_str());
                self.exit_link_mode_with(msg);
                Ok(LinkStep::Done)
            },
            LinkTarget::RelativeFile { path, anchor } => {
                let has_md = has_md_extension(path.as_str());
                let dir = match self.current_dir() {
                    Ok(d) => d,
                    Err(e) => return Err(e),
                };
                let filename = match path_file_name(path.as_str()) {
                    Some(n) => n,
                    None => string_from("file"),
                };
                if has_md {
                    let mut st = string_from("✓ Opened ");
                    push_str(&mut st, filename.as_str());
                    return self.navigate_from_link(path.as_str(), anchor, LoadOrigin::LinkFollow(Some(st)), facts);
                }
                let mut md_path = string_from(path.as_str());
                push_str(&mut md_path, ".md");
                let md_info = lookup_info(facts, path_join(dir.as_str(), md_path.as_str()).as_str());
                if md_info.exists && !md_info.is_symlink {
                    let mut st = string_from("✓ Opened ");
                    push_str(&mut st, filename.as_str());
                    push_str(&mut st, ".md");
                    assert(st@ =~= opened_message(file_label(path@) + ".md"@));
                    return self.navigate_from_link(md_path.as_str(), anchor, LoadOrigin::LinkFollow(Some(st)), facts);
                }
                let absolute_path = path_join(dir.as_str(), path.as_str());
                let info = lookup_info(facts, absolute_path.as_str());
                if info.exists && !info.is_symlink {
                    self.pending_editor_file = Some(absolute_path);
                    self.exit_link_follow_mode();
                    return Ok(LinkStep::Done);
                }
                let rel = if path_extension(path.as_str()).is_none() { md_path } else { path };
                let mut st = string_from("✓ Opened ");
                push_str(&mut st, rel.as_str());
                self.navigate_from_link(rel.as_str(), anchor, LoadOrigin::LinkFollow(Some(st)), facts)
            },
            LinkTarget::WikiLink { target } => {
                let mut st = string_from("✓ Opened [[");
                push_str(&mut st, target.as_str());
                push_str(&mut st, "]]");
                self.wikilink_from_link(target.as_str(), LoadOrigin::LinkFollow(Some(st)), facts)
            },
            LinkTarget::External(url) => Ok(LinkStep::OpenUrl(url)),
        }
    }
}

// ---------------------------------------------------------------------------
// Completing what the driver did
// ---------------------------------------------------------------------------

/// How an error of a navigation is reported: `✗ ` before it after a
/// waiting navigation, `✗ Error: ` otherwise.
pub open spec fn error_prefix(origin: LoadOrigin) -> Seq<char> {
    match origin {
        LoadOrigin::PendingNavigation => "✗ "@,
        _ => "✗ Error: "@,
    }
}

/// The file name of a loaded path, `unknown` when it has none.
pub open spec fn loaded_name(p: Seq<char>) -> Seq<char> {
    match file_name_of(p) {
        Some(n) => n,
        None => "unknown"@,
    }
}

/// The outline selection after loading: the first item, then the heading
/// answering the anchor, when there is one.
pub open spec fn selection_after_load(items: Seq<OutlineItem>, anchor: Option<String>) -> Option<usize> {
    let first = if items.len() > 0 { Some(0usize) } else { None };
    match anchor {
        Some(a) => match first_anchor_from(entries(items), a@, 0) {
            Some(k) => Some(k as usize),
            None => first,
        },
        None => first,
    }
}

/// Mode, status line, links and interactive state once the file is
/// loaded, as the origin of the request says.
pub open spec fn after_load(old: App, new: App, origin: LoadOrigin) -> bool {
    match origin {
        LoadOrigin::LinkFollow(st) => if old.mode == AppMode::ConfirmFileCreate {
            new.mode == old.mode && new.status_message == old.status_message && new.links == old.links
        } else {
            &&& links_cleared(new.links)
            &&& new.mode == AppMode::Normal
            &&& match st {
                Some(m) => new.status_message == Some(m),
                None => new.status_message == old.status_message,
            }
        },
        LoadOrigin::Interactive => if old.mode == AppMode::ConfirmFileCreate {
            new.mode == old.mode && new.status_message == old.status_message && new.links == old.links
        } else {
            &&& new.mode == AppMode::Normal
            &&& new.status_message is None
            &&& new.interactive_state.current_index is None
            &&& new.interactive_state.detail_mode is None
            &&& new.links == old.links
        },
        LoadOrigin::PendingNavigation => {
            new.mode == old.mode && new.status_message == old.status_message && new.links == old.links
        },
        LoadOrigin::Created(st) => {
            &&& links_cleared(new.links)
            &&& new.mode == AppMode::Normal
            &&& new.status_message == Some(st)
        },
    }
}

impl App {
    /// Complete a requested load with what parsing the file gave: on
    /// success the current file goes to history, the new document is
    /// shown (at the anchor, when it names a heading) and the mode the
    /// request came from is left; on failure the error is reported.
    pub fn finish_load(&mut self, parsed: Result<(Document, Vec<HeadingNode>), String>, request: LoadRequest)
        requires
            old(self).wf(),
            parsed matches Ok((d, _)) ==> document_wf(d),
        ensures
            match parsed {
                Err(e) => {
                    &&& final(self).status_message matches Some(m)
                        && m@ == error_prefix(request.origin) + "Failed to load file: "@ + e@
                    &&& *final(self) == (App { status_message: final(self).status_message, ..*old(self) })
                },
                Ok((d, t)) => {
                    &&& final(self).ready()
                    &&& final(self).document == d
                    &&& final(self).tree == t
                    &&& final(self).current_file_path == request.path
                    &&& final(self).filename@ == loaded_name(request.path@)
                    &&& entries(final(self).outline.items@) == crate::todos::shown_outline(t@, text_set(old(self).outline.collapsed_headings@), d, old(self).outline.filter_by_todos)
                    &&& final(self).outline.selected == selection_after_load(final(self).outline.items@, request.anchor)
                    &&& saved_on_back_stack(*old(self), *final(self))
                    &&& final(self).layout.content_scroll == 0
                    &&& final(self).edits == old(self).edits
                    &&& after_load(*old(self), *final(self), request.origin)
                },
            },
    {
        proof {
            reveal_strlit("✗ ");
            reveal_strlit("✗ Error: ");
            reveal_strlit("Failed to load file: ");
            reveal_strlit("unknown");
        }
        let LoadRequest { path, anchor, origin } = request;
        match parsed {
            Err(e) => {
                let mut msg = match origin {
                    LoadOrigin::PendingNavigation => string_from("✗ "),
                    _ => string_from("✗ Error: "),
                };
                push_str(&mut msg, "Failed to load file: ");
                push_str(&mut msg, e.as_str());
                assert(msg@ =~= error_prefix(request.origin) + "Failed to load file: "@ + e@);
                self.status_message = Some(msg);
            },
            Ok((document, tree)) => {
                let filename = match path_file_name(path.as_str()) {
                    Some(n) => n,
                    None => string_from("unknown"),
                };
                self.save_to_history();
                let ghost saved = *self;
                self.load_document(document, tree, filename, path);
                let ghost loaded = *self;
                if let Some(a) = anchor {
                    let _ = self.jump_to_anchor(a.as_str());
                }
                assert(entries(self.outline.items@) == entries(loaded.outline.items@));
                let ghost jumped = *self;
                match origin {
                    LoadOrigin::LinkFollow(st) => {
                        if self.mode != AppMode::ConfirmFileCreate {
                            if let Some(m) = st {
                                self.status_message = Some(m);
                            }
                            self.exit_link_follow_mode();
                        }
                    },
                    LoadOrigin::Interactive => {
                        if self.mode != AppMode::ConfirmFileCreate {
                            self.exit_interactive_mode();
                        }
                    },
                    LoadOrigin::PendingNavigation => {},
                    LoadOrigin::Created(st) => {
                        self.status_message = Some(st);
                        self.exit_link_follow_mode();
                    },
                }
                assert(self.outline == jumped.outline);
            },
        }
    }

    /// Report on a URL the driver tried to open in the browser and to copy
    /// to the clipboard, and leave link follow mode.
    pub fn finish_open_url(&mut self, url: &str, opened: bool, copied: bool)
        ensures
            exited_link_mode(*old(self), *final(self), Some(
                if opened && copied {
                    "✓ Opened "@ + url@ + " in browser (also copied to clipboard)"@
                } else if opened {
                    "✓ Opened "@ + url@ + " in browser"@
                } else if copied {
                    "⚠ Could not open browser, URL copied to clipboard: "@ + url@
                } else {
                    "✗ Failed to open URL: "@ + url@
                })),
    {
        let msg = if opened && copied {
            let mut m = string_from("✓ Opened ");
            push_str(&mut m, url);
            push_str(&mut m, " in browser (also copied to clipboard)");
            m
        } else if opened {
            let mut m = string_from("✓ Opened ");
            push_str(&mut m, url);
            push_str(&mut m, " in browser");
            m
        } else if copied {
            let mut m = string_from("⚠ Could not open browser, URL copied to clipboard: ");
            push_str(&mut m, url);
            m
        } else {
            let mut m = string_from("✗ Failed to open URL: ");
            push_str(&mut m, url);
            m
        };
        proof {
            reveal_strlit("✓ Opened ");
            reveal_strlit(" in browser (also copied to clipboard)");
            reveal_strlit(" in browser");
            reveal_strlit("⚠ Could not open browser, URL copied to clipboard: ");
            reveal_strlit("✗ Failed to open URL: ");
        }
        self.exit_link_mode_with(msg);
    }

    /// The follow-link action of link follow mode: follow the selected
    /// link (see [`App::follow_selected_link`]), reporting an error as
    /// `✗ Error: <message>`.
    pub fn follow_link_action(&mut self, facts: &Vec<(String, PathInfo)>) -> (step: LinkStep)
        ensures
            match selected_destination(*old(self)) {
                None => {
                    &&& step == LinkStep::Done
                    &&& final(self).status_message matches Some(m) && m@ == "✗ Error: No link selected"@
                    &&& *final(self) == (App { status_message: final(self).status_message, ..*old(self) })
                },
                Some(LinkTarget::External(url)) => step matches LinkStep::OpenUrl(u) && u@ == url@ && *final(self) == *old(self),
                _ => true,
            },
    {
        match self.follow_selected_link(facts) {
            Ok(step) => step,
            Err(e) => {
                let mut msg = string_from("✗ Error: ");
                push_str(&mut msg, e.as_str());
                proof {
                    reveal_strlit("✗ Error: ");
                    reveal_strlit("✗ Error: No link selected");
                    reveal_strlit("No link selected");
                    assert(msg@ =~= "✗ Error: No link selected"@ || selected_destination(*old(self)) is Some);
                }
                self.status_message = Some(msg);
                LinkStep::Done
            },
        }
    }
}

// ---------------------------------------------------------------------------
// Links of interactive mode
// ---------------------------------------------------------------------------

/// `Unsafe URL scheme. Only http:// and https:// URLs are allowed.`
pub open spec fn unsafe_scheme_message() -> Seq<char> {
    "Unsafe URL scheme. Only http:// and https:// URLs are allowed."@
}

/// The URL starts with `http://` or `https://`.
pub open spec fn web_url(url: Seq<char>) -> bool {
    has_prefix(url, "http://"@) || has_prefix(url, "https://"@)
}

/// The state and result after following a link of interactive mode (see
/// [`App::follow_link_from_interactive`]).
pub open spec fn interactive_follow(old: App, new: App, r: Result<LinkStep, String>, target: LinkTarget, facts: Seq<(String, PathInfo)>) -> bool {
        match target {
            LinkTarget::Anchor(a) => match first_anchor_from(entries(old.outline.items@), a@, 0) {
                None => r matches Err(e) && e@ == heading_not_found(a@) && new == old,
                Some(k) => {
                    &&& r == Ok::<LinkStep, String>(LinkStep::Done)
                    &&& new.status_message matches Some(m) && m@ == jumped_message(a@)
                    &&& exited_interactive(old.with_selected(Some(k as usize)), App { status_message: None, ..new })
                },
            },
            LinkTarget::RelativeFile { path, anchor } => match parent_of(old.current_file_path@) {
                None => r matches Err(e) && e@ == "Cannot determine current directory"@ && new == old,
                Some(d) => match relative_choice(d, path@, facts) {
                    RelChoice::Editor(abs) => {
                        &&& r == Ok::<LinkStep, String>(LinkStep::Done)
                        &&& new.pending_editor_file matches Some(f) && f@ == abs
                        &&& exited_interactive(App { pending_editor_file: new.pending_editor_file, ..old }, new)
                    },
                    RelChoice::Open(rel, _) => exists|mid: App, r1: Result<Option<LoadRequest>, String>, o: LoadOrigin|
                        o == LoadOrigin::Interactive
                        && #[trigger] nav_done(old, mid, r1, rel, opt_chars(anchor), o, nav_file(old, rel, facts))
                        && nav_continue(mid, new, r1, r, o),
                },
            },
            LinkTarget::WikiLink { target } => exists|mid: App, r1: Result<Option<LoadRequest>, String>, o: LoadOrigin|
                o == LoadOrigin::Interactive
                && #[trigger] wiki_done(old, mid, r1, target@, o, facts)
                && nav_continue(mid, new, r1, r, o),
            LinkTarget::External(url) => {
                &&& new == old
                &&& web_url(url@) ==> (r matches Ok(LinkStep::OpenUrl(u)) && u@ == url@)
                &&& !web_url(url@) ==> (r matches Err(e) && e@ == unsafe_scheme_message())
            },
        }
}

impl App {
    /// Follow a link activated in interactive mode: as
    /// [`App::follow_selected_link`] does, except that interactive mode is
    /// left instead of link follow mode, and only `http://` and `https://`
    /// URLs are handed to the driver (to open, then report with
    /// [`App::finish_open_url_interactive`]).
    pub fn follow_link_from_interactive(&mut self, link: &Link, facts: &Vec<(String, PathInfo)>) -> (r: Result<LinkStep, String>)
        ensures
            interactive_follow(*old(self), *final(self), r, link.target, facts@),
    {
        proof {
            reveal_strlit("✓ Jumped to #");
            reveal_strlit("✓ Opened ");
            reveal_strlit(".md");
            reveal_strlit("file");
            reveal_strlit("http://");
            reveal_strlit("https://");
            reveal_strlit("Unsafe URL scheme. Only http:// and https:// URLs are allowed.");
        }
        let target = copy_target(&link.target);
        match target {
            LinkTarget::Anchor(anchor) => {
                match self.jump_to_anchor(anchor.as_str()) {
                    Err(e) => return Err(e),
                    Ok(()) => {},
                }
                let ghost jumped = *self;
                self.exit_interactive_mode();
                let ghost exited = *self;
                assert(exited_interactive(jumped, exited));
                let mut msg = string_from("✓ Jumped to #");
                push_str(&mut msg, anchor.as_str());
                self.status_message = Some(msg);
                assert(App { status_message: None, ..*self } == exited);
                proof {
                    let k = first_anchor_from(entries(old(self).outline.items@), anchor@, 0)->0;
                    assert(link.target@ == LinkTargetView::Anchor(anchor@));
                    assert(jumped == old(self).with_selected(Some(k as usize)));
                    assert(exited_interactive(old(self).with_selected(Some(k as usize)), App { status_message: None, ..*self }));
                    assert(self.status_message matches Some(m) && m@ == jumped_message(anchor@));
                }
                Ok(LinkStep::Done)
            },
            LinkTarget::RelativeFile { path, anchor } => {
                let has_md = has_md_extension(path.as_str());
                let dir = match self.current_dir() {
                    Ok(d) => d,
                    Err(e) => return Err(e),
                };
                if has_md {
                    return self.navigate_from_link(path.as_str(), anchor, LoadOrigin::Interactive, facts);
                }
                let mut md_path = string_from(path.as_str());
                push_str(&mut md_path, ".md");
                let md_info = lookup_info(facts, path_join(dir.as_str(), md_path.as_str()).as_str());
                if md_info.exists && !md_info.is_symlink {
                    return self.navigate_from_link(md_path.as_str(), anchor, LoadOrigin::Interactive, facts);
                }
                let absolute_path = path_join(dir.as_str(), path.as_str());
                let info = lookup_info(facts, absolute_path.as_str());
                if info.exists && !info.is_symlink {
                    self.pending_editor_file = Some(absolute_path);
                    self.exit_interactive_mode();
                    return Ok(LinkStep::Done);
                }
                let rel = if path_extension(path.as_str()).is_none() { md_path } else { path };
                self.navigate_from_link(rel.as_str(), anchor, LoadOrigin::Interactive, facts)
            },
            LinkTarget::WikiLink { target } => self.wikilink_from_link(target.as_str(), LoadOrigin::Interactive, facts),
            LinkTarget::External(url) => {
                let v = chars_of(url.as_str());
                if !starts_with(&v, &chars_of("http://")) && !starts_with(&v, &chars_of("https://")) {
                    return Err(string_from("Unsafe URL scheme. Only http:// and https:// URLs are allowed."));
                }
                assert(web_url(url@));
                Ok(LinkStep::OpenUrl(url))
            },
        }
    }

    /// Report on a URL of interactive mode the driver tried to open:
    /// `✓ Opened <url>`, or the error `Failed to open URL: <error>`.
    pub fn finish_open_url_interactive(&mut self, url: &str, opened: Result<(), String>) -> (r: Result<(), String>)
        ensures
            match opened {
                Ok(()) => {
                    &&& r is Ok
                    &&& final(self).status_message matches Some(m) && m@ == "✓ Opened "@ + url@
                    &&& *final(self) == (App { status_message: final(self).status_message, ..*old(self) })
                },
                Err(e) => r matches Err(m) && m@ == "Failed to open URL: "@ + e@ && *final(self) == *old(self),
            },
    {
        proof {
            reveal_strlit("✓ Opened ");
            reveal_strlit("Failed to open URL: ");
        }
        match opened {
            Ok(()) => {
                let mut msg = string_from("✓ Opened ");
                push_str(&mut msg, url);
                self.status_message = Some(msg);
                Ok(())
            },
            Err(e) => {
                let mut msg = string_from("Failed to open URL: ");
                push_str(&mut msg, e.as_str());
                Err(msg)
            },
        }
    }
}

// ---------------------------------------------------------------------------
// Paths to probe, waiting navigations and new files
// ---------------------------------------------------------------------------

/// The paths whose state following a link to `dest` may consult: for a
/// relative file, the path and the path with `.md`; for a wikilink to a
/// file, each candidate name; all in the current file's directory.
pub open spec fn probe_paths_spec(current_file: Seq<char>, dest: LinkTargetView) -> Seq<Seq<char>> {
    match parent_of(current_file) {
        None => seq![],
        Some(d) => match dest {
            LinkTargetView::RelativeFile { path, anchor: _ } => seq![joined(d, path), joined(d, path + ".md"@)],
            LinkTargetView::WikiLink { target } => if target.len() > 0 && target[0] == '#' {
                seq![]
            } else {
                wiki_candidates(slashes(wiki_file_part(target))).map_values(|c: Seq<char>| joined(d, c))
            },
            _ => seq![],
        },
    }
}

/// Name for what `Path::file_stem` gives of a path (as text).
pub uninterp spec fn file_stem_of(p: Seq<char>) -> Option<Seq<char>>;

/// `Path::file_stem`: the file name without its extension. The contract
/// only ties the result to [`file_stem_of`].
#[verifier::external_body]
pub(crate) fn path_file_stem(p: &str) -> (r: Option<String>)
    ensures
        opt_chars(r) == file_stem_of(p@),
{
    std::path::Path::new(p).file_stem().map(|n| n.to_string_lossy().into_owned())
}

/// What went wrong creating a file.
#[derive(Debug, Clone, PartialEq, Eq)]
pub enum CreateError {
    /// Creating its directory failed with this error.
    Directory(String),
    /// Writing the file failed with this error.
    File(String),
}

/// The message of a file creation error.
pub open spec fn create_error_message(e: CreateError) -> Seq<char> {
    match e {
        CreateError::Directory(m) => "Failed to create directory: "@ + m@,
        CreateError::File(m) => "Failed to create file: "@ + m@,
    }
}

/// `# <stem>` and a blank line: the content of a new file.
pub open spec fn new_file_content(path: Seq<char>) -> Seq<char> {
    let stem = match file_stem_of(path) {
        Some(s) => s,
        None => "untitled"@,
    };
    "# "@ + stem + "\n\n"@
}

/// The name by which a new file is loaded: its file name, or its path.
pub open spec fn created_name(path: Seq<char>) -> Seq<char> {
    match file_name_of(path) {
        Some(n) => n,
        None => path,
    }
}

impl App {
    /// The paths whose state following a link to `target` may consult
    /// (see [`probe_paths_spec`]); the driver reports on each of them.
    pub fn probe_paths_for(&self, target: &LinkTarget) -> (v: Vec<String>)
        ensures
            v@.len() == probe_paths_spec(self.current_file_path@, target@).len(),
            forall|k: int| 0 <= k < v@.len() ==> (#[trigger] v@[k])@ == probe_paths_spec(self.current_file_path@, target@)[k],
    {
        proof {
            reveal_strlit(".md");
            reveal_strlit(".markdown");
            reveal_strlit(".mdown");
        }
        let mut v: Vec<String> = Vec::new();
        let dir = match path_parent(self.current_file_path.as_str()) {
            Some(d) => d,
            None => return v,
        };
        match target {
            LinkTarget::RelativeFile { path, anchor: _ } => {
                v.push(path_join(dir.as_str(), path.as_str()));
                let mut md = string_from(path.as_str());
                push_str(&mut md, ".md");
                v.push(path_join(dir.as_str(), md.as_str()));
            },
            LinkTarget::WikiLink { target } => {
                let tv = chars_of(target.as_str());
                if tv.len() > 0 && tv[0] == '#' {
                    return v;
                }
                let hash: Vec<char> = vec!['#'];
                assert(hash@ =~= seq!['#']);
                let file = match find_from(&tv, &hash, 0) {
                    Some(i) => {
                        proof { lemma_find_from_found(tv@, hash@, 0, i as int); }
                        copy_prefix(&tv, i)
                    },
                    None => copy_prefix(&tv, tv.len()),
                };
                assert(file@ == wiki_file_part(target@)) by {
                    assert(tv@.take(tv@.len() as int) =~= tv@);
                }
                let ftv = to_slashes(&file);
                let ft = string_of(&ftv);
                let lower = chars_of(to_lowercase(ft.as_str()).as_str());
                let has_md = ends_with(&lower, &chars_of(".md")) || ends_with(&lower, &chars_of(".markdown"))
                    || ends_with(&lower, &chars_of(".mdown"));
                assert(has_md == wiki_has_md(ft@));
                if has_md {
                    v.push(path_join(dir.as_str(), ft.as_str()));
                } else {
                    let mut a = string_from(ft.as_str());
                    push_str(&mut a, ".md");
                    let mut b = string_from(ft.as_str());
                    push_str(&mut b, ".markdown");
                    v.push(path_join(dir.as_str(), a.as_str()));
                    v.push(path_join(dir.as_str(), b.as_str()));
                    v.push(path_join(dir.as_str(), ft.as_str()));
                }
            },
            _ => {},
        }
        v
    }

    /// Carry out a navigation that waited for unsaved changes: load the
    /// file without asking again (see [`App::load_file_internal`]),
    /// reporting an error as `✗ <message>`.
    pub fn run_pending_load(&mut self, path: &str, anchor: Option<String>, facts: &Vec<(String, PathInfo)>) -> (r: Option<LoadRequest>)
        ensures
            match nav_internal(old(self).current_file_path@, path@, facts@) {
                Nav::Fail(m) => {
                    &&& r is None
                    &&& final(self).status_message matches Some(s) && s@ == "✗ "@ + m
                    &&& *final(self) == (App { status_message: final(self).status_message, ..*old(self) })
                },
                Nav::Load(p) => {
                    &&& r matches Some(q) && q.path@ == p && opt_chars(q.anchor) == opt_chars(anchor)
                        && q.origin == LoadOrigin::PendingNavigation
                    &&& *final(self) == *old(self)
                },
                n => nav_done(*old(self), *final(self), Ok(r), path@, opt_chars(anchor), LoadOrigin::PendingNavigation, n),
            },
    {
        match self.load_file_internal(path, anchor, LoadOrigin::PendingNavigation, facts) {
            Ok(q) => q,
            Err(e) => {
                let mut msg = string_from("✗ ");
                push_str(&mut msg, e.as_str());
                proof { reveal_strlit("✗ "); }
                self.status_message = Some(msg);
                None
            },
        }
    }

    /// Start creating the file awaiting confirmation: it is no longer
    /// pending, and the driver creates its directory and writes the
    /// returned content to it (see [`new_file_content`]), then reports
    /// with [`App::finish_file_create`].
    pub fn begin_file_create(&mut self) -> (r: Option<(String, String)>)
        ensures
            match old(self).pending_file_create {
                Some(p) => r matches Some((q, c)) && q == p && c@ == new_file_content(p@),
                None => r is None,
            },
            *final(self) == (App { pending_file_create: None, ..*old(self) }),
    {
        proof {
            reveal_strlit("untitled");
            reveal_strlit("# ");
            reveal_strlit("\n\n");
        }
        match self.pending_file_create.take() {
            Some(path) => {
                let stem = match path_file_stem(path.as_str()) {
                    Some(s) => s,
                    None => string_from("untitled"),
                };
                let mut content = string_from("# ");
                push_str(&mut content, stem.as_str());
                push_str(&mut content, "\n\n");
                assert(content@ =~= new_file_content(path@));
                Some((path, content))
            },
            None => None,
        }
    }

    /// Open a file the driver just created (or report why it could not):
    /// its name is navigated to (see [`App::load_file`]), and once there
    /// `✓ Created and opened <name>` is shown and link follow mode left;
    /// an error is shown as `✗ Error: <message>`.
    pub fn finish_file_create(&mut self, path: &str, created: Result<(), CreateError>, facts: &Vec<(String, PathInfo)>) -> (r: Option<LoadRequest>)
        ensures
            match created {
                Err(e) => {
                    &&& r is None
                    &&& final(self).status_message matches Some(s) && s@ == "✗ Error: "@ + create_error_message(e)
                    &&& *final(self) == (App { status_message: final(self).status_message, ..*old(self) })
                },
                Ok(()) => {
                    let cleared = App { pending_file_create_message: None, mode: AppMode::Normal, ..*old(self) };
                    let name = created_name(path@);
                    match nav_file(cleared, name, facts@) {
                        Nav::Fail(m) => {
                            &&& r is None
                            &&& final(self).status_message matches Some(s) && s@ == "✗ Error: "@ + m
                            &&& *final(self) == (App { status_message: final(self).status_message, ..cleared })
                        },
                        Nav::Load(p) => {
                            &&& r matches Some(q) && q.path@ == p && q.anchor is None
                                && (q.origin matches LoadOrigin::Created(st) && st@ == "✓ Created and opened "@ + name)
                            &&& *final(self) == cleared
                        },
                        n => r is None && exists|mid: App| #[trigger] nav_done(cleared, mid, Ok(None), name, None, LoadOrigin::PendingNavigation, n)
                            && exited_link_mode(mid, *final(self), Some("✓ Created and opened "@ + name)),
                    }
                },
            },
    {
        proof {
            reveal_strlit("✗ Error: ");
            reveal_strlit("Failed to create directory: ");
            reveal_strlit("Failed to create file: ");
            reveal_strlit("✓ Created and opened ");
        }
        match created {
            Err(e) => {
                let mut msg = string_from("✗ Error: ");
                match e {
                    CreateError::Directory(m) => {
                        push_str(&mut msg, "Failed to create directory: ");
                        push_str(&mut msg, m.as_str());
                    },
                    CreateError::File(m) => {
                        push_str(&mut msg, "Failed to create file: ");
                        push_str(&mut msg, m.as_str());
                    },
                }
                assert(msg@ =~= "✗ Error: "@ + create_error_message(created->Err_0));
                self.status_message = Some(msg);
                None
            },
            Ok(()) => {
                let name = match path_file_name(path) {
                    Some(n) => n,
                    None => string_from(path),
                };
                self.pending_file_create_message = None;
                self.mode = AppMode::Normal;
                let ghost cleared = *self;
                let mut st = string_from("✓ Created and opened ");
                push_str(&mut st, name.as_str());
                let ghost sv = st@;
                let origin = LoadOrigin::Created(string_from(st.as_str()));
                match self.load_file(name.as_str(), None, origin, facts) {
                    Err(e) => {
                        let mut msg = string_from("✗ Error: ");
                        push_str(&mut msg, e.as_str());
                        self.status_message = Some(msg);
                        None
                    },
                    Ok(Some(q)) => Some(q),
                    Ok(None) => {
                        let ghost mid = *self;
                        assert(nav_done(cleared, mid, Ok(None), name@, None, LoadOrigin::PendingNavigation, nav_file(cleared, name@, facts@)));
                        self.exit_link_mode_with(st);
                        None
                    },
                }
            },
        }
    }
}

} // verus!
