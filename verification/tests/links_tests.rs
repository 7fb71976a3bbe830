use treemd_core::app::{App, AppMode, Document, Heading, HeadingNode, PendingNavigation};
use treemd_core::blocks::{Link, LinkTarget};
use treemd_core::links::{
    eq_ignore_ascii_case, has_md_extension, has_parent_component, CreateError, LinkStep, LoadOrigin, PathInfo,
};

fn heading(level: usize, text: &str, offset: usize) -> Heading {
    Heading { level, text: text.to_string(), offset }
}

/// "# Intro\n## Getting Started\n# API\n" at /w/a.md.
fn app() -> App {
    let content = "# Intro\n## Getting Started\n# API\n".to_string();
    let headings = vec![heading(1, "Intro", 0), heading(2, "Getting Started", 8), heading(1, "API", 27)];
    let tree = vec![
        HeadingNode {
            heading: heading(1, "Intro", 0),
            children: vec![HeadingNode { heading: heading(2, "Getting Started", 8), children: vec![] }],
        },
        HeadingNode { heading: heading(1, "API", 27), children: vec![] },
    ];
    let sections = headings.iter().map(|h| format!("# {}\n", h.text)).collect();
    App::new(Document { content, headings, sections }, tree, "a.md".to_string(), "/w/a.md".to_string(), 30, true, false)
}

fn with_link(mut app: App, target: LinkTarget) -> App {
    app.enter_link_follow_mode(vec!["link".to_string()], vec!["link".to_string()], vec![target]);
    app
}

fn file(path: &str) -> (String, PathInfo) {
    (path.to_string(), PathInfo { exists: true, is_symlink: false, escapes_base: false })
}

fn other_doc() -> (Document, Vec<HeadingNode>) {
    let h = heading(1, "Other", 0);
    (
        Document {
            content: "# Other\n## Part\n".to_string(),
            headings: vec![h.clone(), heading(2, "Part", 8)],
            sections: vec!["# Other\n## Part\n".to_string(), "## Part\n".to_string()],
        },
        vec![HeadingNode { heading: h, children: vec![HeadingNode { heading: heading(2, "Part", 8), children: vec![] }] }],
    )
}

#[test]
fn anchor_link_jumps_to_heading() {
    let mut app = with_link(app(), LinkTarget::Anchor("getting-started".to_string()));
    let step = app.follow_selected_link(&vec![]).unwrap();
    assert_eq!(step, LinkStep::Done);
    assert_eq!(app.outline.selected, Some(1));
    assert_eq!(app.status_message.as_deref(), Some("✓ Jumped to #getting-started"));
    assert_eq!(app.mode, AppMode::Normal);
    assert!(app.links.link_texts.is_empty());
}

#[test]
fn anchor_matches_heading_text_ignoring_ascii_case() {
    let mut app = with_link(app(), LinkTarget::Anchor("api".to_string()));
    app.follow_selected_link(&vec![]).unwrap();
    assert_eq!(app.outline.selected, Some(2));
    let mut app = with_link(self::app(), LinkTarget::Anchor("Getting STARTED".to_string()));
    app.follow_selected_link(&vec![]).unwrap();
    assert_eq!(app.outline.selected, Some(1));
}

#[test]
fn missing_anchor_is_an_error() {
    let mut app = with_link(app(), LinkTarget::Anchor("nowhere".to_string()));
    let err = app.follow_selected_link(&vec![]).unwrap_err();
    assert_eq!(err, "Heading 'nowhere' not found");
    assert_eq!(app.mode, AppMode::LinkFollow);
}

#[test]
fn markdown_file_is_loaded_then_mode_left() {
    let mut app = with_link(
        app(),
        LinkTarget::RelativeFile { path: "docs/b.md".to_string(), anchor: Some("part".to_string()) },
    );
    let facts = vec![file("/w/docs/b.md")];
    let step = app.follow_selected_link(&facts).unwrap();
    let req = match step {
        LinkStep::Load(req) => req,
        other => panic!("expected a load, got {:?}", other),
    };
    assert_eq!(req.path, "/w/docs/b.md");
    assert_eq!(req.anchor.as_deref(), Some("part"));
    assert_eq!(req.origin, LoadOrigin::LinkFollow(Some("✓ Opened b.md".to_string())));
    assert_eq!(app.mode, AppMode::LinkFollow);
    let (doc, tree) = other_doc();
    app.finish_load(Ok((doc, tree)), req);
    assert_eq!(app.current_file_path, "/w/docs/b.md");
    assert_eq!(app.filename, "b.md");
    assert_eq!(app.outline.selected, Some(1));
    assert_eq!(app.history.file_history.len(), 1);
    assert_eq!(app.history.file_history[0].path, "/w/a.md");
    assert_eq!(app.status_message.as_deref(), Some("✓ Opened b.md"));
    assert_eq!(app.mode, AppMode::Normal);
}

#[test]
fn failed_parse_is_reported() {
    let mut app = with_link(app(), LinkTarget::RelativeFile { path: "b.md".to_string(), anchor: None });
    let req = match app.follow_selected_link(&vec![file("/w/b.md")]).unwrap() {
        LinkStep::Load(req) => req,
        other => panic!("expected a load, got {:?}", other),
    };
    app.finish_load(Err("bad bytes".to_string()), req);
    assert_eq!(app.status_message.as_deref(), Some("✗ Error: Failed to load file: bad bytes"));
    assert_eq!(app.current_file_path, "/w/a.md");
}

#[test]
fn extensionless_link_prefers_markdown_file() {
    let mut app = with_link(app(), LinkTarget::RelativeFile { path: "notes".to_string(), anchor: None });
    let step = app.follow_selected_link(&vec![file("/w/notes.md"), file("/w/notes")]).unwrap();
    match step {
        LinkStep::Load(req) => {
            assert_eq!(req.path, "/w/notes.md");
            assert_eq!(req.origin, LoadOrigin::LinkFollow(Some("✓ Opened notes.md".to_string())));
        },
        other => panic!("expected a load, got {:?}", other),
    }
}

#[test]
fn other_existing_file_goes_to_editor() {
    let mut app = with_link(app(), LinkTarget::RelativeFile { path: "img.png".to_string(), anchor: None });
    let step = app.follow_selected_link(&vec![file("/w/img.png")]).unwrap();
    assert_eq!(step, LinkStep::Done);
    assert_eq!(app.pending_editor_file.as_deref(), Some("/w/img.png"));
    assert_eq!(app.mode, AppMode::Normal);
}

#[test]
fn missing_file_is_offered_for_creation() {
    let mut app = with_link(app(), LinkTarget::RelativeFile { path: "new".to_string(), anchor: None });
    let step = app.follow_selected_link(&vec![]).unwrap();
    assert_eq!(step, LinkStep::Done);
    assert_eq!(app.mode, AppMode::ConfirmFileCreate);
    assert_eq!(app.pending_file_create.as_deref(), Some("/w/new.md"));
    assert_eq!(app.pending_file_create_message.as_deref(), Some("File 'new.md' does not exist. Create it?"));
    let (path, content) = app.begin_file_create().unwrap();
    assert_eq!(path, "/w/new.md");
    assert_eq!(content, "# new\n\n");
    assert!(app.pending_file_create.is_none());
    let req = app.finish_file_create(&path, Ok(()), &vec![file("/w/new.md")]).unwrap();
    assert_eq!(req.path, "/w/new.md");
    assert_eq!(req.origin, LoadOrigin::Created("✓ Created and opened new.md".to_string()));
    assert_eq!(app.mode, AppMode::Normal);
}

#[test]
fn file_creation_error_is_reported() {
    let mut app = app();
    let r = app.finish_file_create("/w/x.md", Err(CreateError::File("disk full".to_string())), &vec![]);
    assert!(r.is_none());
    assert_eq!(app.status_message.as_deref(), Some("✗ Error: Failed to create file: disk full"));
}

#[test]
fn traversal_and_absolute_paths_are_refused() {
    let mut app = with_link(app(), LinkTarget::RelativeFile { path: "../secret.md".to_string(), anchor: None });
    assert_eq!(
        app.follow_selected_link(&vec![file("/secret.md")]).unwrap_err(),
        "Path traversal (..) is not allowed for security reasons"
    );
    let mut app = with_link(self::app(), LinkTarget::RelativeFile { path: "/etc/x.md".to_string(), anchor: None });
    assert_eq!(
        app.follow_selected_link(&vec![file("/etc/x.md")]).unwrap_err(),
        "Absolute paths are not allowed for security reasons"
    );
    let mut app = with_link(self::app(), LinkTarget::RelativeFile { path: "l.md".to_string(), anchor: None });
    let facts = vec![("/w/l.md".to_string(), PathInfo { exists: true, is_symlink: true, escapes_base: false })];
    assert_eq!(app.follow_selected_link(&facts).unwrap_err(), "Symlinks are not allowed for security reasons");
}

#[test]
fn unsaved_changes_make_navigation_wait() {
    let mut app = with_link(app(), LinkTarget::RelativeFile { path: "b.md".to_string(), anchor: None });
    app.edits.has_unsaved_changes = true;
    let step = app.follow_selected_link(&vec![file("/w/b.md")]).unwrap();
    assert_eq!(step, LinkStep::Done);
    match &app.pending_navigation {
        Some(PendingNavigation::LoadFile(p, a)) => {
            assert_eq!(p, "b.md");
            assert!(a.is_none());
        },
        other => panic!("expected a pending load, got {:?}", other),
    }
    let req = app.run_pending_load("b.md", None, &vec![file("/w/b.md")]).unwrap();
    assert_eq!(req.path, "/w/b.md");
    assert_eq!(req.origin, LoadOrigin::PendingNavigation);
}

#[test]
fn wikilinks_try_candidate_names() {
    let mut app = with_link(app(), LinkTarget::WikiLink { target: "Notes#part".to_string() });
    match app.follow_selected_link(&vec![file("/w/Notes.markdown")]).unwrap() {
        LinkStep::Load(req) => {
            assert_eq!(req.path, "/w/Notes.markdown");
            assert_eq!(req.anchor.as_deref(), Some("part"));
            assert_eq!(req.origin, LoadOrigin::LinkFollow(Some("✓ Opened [[Notes#part]]".to_string())));
        },
        other => panic!("expected a load, got {:?}", other),
    }
    let mut app = with_link(self::app(), LinkTarget::WikiLink { target: "Missing".to_string() });
    app.follow_selected_link(&vec![]).unwrap();
    assert_eq!(app.mode, AppMode::ConfirmFileCreate);
    assert_eq!(app.pending_file_create.as_deref(), Some("/w/Missing.md"));
    assert_eq!(
        app.pending_file_create_message.as_deref(),
        Some("Wikilink '[[Missing]]' not found. Create 'Missing.md'?")
    );
}

#[test]
fn wikilink_errors_become_status() {
    let mut app = with_link(app(), LinkTarget::WikiLink { target: "../up".to_string() });
    assert_eq!(app.follow_link_action(&vec![]), LinkStep::Done);
    assert_eq!(app.status_message.as_deref(), Some("✗ Error: WikiLinks cannot contain path traversal (..)"));
    let mut app = with_link(self::app(), LinkTarget::WikiLink { target: "#API".to_string() });
    app.follow_selected_link(&vec![]).unwrap();
    assert_eq!(app.outline.selected, Some(2));
    assert_eq!(app.status_message.as_deref(), Some("✓ Opened [[#API]]"));
}

#[test]
fn external_links_are_left_to_the_driver() {
    let mut app = with_link(app(), LinkTarget::External("https://example.com".to_string()));
    assert_eq!(app.follow_selected_link(&vec![]).unwrap(), LinkStep::OpenUrl("https://example.com".to_string()));
    app.finish_open_url("https://example.com", true, false);
    assert_eq!(app.status_message.as_deref(), Some("✓ Opened https://example.com in browser"));
    assert_eq!(app.mode, AppMode::Normal);
}

#[test]
fn no_selected_link_is_reported() {
    let mut app = app();
    assert_eq!(app.follow_link_action(&vec![]), LinkStep::Done);
    assert_eq!(app.status_message.as_deref(), Some("✗ Error: No link selected"));
}

#[test]
fn interactive_links_refuse_unsafe_schemes() {
    let mut app = app();
    let link = Link::new("x".to_string(), LinkTarget::External("javascript:alert(1)".to_string()), 0);
    assert_eq!(
        app.follow_link_from_interactive(&link, &vec![]).unwrap_err(),
        "Unsafe URL scheme. Only http:// and https:// URLs are allowed."
    );
    let link = Link::new("x".to_string(), LinkTarget::External("https://a.b".to_string()), 0);
    assert_eq!(app.follow_link_from_interactive(&link, &vec![]).unwrap(), LinkStep::OpenUrl("https://a.b".to_string()));
    assert!(app.finish_open_url_interactive("https://a.b", Ok(())).is_ok());
    assert_eq!(app.status_message.as_deref(), Some("✓ Opened https://a.b"));
    assert_eq!(
        app.finish_open_url_interactive("https://a.b", Err("no browser".to_string())).unwrap_err(),
        "Failed to open URL: no browser"
    );
}

#[test]
fn probe_paths_cover_candidates() {
    let app = app();
    let rel = LinkTarget::RelativeFile { path: "b".to_string(), anchor: None };
    assert_eq!(app.probe_paths_for(&rel), vec!["/w/b".to_string(), "/w/b.md".to_string()]);
    let wiki = LinkTarget::WikiLink { target: "dir\\Note#x".to_string() };
    assert_eq!(
        app.probe_paths_for(&wiki),
        vec!["/w/dir/Note.md".to_string(), "/w/dir/Note.markdown".to_string(), "/w/dir/Note".to_string()]
    );
}

#[test]
fn path_helpers() {
    assert!(has_parent_component("a/../b"));
    assert!(!has_parent_component("a/..b/c"));
    assert!(has_md_extension("x/Readme.MD"));
    assert!(has_md_extension("n.mdown"));
    assert!(!has_md_extension(".md"));
    assert!(eq_ignore_ascii_case("Hello World", "hELLO wORLD"));
    assert!(!eq_ignore_ascii_case("Hello", "Hello!"));
}
