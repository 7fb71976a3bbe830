use treemd_core::activate::ElementStep;
use treemd_core::app::{App, AppMode, Document, Heading, HeadingNode};
use treemd_core::blocks::{Block, Link, LinkTarget, ListItem, InlineElement};
use treemd_core::checkbox::toggle_checkbox_by_content;
use treemd_core::content::{ClipboardError, ReloadReason};
use treemd_core::search::find_doc_matches;

fn heading(level: usize, text: &str, offset: usize) -> Heading {
    Heading { level, text: text.to_string(), offset }
}

/// "# Intro\ntext\n## Setup\n- [ ] milk\n# API\n" at /w/a.md, each heading with its section.
fn app() -> App {
    let content = "# Intro\ntext\n## Setup\n- [ ] milk\n# API\n".to_string();
    let headings = vec![heading(1, "Intro", 0), heading(2, "Setup", 13), heading(1, "API", 33)];
    let sections = vec![
        "# Intro\ntext\n## Setup\n- [ ] milk\n".to_string(),
        "## Setup\n- [ ] milk\n".to_string(),
        "# API\n".to_string(),
    ];
    let tree = vec![
        HeadingNode {
            heading: heading(1, "Intro", 0),
            children: vec![HeadingNode { heading: heading(2, "Setup", 13), children: vec![] }],
        },
        HeadingNode { heading: heading(1, "API", 33), children: vec![] },
    ];
    App::new(Document { content, headings, sections }, tree, "a.md".to_string(), "/w/a.md".to_string(), 30, true, false)
}

#[test]
fn status_bar_in_normal_mode() {
    let mut app = app();
    assert_eq!(
        app.status_bar_text("Nord"),
        " [Outline] 1/3 (33%) • Outline:30% • i:Interactive • f:Links • b:Back • w:View • []:Size • m:Mark • y/Y:Copy • t:Theme • ?:Help  Theme:Nord "
    );
    app.layout.show_raw_source = true;
    app.layout.show_outline = false;
    app.outline.selected = Some(2);
    app.outline.bookmark_position = Some("API".to_string());
    assert_eq!(
        app.status_bar_text("Nord"),
        " [Outline] 3/3 (100%) ⚑ • Outline:Hidden • i:Interactive • f:Links • b:Back • w:View • []:Size • m:Mark • y/Y:Copy • t:Theme • ?:Help  Theme:Nord  [RAW]"
    );
    app.status_message = Some("hello".to_string());
    assert_eq!(app.status_bar_text("Nord"), "hello");
}

#[test]
fn status_bar_in_link_follow_mode() {
    let mut app = app();
    app.enter_link_follow_mode(
        vec!["Docs".to_string()],
        vec!["docs.md#intro".to_string()],
        vec![LinkTarget::RelativeFile { path: "docs.md".to_string(), anchor: Some("intro".to_string()) }],
    );
    assert_eq!(
        app.status_bar_text("Nord"),
        " [LINK FOLLOW MODE] Link 1/1: \"Docs\" → docs.md#intro • Tab:Next • Enter:Follow • Esc:Exit  Theme:Nord "
    );
    let mut app = self::app();
    let url = "https://example.com/a/very/long/path/that/goes/on/and/on";
    app.enter_link_follow_mode(vec!["X".to_string()], vec![url.to_string()], vec![LinkTarget::External(url.to_string())]);
    assert_eq!(
        app.status_bar_text("Nord"),
        " [LINK FOLLOW MODE] Link 1/1: \"X\" → https://example.com/a/very/long/path/... • Tab:Next • Enter:Follow • Esc:Exit  Theme:Nord "
    );
    let mut app = self::app();
    app.enter_link_follow_mode(vec![], vec![], vec![]);
    assert_eq!(
        app.status_bar_text("Nord"),
        " [LINK FOLLOW MODE] No links in current section • Press Esc to exit  Theme:Nord "
    );
}

#[test]
fn sections_are_found_by_heading_text() {
    let app = app();
    assert_eq!(app.document.extract_section("Setup").as_deref(), Some("## Setup\n- [ ] milk\n"));
    assert!(app.document.extract_section("Nope").is_none());
    assert_eq!(app.displayed_content(), "# Intro\ntext\n## Setup\n- [ ] milk\n");
}

#[test]
fn copy_content_and_anchor() {
    let mut app = app();
    app.outline.selected = Some(1);
    assert_eq!(app.copy_content().as_deref(), Some("## Setup\n- [ ] milk\n"));
    app.finish_copy_content(Ok(()));
    assert_eq!(app.status_message.as_deref(), Some("✓ Section copied to clipboard"));
    app.finish_copy_content(Err(ClipboardError::Unavailable));
    assert_eq!(app.status_message.as_deref(), Some("✗ Clipboard not available"));
    let link = app.copy_anchor().unwrap();
    assert_eq!(link, "#setup");
    app.finish_copy_anchor(&link, Ok(()));
    assert_eq!(app.status_message.as_deref(), Some("✓ Anchor link copied: #setup"));
    app.outline.selected = None;
    assert!(app.copy_content().is_none());
    assert_eq!(app.status_message.as_deref(), Some("✗ No heading selected"));
}

#[test]
fn content_metrics_follow_the_selection() {
    let mut app = app();
    app.layout.content_scroll = 4;
    app.update_content_metrics(&[]);
    assert_eq!(app.layout.content_scroll, 0);
    assert_eq!(app.layout.content_height, 4);
    assert_eq!(app.outline.previous_selection.as_deref(), Some("Intro"));
    app.layout.content_scroll = 2;
    app.update_content_metrics(&[]);
    assert_eq!(app.layout.content_scroll, 2);
}

fn task_list() -> Vec<Block> {
    vec![Block::List {
        ordered: false,
        items: vec![ListItem {
            checked: Some(false),
            content: "milk".to_string(),
            inline: vec![InlineElement::Text { value: "milk".to_string() }],
        }],
    }]
}

#[test]
fn interactive_mode_counts_elements() {
    let mut app = app();
    app.layout.show_raw_source = true;
    app.enter_interactive_mode(&task_list());
    assert_eq!(app.mode, AppMode::Interactive);
    assert!(!app.layout.show_raw_source);
    assert_eq!(app.interactive_state.current_index, Some(0));
    assert_eq!(app.status_message.as_deref(), Some("✓ Interactive mode: 1 elements found (Tab to cycle)"));
    let mut app = self::app();
    app.enter_interactive_mode(&[]);
    assert_eq!(app.status_message.as_deref(), Some("⚠ No interactive elements in this section"));
}

#[test]
fn activating_a_checkbox_asks_to_toggle_it() {
    let mut app = app();
    app.enter_interactive_mode(&task_list());
    match app.activate_interactive_element(&vec![], true).unwrap() {
        ElementStep::ToggleCheckbox { content, checked, snapshot } => {
            assert_eq!(content, "milk");
            assert!(!checked);
            assert!(snapshot.was_interactive);
        },
        other => panic!("expected a checkbox toggle, got {:?}", other),
    }
}

#[test]
fn activating_code_and_missing_element() {
    let mut app = app();
    assert_eq!(app.activate_interactive_element(&vec![], true).unwrap_err(), "No element selected");
    let code = vec![Block::Code { language: Some("rust".to_string()), content: "fn main() {}".to_string() }];
    app.enter_interactive_mode(&code);
    match app.activate_interactive_element(&vec![], true).unwrap() {
        ElementStep::CopyCode(c) => assert_eq!(c, "fn main() {}"),
        other => panic!("expected code to copy, got {:?}", other),
    }
    assert!(app.finish_copy_code(Ok(())).is_ok());
    assert_eq!(app.status_message.as_deref(), Some("✓ Code copied to clipboard"));
    assert_eq!(
        app.finish_copy_code(Err(ClipboardError::Failed("busy".to_string()))).unwrap_err(),
        "Clipboard error: busy"
    );
}

#[test]
fn activating_a_link_follows_it() {
    let mut app = app();
    let para = vec![Block::Paragraph {
        content: "see [API](#api)".to_string(),
        inline: vec![InlineElement::Link { text: "API".to_string(), url: "#api".to_string() }],
    }];
    app.enter_interactive_mode(&para);
    match app.activate_interactive_element(&vec![], true).unwrap() {
        ElementStep::Link(_) => {},
        other => panic!("expected a link step, got {:?}", other),
    }
    assert_eq!(app.outline.selected, Some(2));
    assert_eq!(app.mode, AppMode::Normal);
    assert_eq!(app.status_message.as_deref(), Some("✓ Jumped to #api"));
    let _ = Link::new("x".to_string(), LinkTarget::Anchor("x".to_string()), 0);
}

#[test]
fn checkbox_toggled_in_file() {
    let file = "# T\n- [ ] milk\n  - [x] **eggs**\n- [ ] milk\n";
    assert_eq!(
        toggle_checkbox_by_content(file, "milk", false).unwrap(),
        "# T\n- [x] milk\n  - [x] **eggs**\n- [ ] milk\n"
    );
    assert_eq!(
        toggle_checkbox_by_content(file, "[x] eggs", true).unwrap(),
        "# T\n- [ ] milk\n  - [ ] **eggs**\n- [ ] milk\n"
    );
    assert_eq!(
        toggle_checkbox_by_content(file, "bread", false).unwrap_err(),
        "Checkbox not found in file: 'bread'"
    );
}

#[test]
fn reload_keeps_selection_and_scroll() {
    let mut app = app();
    app.outline.selected = Some(2);
    app.layout.content_scroll = 1;
    let snap = app.reload_snapshot();
    let doc = Document {
        content: "# Intro\n# API\nmore\n".to_string(),
        headings: vec![heading(1, "Intro", 0), heading(1, "API", 8)],
        sections: vec!["# Intro\n".to_string(), "# API\nmore\n".to_string()],
    };
    let tree = vec![
        HeadingNode { heading: heading(1, "Intro", 0), children: vec![] },
        HeadingNode { heading: heading(1, "API", 8), children: vec![] },
    ];
    app.reload_current_file(doc, tree);
    assert_eq!(app.outline.selected, Some(1));
    assert_eq!(app.layout.content_scroll, 1);
    assert_eq!(app.filename, "a.md");
    app.restore_after_reload(snap, &[], ReloadReason::ExternalChange);
    assert_eq!(app.status_message.as_deref(), Some("↻ File reloaded (external change)"));
    assert_eq!(app.outline.previous_selection.as_deref(), Some("API"));
    assert!(!app.suppress_file_watch);
    app.restore_after_reload(snap, &[], ReloadReason::CheckboxSaved(false));
    assert_eq!(app.status_message.as_deref(), Some("✓ Checkbox checked and saved"));
    assert!(app.take_watch_suppression());
    assert!(!app.take_watch_suppression());
}

#[test]
fn status_messages_expire_after_a_second() {
    let mut app = app();
    app.set_status_message("hi");
    assert!(!app.clear_expired_status_message(Some(999)));
    assert_eq!(app.status_message.as_deref(), Some("hi"));
    assert!(app.clear_expired_status_message(Some(1000)));
    assert!(app.status_message.is_none());
    assert!(!app.clear_expired_status_message(None));
}

#[test]
fn file_picker_selection_goes_through_history() {
    let mut app = app();
    app.enter_file_picker(
        vec!["/w/a.md".to_string(), "/w/b.md".to_string()],
        vec!["a.md".to_string(), "b.md".to_string()],
    );
    app.next_file();
    let path = app.select_file_from_picker().unwrap().unwrap();
    assert_eq!(path, "/w/b.md");
    assert_eq!(app.history.file_history.len(), 1);
    assert_eq!(app.history.file_history[0].document.content, app.document.content);
    let doc = Document { content: "# B\n".to_string(), headings: vec![heading(1, "B", 0)], sections: vec!["# B\n".to_string()] };
    let tree = vec![HeadingNode { heading: heading(1, "B", 0), children: vec![] }];
    app.finish_select_file(path, Ok((doc, tree))).unwrap();
    assert_eq!(app.current_file_path, "/w/b.md");
    assert_eq!(app.filename, "b.md");
    assert_eq!(app.mode, AppMode::Normal);
    let r = app.finish_select_file("/w/c.md".to_string(), Err("gone".to_string()));
    assert_eq!(r.unwrap_err(), "Failed to read file: gone");
}

#[test]
fn doc_search_uses_plain_text_of_section() {
    let mut app = app();
    app.outline.selected = Some(1);
    app.enter_doc_search();
    app.doc_search_input('m');
    assert_eq!(app.doc_search.doc_search_matches.len(), 1);
    assert!(find_doc_matches("milk", "m").len() == 1);
}
