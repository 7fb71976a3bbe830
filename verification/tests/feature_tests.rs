use treemd_core::app::{App, AppMode, Document, Heading, HeadingNode, PendingNavigation};
use treemd_core::blocks::{Alignment, Block, InlineElement, LinkTarget};
use treemd_core::content::ClipboardError;
use treemd_core::dispatch::Action;
use treemd_core::highlight::highlight_matches;
use treemd_core::image_cache::composite_gif_frame;
use treemd_core::kitty::{is_kitty_terminal, KittyAnimation};
use treemd_core::modal::{resolve_image_path, ImageModal};
use treemd_core::links::{LoadOrigin, LoadRequest};
use treemd_core::modes::Task;
use treemd_core::tables::TableCopy;
use treemd_core::terminal::parse_darwin_major;
use treemd_core::todos::{preamble_has_open_todos, text_has_open_todo};

fn heading(level: usize, text: &str, offset: usize) -> Heading {
    Heading { level, text: text.to_string(), offset }
}

/// "# Intro\ntext\n## Setup\n- [ ] milk\n# API\n" at /w/a.md.
fn app() -> App {
    let content = "# Intro\ntext\n## Setup\n- [ ] milk\n# API\n".to_string();
    let headings = vec![heading(1, "Intro", 0), heading(2, "Setup", 13), heading(1, "API", 33)];
    let sections = vec![
        "# Intro\ntext\n## Setup\n- [ ] milk\n".to_string(),
        "## Setup\n- [ ] milk\n".to_string(),
        "# API\n".to_string(),
    ];
    let tree = vec![
        HeadingNode {
            heading: heading(1, "Intro", 0),
            children: vec![HeadingNode { heading: heading(2, "Setup", 13), children: vec![] }],
        },
        HeadingNode { heading: heading(1, "API", 33), children: vec![] },
    ];
    App::new(Document { content, headings, sections }, tree, "a.md".to_string(), "/w/a.md".to_string(), 30, true, false)
}

fn texts(app: &App) -> Vec<String> {
    app.outline.items.iter().map(|i| i.text.clone()).collect()
}

#[test]
fn todo_filter_keeps_headings_with_open_todos() {
    let mut app = app();
    app.outline.selected = Some(1);
    app.toggle_todo_filter();
    assert!(app.outline.filter_by_todos);
    assert_eq!(texts(&app), vec!["Intro", "Setup"]);
    assert_eq!(app.outline.selected, Some(1));
    assert_eq!(app.status_message.as_deref(), Some("Todo filter ON: 2 headings with open todos"));
    app.toggle_todo_filter();
    assert!(!app.outline.filter_by_todos);
    assert_eq!(texts(&app), vec!["Intro", "Setup", "API"]);
    assert_eq!(app.status_message.as_deref(), Some("Todo filter OFF: showing all headings"));
}

#[test]
fn todo_filter_moves_a_hidden_selection_to_the_first_row() {
    let mut app = app();
    app.outline.selected = Some(2);
    let (result, task) = app.execute_action(Action::ToggleTodoFilter);
    assert!(matches!(result, treemd_core::app::ActionResult::Continue));
    assert!(task.is_none());
    assert_eq!(texts(&app), vec!["Intro", "Setup"]);
    assert_eq!(app.outline.selected, Some(0));
}

#[test]
fn todo_filter_shows_the_overview_for_preamble_todos() {
    let content = "- [ ] a\n# H\nx\n".to_string();
    let document = Document { content, headings: vec![heading(1, "H", 8)], sections: vec!["# H\nx\n".to_string()] };
    let tree = vec![HeadingNode { heading: heading(1, "H", 8), children: vec![] }];
    let mut app = App::new(document, tree, "b.md".to_string(), "/w/b.md".to_string(), 30, true, false);
    assert_eq!(texts(&app), vec!["(Document)", "H"]);
    app.toggle_todo_filter();
    assert_eq!(texts(&app), vec!["(Document)"]);
    assert!(!app.outline.items[0].has_children);
    assert_eq!(app.status_message.as_deref(), Some("Todo filter ON: 1 heading with open todos"));
}

#[test]
fn open_todo_patterns() {
    assert!(text_has_open_todo("x\n- [ ] a"));
    assert!(text_has_open_todo("* [ ] b"));
    assert!(!text_has_open_todo("- [x] done"));
    assert!(preamble_has_open_todos("* [ ] first\n# Title\n"));
    assert!(!preamble_has_open_todos("# Title\n- [ ] later\n"));
    assert!(!preamble_has_open_todos("- [ ] no heading line at all"));
}

#[test]
fn darwin_major_version() {
    assert_eq!(parse_darwin_major("24.6.0"), Some(24));
    assert_eq!(parse_darwin_major("26.0.0\n"), Some(26));
    assert_eq!(parse_darwin_major("+25"), Some(25));
    assert_eq!(parse_darwin_major("abc"), None);
    assert_eq!(parse_darwin_major(""), None);
    assert_eq!(parse_darwin_major("99999999999.1"), None);
}

#[test]
fn gif_frames_paint_opaque_pixels_inside_the_canvas() {
    let mut canvas = vec![0u8; 8];
    composite_gif_frame(&mut canvas, 2, 1, &[1, 2, 3, 255], 1, 1, 1, 0);
    assert_eq!(canvas, vec![0, 0, 0, 0, 1, 2, 3, 255]);
    composite_gif_frame(&mut canvas, 2, 1, &[9, 9, 9, 0], 1, 1, 0, 0);
    assert_eq!(canvas, vec![0, 0, 0, 0, 1, 2, 3, 255]);
    composite_gif_frame(&mut canvas, 2, 1, &[7, 7, 7, 7], 1, 1, 2, 0);
    assert_eq!(canvas, vec![0, 0, 0, 0, 1, 2, 3, 255]);
}

#[test]
fn kitty_terminal_detection() {
    assert!(is_kitty_terminal(Some("xterm-kitty"), None, false));
    assert!(is_kitty_terminal(None, Some("Kitty"), false));
    assert!(is_kitty_terminal(None, None, true));
    assert!(!is_kitty_terminal(Some("xterm-256color"), Some("iTerm.app"), false));
}

/// A section with one table, in interactive table mode on its header.
fn table_app() -> (App, Vec<Block>) {
    let content = "# T\n| a | b |\n|---|---|\n| 1 | 2 |\n".to_string();
    let document = Document { content: content.clone(), headings: vec![heading(1, "T", 0)], sections: vec![content] };
    let tree = vec![HeadingNode { heading: heading(1, "T", 0), children: vec![] }];
    let mut app = App::new(document, tree, "t.md".to_string(), "/w/t.md".to_string(), 30, true, false);
    let blocks = vec![
        Block::Heading { level: 1, text: "T".to_string() },
        Block::Table {
            headers: vec!["a".to_string(), "b".to_string()],
            alignments: vec![Alignment::NotSpecified, Alignment::NotSpecified],
            rows: vec![vec!["1".to_string(), "2".to_string()]],
        },
    ];
    app.enter_interactive_mode(&blocks);
    assert!(app.interactive_state.enter_table_mode().is_ok());
    (app, blocks)
}

#[test]
fn table_data_and_copies() {
    let (mut app, blocks) = table_app();
    let (headers, rows) = app.current_table_data(&blocks).unwrap();
    assert_eq!(headers, vec!["a", "b"]);
    assert_eq!(rows, vec![vec!["1", "2"]]);
    assert_eq!(app.calculate_current_table_index(&blocks), Ok(0));
    assert_eq!(app.copy_table_cell(&blocks), Ok("a".to_string()));
    assert_eq!(app.copy_table_row(&blocks), Ok("a\tb".to_string()));
    assert_eq!(app.copy_table_markdown(&blocks), Ok("| a | b |\n| --- | --- |\n| 1 | 2 |\n".to_string()));
    assert!(app.finish_copy_table(TableCopy::Cell("a".to_string()), Ok(())).is_ok());
    assert_eq!(app.status_message.as_deref(), Some("✓ Cell copied: a"));
    assert!(app.finish_copy_table(TableCopy::Row, Ok(())).is_ok());
    assert_eq!(app.status_message.as_deref(), Some("✓ Row copied (tab-separated)"));
    assert_eq!(
        app.finish_copy_table(TableCopy::Table, Err(ClipboardError::Unavailable)),
        Err("Clipboard not available".to_string())
    );
    assert_eq!(app.status_message.as_deref(), Some("✓ Row copied (tab-separated)"));
}

#[test]
fn table_data_needs_a_selected_table() {
    let app = app();
    let blocks = vec![Block::HorizontalRule];
    assert!(app.current_table_data(&blocks).is_none());
    assert_eq!(app.calculate_current_table_index(&blocks), Err("Could not locate table".to_string()));
    assert_eq!(app.copy_table_row(&blocks), Err("No row selected".to_string()));
    assert_eq!(app.copy_table_markdown(&blocks), Err("No table data available".to_string()));
}

#[test]
fn parent_links_in_link_follow_mode() {
    let mut app = app();
    app.outline.selected = Some(1);
    app.enter_link_follow_mode(vec![], vec![], vec![]);
    assert!(app.jump_to_parent_links());
    assert_eq!(app.outline.selected, Some(0));
    app.set_parent_links(
        vec!["Docs".to_string()],
        vec!["docs.md".to_string()],
        vec![LinkTarget::RelativeFile { path: "docs.md".to_string(), anchor: None }],
    );
    assert_eq!(app.links.selected_link_idx, Some(0));
    assert_eq!(app.status_message.as_deref(), Some("✓ Jumped to parent (1 links found)"));
    assert!(!app.jump_to_parent_links());
    assert_eq!(app.status_message.as_deref(), Some("⚠ Already at top-level heading"));
    app.set_parent_links(vec![], vec![], vec![]);
    assert_eq!(app.status_message.as_deref(), Some("⚠ Parent has no links"));
}

#[test]
fn parent_links_need_link_follow_mode() {
    let mut app = app();
    app.outline.selected = Some(1);
    assert!(!app.jump_to_parent_links());
    assert_eq!(app.outline.selected, Some(1));
}

#[test]
fn saving_before_quitting() {
    let mut app = app();
    assert!(app.finish_save_and_quit(Ok(())));
    app.mode = AppMode::ConfirmSaveBeforeQuit;
    assert!(!app.finish_save_and_quit(Err("disk full".to_string())));
    assert_eq!(app.mode, AppMode::Normal);
    assert_eq!(app.status_message.as_deref(), Some("✗ Save failed: disk full"));
}

#[test]
fn saving_before_navigating() {
    let mut app = app();
    app.mode = AppMode::ConfirmSaveBeforeNav;
    app.pending_navigation = Some(PendingNavigation::LoadFile("b.md".to_string(), Some("x".to_string())));
    match app.finish_save_and_navigate(Ok(())) {
        Some(Task::LoadFile(p, a)) => {
            assert_eq!(p, "b.md");
            assert_eq!(a.as_deref(), Some("x"));
        },
        other => panic!("unexpected {:?}", other),
    }
    assert!(app.pending_navigation.is_none());
    app.mode = AppMode::ConfirmSaveBeforeNav;
    app.pending_navigation = Some(PendingNavigation::Back);
    assert!(app.finish_save_and_navigate(Err("no space".to_string())).is_none());
    assert!(app.pending_navigation.is_none());
    assert_eq!(app.mode, AppMode::Normal);
    assert_eq!(app.status_message.as_deref(), Some("✗ Save failed: no space"));
}

#[test]
fn loading_a_file_then_going_back_restores_it() {
    let mut app = app();
    app.layout.content_scroll = 2;
    let other = Document { content: "# B\n".to_string(), headings: vec![heading(1, "B", 0)], sections: vec!["# B\n".to_string()] };
    let other_tree = vec![HeadingNode { heading: heading(1, "B", 0), children: vec![] }];
    let request = LoadRequest { path: "/w/b.md".to_string(), anchor: None, origin: LoadOrigin::LinkFollow(None) };
    app.finish_load(Ok((other, other_tree)), request);
    assert_eq!(app.current_file_path, "/w/b.md");
    assert_eq!(app.document.content, "# B\n");
    assert_eq!(app.history.file_history.len(), 1);
    assert!(app.go_back().is_ok());
    assert_eq!(app.current_file_path, "/w/a.md");
    assert_eq!(app.filename, "a.md");
    assert_eq!(app.document.content, "# Intro\ntext\n## Setup\n- [ ] milk\n# API\n");
    assert_eq!(app.tree.len(), 2);
    assert_eq!(app.layout.content_scroll, 2);
    assert!(app.history.file_history.is_empty());
}

#[test]
fn directory_listing_keeps_markdown_files_sorted_by_name() {
    let entries = vec![
        ("zeta.md".to_string(), true),
        ("notes.txt".to_string(), true),
        ("Alpha.markdown".to_string(), true),
        ("dir.md".to_string(), false),
        ("beta.md".to_string(), true),
        ("README.MD".to_string(), true),
        ("b.md".to_string(), true),
    ];
    let (paths, names) = treemd_core::listing::markdown_files("/docs", &entries);
    assert_eq!(names, vec!["Alpha.markdown", "b.md", "beta.md", "zeta.md"]);
    assert_eq!(paths, vec!["/docs/Alpha.markdown", "/docs/b.md", "/docs/beta.md", "/docs/zeta.md"]);
    let (paths, names) = treemd_core::listing::markdown_files("/docs", &vec![]);
    assert!(paths.is_empty() && names.is_empty());
}

#[test]
fn heading_tree_nests_by_level() {
    let hs = vec![heading(1, "A", 0), heading(3, "B", 4), heading(2, "C", 10), heading(1, "D", 16), heading(2, "E", 20)];
    let tree = treemd_core::headings::build_tree(&hs);
    assert_eq!(tree.len(), 2);
    assert_eq!(tree[0].heading.text, "A");
    let a: Vec<&str> = tree[0].children.iter().map(|n| n.heading.text.as_str()).collect();
    assert_eq!(a, vec!["B", "C"]);
    assert!(tree[0].children[0].children.is_empty());
    assert_eq!(tree[1].heading.text, "D");
    assert_eq!(tree[1].children.len(), 1);
    assert_eq!(tree[1].children[0].heading.text, "E");
    let starts_deeper = vec![heading(2, "X", 0), heading(1, "Y", 5)];
    let tree = treemd_core::headings::build_tree(&starts_deeper);
    assert_eq!(tree.len(), 2);
    assert!(treemd_core::headings::build_tree(&vec![]).is_empty());
}

#[test]
fn heading_sections_run_to_the_next_heading_of_their_level() {
    let content = "# Intro\ntext\n## Setup\n- [ ] milk\n# API\n";
    let hs = vec![heading(1, "Intro", 0), heading(2, "Setup", 13), heading(1, "API", 33)];
    let sections = treemd_core::headings::heading_sections(content, &hs);
    assert_eq!(sections, vec!["# Intro\ntext\n## Setup\n- [ ] milk\n", "## Setup\n- [ ] milk\n", "# API\n"]);
    let odd = vec![heading(1, "É", 1), heading(1, "Z", 99)];
    let sections = treemd_core::headings::heading_sections("éa\n", &odd);
    assert_eq!(sections, vec!["", ""]);
}

#[test]
fn image_viewer_steps_and_pauses() {
    let mut m = ImageModal::new(true, false);
    assert!(!m.is_image_modal_open());
    m.open_image_modal("/w/a.gif".to_string(), vec![100, 50, 20], 1000);
    assert!(m.is_image_modal_open());
    assert_eq!(m.frame_index, 0);
    assert_eq!(m.time_until_next_frame(1030), Some(70));
    assert_eq!(m.time_until_next_frame(1200), Some(1));
    assert!(m.modal_prev_frame().is_none());
    assert_eq!(m.frame_index, 2);
    assert!(m.animation_paused);
    assert_eq!(m.time_until_next_frame(1200), None);
    assert!(m.modal_next_frame().is_none());
    assert_eq!(m.frame_index, 0);
    assert!(m.modal_toggle_animation(2000).is_none());
    assert!(!m.animation_paused);
    assert_eq!(m.last_frame_update, Some(2000));
    assert_eq!(m.time_until_next_frame(2040), Some(60));
    assert!(m.close_image_modal().is_none());
    assert!(!m.is_image_modal_open());
    assert!(m.frame_delays.is_empty());
}

#[test]
fn image_viewer_needs_images_and_frames() {
    let mut m = ImageModal::new(false, false);
    m.open_image_modal("/w/a.png".to_string(), vec![0], 5);
    assert!(!m.is_image_modal_open());
    let mut m = ImageModal::new(true, true);
    m.open_image_modal("/w/a.png".to_string(), vec![], 5);
    assert!(!m.is_image_modal_open());
    m.open_image_modal("/w/a.png".to_string(), vec![0], 5);
    assert!(m.is_image_modal_open());
    assert!(!m.should_start_kitty_animation());
    assert_eq!(m.time_until_next_frame(10), None);
}

#[test]
fn image_viewer_drives_the_kitty_animation() {
    let mut m = ImageModal::new(true, true);
    m.open_image_modal("/w/a.gif".to_string(), vec![30, 30], 0);
    assert!(m.should_start_kitty_animation());
    assert!(m.finish_kitty_animation(Ok(Some(KittyAnimation { image_id: 7, frame_count: 2, is_playing: true }))));
    assert!(m.has_kitty_animation());
    assert!(!m.should_start_kitty_animation());
    assert_eq!(m.time_until_next_frame(10), None);
    assert_eq!(m.modal_toggle_animation(10).as_deref(), Some("\x1b_Ga=a,i=7,s=1,q=2\x1b\\"));
    assert_eq!(m.modal_toggle_animation(20).as_deref(), Some("\x1b_Ga=a,i=7,s=3,q=2\x1b\\"));
    assert_eq!(m.modal_next_frame().as_deref(), Some("\x1b_Ga=d,d=I,i=7,q=2\x1b\\"));
    assert!(!m.has_kitty_animation());
    assert!(!m.finish_kitty_animation(Err(())));
    assert!(!m.use_kitty_animation);
}

#[test]
fn image_paths_resolve_against_the_document() {
    assert_eq!(resolve_image_path("/docs/file.md", "./images/photo.png"), Ok("/docs/images/photo.png".to_string()));
    assert_eq!(resolve_image_path("/docs/file.md", "../assets/logo.png"), Ok("/assets/logo.png".to_string()));
    assert_eq!(treemd_core::modal::normalize_path("a/./b/../../../c"), "../c");
    assert_eq!(treemd_core::modal::normalize_path("/../x//y/"), "/x/y");
    assert_eq!(resolve_image_path("/docs/file.md", "/etc/hosts"), Ok("/etc/hosts".to_string()));
    assert_eq!(resolve_image_path("/", "a.png"), Err("No parent directory for current file".to_string()));
}

#[test]
fn first_image_candidates_in_order() {
    let blocks = vec![
        Block::Paragraph {
            content: "x".to_string(),
            inline: vec![
                InlineElement::Text { value: "x".to_string() },
                InlineElement::Image { alt: "a".to_string(), src: "a.png".to_string() },
            ],
        },
        Block::HorizontalRule,
        Block::Image { alt: "b".to_string(), src: "b.gif".to_string() },
    ];
    assert_eq!(treemd_core::modal::first_image_candidates(&blocks), vec!["a.png", "b.gif"]);
}

#[test]
fn search_match_on_a_link_selects_it() {
    let mut app = app();
    app.doc_search.doc_search_matches = vec![treemd_core::app::SearchMatch { line: 1, col_start: 0, len: 4 }];
    app.doc_search.doc_search_current_idx = Some(0);
    app.detect_link_at_search_match(
        vec!["far".to_string(), "text".to_string()],
        vec!["far.md".to_string(), "t.md".to_string()],
        vec![
            LinkTarget::RelativeFile { path: "far.md".to_string(), anchor: None },
            LinkTarget::RelativeFile { path: "t.md".to_string(), anchor: None },
        ],
        vec![100, 8],
    );
    assert_eq!(app.doc_search.doc_search_selected_link_idx, Some(1));
    assert_eq!(app.links.selected_link_idx, Some(1));
    assert_eq!(app.links.link_texts, vec!["far", "text"]);
    assert_eq!(app.links.filtered_link_indices, vec![0, 1]);
}

#[test]
fn search_link_detection_needs_a_current_match() {
    let mut app = app();
    app.detect_link_at_search_match(vec!["a".to_string()], vec!["a.md".to_string()], vec![LinkTarget::External("a".to_string())], vec![0]);
    assert!(app.links.link_texts.is_empty());
    assert_eq!(app.doc_search.doc_search_selected_link_idx, None);
    app.doc_search.doc_search_matches = vec![treemd_core::app::SearchMatch { line: 0, col_start: 2, len: 5 }];
    let (_, task) = app.execute_action(Action::NextMatch);
    assert!(matches!(task, Some(Task::DetectSearchLink)));
    assert_eq!(app.doc_search.doc_search_current_idx, Some(0));
}

#[test]
fn table_navigation_moves_the_cursor_and_reports_the_cell() {
    let (mut app, _) = table_app();
    app.table_navigate_right();
    assert_eq!(app.interactive_state.get_table_position(), Some((0, 1)));
    assert_eq!(app.status_message.as_deref(), Some("[TABLE] Cell(1,2) | hjkl:Move y:Copy Y:CopyRow r:CopyTable Esc:Exit"));
    app.table_navigate_right();
    assert_eq!(app.interactive_state.get_table_position(), Some((0, 1)));
    app.table_navigate_left();
    assert_eq!(app.interactive_state.get_table_position(), Some((0, 0)));
    assert_eq!(app.status_message.as_deref(), Some("[TABLE] Cell(1,1) | hjkl:Move y:Copy Y:CopyRow r:CopyTable Esc:Exit"));
    app.table_navigate_left();
    assert_eq!(app.interactive_state.get_table_position(), Some((0, 0)));
}

#[test]
fn new_app_image_settings() {
    let doc = || Document { content: "# A\n".to_string(), headings: vec![heading(1, "A", 0)], sections: vec!["# A\n".to_string()] };
    let tree = || vec![HeadingNode { heading: heading(1, "A", 0), children: vec![] }];
    let off = App::new(doc(), tree(), "a.md".to_string(), "/a.md".to_string(), 30, false, true);
    assert!(!off.image_modal.images_enabled);
    assert!(!off.image_modal.use_kitty_animation);
    let on = App::new(doc(), tree(), "a.md".to_string(), "/a.md".to_string(), 30, true, true);
    assert!(on.image_modal.images_enabled && on.image_modal.use_kitty_animation);
    assert!(!on.image_modal.is_image_modal_open());
}

#[test]
fn frontmatter_markers_stand_on_their_own_lines() {
    use_strip("---\ntitle: T\n---x\nBody", "---\ntitle: T\n---x\nBody");
    use_strip("---\ntitle: T\n---", "");
    use_strip("---x\na\n---\nB", "---x\na\n---\nB");
    use_strip("---\na\n---x\n---\nB", "B");
}

fn use_strip(content: &str, expected: &str) {
    assert_eq!(treemd_core::util::strip_frontmatter(content), expected);
}

#[test]
fn table_line_range_counts_borders_header_separator_and_rows() {
    let mut st = treemd_core::interactive::InteractiveState::new();
    let blocks = vec![Block::Table {
        headers: vec!["A".to_string()],
        alignments: vec![Alignment::NotSpecified],
        rows: vec![vec!["1".to_string()], vec!["2".to_string()]],
    }];
    st.index_elements(&blocks);
    assert_eq!(st.elements.len(), 1);
    assert_eq!(st.elements[0].line_range, (0, 6));
}

#[test]
fn table_rows_are_all_reachable() {
    let (mut app, _) = table_app();
    app.execute_action(Action::InteractiveNext);
    assert_eq!(app.interactive_state.get_table_position(), Some((1, 0)));
    app.execute_action(Action::InteractiveNext);
    assert_eq!(app.interactive_state.get_table_position(), Some((1, 0)));
    app.execute_action(Action::InteractivePrevious);
    assert_eq!(app.interactive_state.get_table_position(), Some((0, 0)));
}

#[test]
fn search_matches_are_highlighted() {
    let spans = highlight_matches("Hello hello HELLO", "hello");
    let parts: Vec<(&str, bool)> = spans.iter().map(|(s, b)| (s.as_str(), *b)).collect();
    assert_eq!(parts, vec![("Hello", true), (" ", false), ("hello", true), (" ", false), ("HELLO", true)]);
    let spans = highlight_matches("abc", "x");
    assert_eq!(spans, vec![("abc".to_string(), false)]);
    let spans = highlight_matches("abc", "");
    assert_eq!(spans, vec![("abc".to_string(), false)]);
    let spans = highlight_matches("xaax", "a");
    assert_eq!(
        spans,
        vec![("x".to_string(), false), ("a".to_string(), true), ("a".to_string(), true), ("x".to_string(), false)]
    );
}

#[test]
fn link_popup_scroll_keeps_the_selection_in_view() {
    use_scroll(0, 100, 30, 0);
    use_scroll(20, 100, 20, 11);
    use_scroll(40, 20, 20, 2);
    use_scroll(5, 100, 20, 0);
    use_scroll(20, 100, 5, 0);
}

fn use_scroll(selected: u16, total: usize, height: u16, expected: u16) {
    assert_eq!(treemd_core::pickers::picker_scroll(selected, total, height), expected);
}
