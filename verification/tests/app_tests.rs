use treemd_core::app::{App, AppMode, Document, Focus, Heading, HeadingNode, ActionResult};
use treemd_core::blocks::{Alignment, Block, LinkTarget};
use treemd_core::commands::CommandEffect;
use treemd_core::dispatch::Action;
use treemd_core::edits::table_markdown;
use treemd_core::modes::{KeybindingMode, Task};
use treemd_core::palette::{CommandAction, parse_level_from_query};
use treemd_core::search::find_doc_matches;

fn heading(level: usize, text: &str, offset: usize) -> Heading {
    Heading { level, text: text.to_string(), offset }
}

fn node(level: usize, text: &str, offset: usize, children: Vec<HeadingNode>) -> HeadingNode {
    HeadingNode { heading: heading(level, text, offset), children }
}

/// "# A\n## A1\n### A1a\n## A2\n# B\n" with its tree.
fn sample() -> App {
    let content = "# A\n## A1\n### A1a\n## A2\n# B\n".to_string();
    let headings = vec![
        heading(1, "A", 0),
        heading(2, "A1", 4),
        heading(3, "A1a", 10),
        heading(2, "A2", 18),
        heading(1, "B", 24),
    ];
    let tree = vec![
        node(1, "A", 0, vec![node(2, "A1", 4, vec![node(3, "A1a", 10, vec![])]), node(2, "A2", 18, vec![])]),
        node(1, "B", 24, vec![]),
    ];
    let sections = vec![
        "x\n\ny\n\nx".to_string(),
        "## A1\n### A1a\n".to_string(),
        "### A1a\n".to_string(),
        "## A2\n".to_string(),
        "# B\n".to_string(),
    ];
    App::new(Document { content, headings, sections }, tree, "doc.md".to_string(), "/tmp/doc.md".to_string(), 30, true, false)
}

fn texts(app: &App) -> Vec<String> {
    app.outline.items.iter().map(|i| i.text.clone()).collect()
}

#[test]
fn new_app_lists_every_heading_and_selects_the_first() {
    let app = sample();
    assert_eq!(texts(&app), vec!["A", "A1", "A1a", "A2", "B"]);
    assert_eq!(app.outline.selected, Some(0));
    assert_eq!(app.layout.content_height, 5);
    assert!(!app.layout.config_has_custom_outline_width);
    assert_eq!(app.outline.items[0].level, 1);
    assert!(app.outline.items[0].has_children);
    assert!(!app.outline.items[4].has_children);
}

#[test]
fn preamble_adds_document_overview() {
    let content = "intro text\n# A\n".to_string();
    let doc = Document { content, headings: vec![heading(1, "A", 11)], sections: vec!["# A\n".to_string()] };
    let app = App::new(doc, vec![node(1, "A", 11, vec![])], "d.md".into(), "/d.md".into(), 25, true, false);
    assert_eq!(texts(&app), vec!["(Document)", "A"]);
    assert_eq!(app.outline.items[0].level, 0);
    assert!(app.outline.items[0].has_children);
    assert!(app.layout.config_has_custom_outline_width);
}

#[test]
fn no_headings_shows_only_overview() {
    let doc = Document { content: "   \n".to_string(), headings: vec![], sections: vec![] };
    let app = App::new(doc, vec![], "d.md".into(), "/d.md".into(), 20, true, false);
    assert_eq!(texts(&app), vec!["(Document)"]);
    assert!(!app.outline.items[0].has_children);
}

#[test]
fn next_and_previous_stop_at_the_ends() {
    let mut app = sample();
    app.previous();
    assert_eq!(app.outline.selected, Some(0));
    for _ in 0..10 {
        app.next();
    }
    assert_eq!(app.outline.selected, Some(4));
    app.last();
    assert_eq!(app.outline.selected, Some(4));
    app.first();
    assert_eq!(app.outline.selected, Some(0));
}

#[test]
fn content_scrolling_respects_height() {
    let mut app = sample();
    app.layout.focus = Focus::Content;
    app.layout.content_height = 30;
    app.layout.content_viewport_height = 20;
    for _ in 0..15 {
        app.scroll_content_down();
    }
    assert_eq!(app.layout.content_scroll, 10);
    app.scroll_page_up();
    assert_eq!(app.layout.content_scroll, 0);
    app.scroll_page_down();
    assert_eq!(app.layout.content_scroll, 10);
    app.last();
    assert_eq!(app.layout.content_scroll, 10);
    app.first();
    assert_eq!(app.layout.content_scroll, 0);
}

#[test]
fn jump_to_parent_finds_lower_level() {
    let mut app = sample();
    app.jump_to_heading(2);
    app.jump_to_parent();
    assert_eq!(app.outline.selected, Some(1));
    app.jump_to_parent();
    assert_eq!(app.outline.selected, Some(0));
    app.jump_to_parent();
    assert_eq!(app.outline.selected, Some(0));
}

#[test]
fn toggle_expand_twice_restores_outline() {
    let mut app = sample();
    let before = texts(&app);
    app.toggle_expand();
    assert_eq!(texts(&app), vec!["A", "B"]);
    assert!(!app.outline.items[0].expanded);
    assert_eq!(app.outline.selected, Some(0));
    app.toggle_expand();
    assert_eq!(texts(&app), before);
    assert!(app.outline.collapsed_headings.is_empty());
}

#[test]
fn collapse_leaf_collapses_parent() {
    let mut app = sample();
    app.jump_to_heading(2); // A1a, a leaf
    app.collapse();
    assert_eq!(texts(&app), vec!["A", "A1", "A2", "B"]);
    assert_eq!(app.outline.selected, Some(1));
    app.expand();
    assert_eq!(texts(&app), vec!["A", "A1", "A1a", "A2", "B"]);
}

#[test]
fn collapse_all_and_expand_all() {
    let mut app = sample();
    app.jump_to_heading(3);
    app.collapse_all();
    assert_eq!(texts(&app), vec!["A", "B"]);
    assert_eq!(app.outline.selected, Some(0));
    assert_eq!(app.status_message.as_deref(), Some("Collapsed 2 headings"));
    app.expand_all();
    assert_eq!(texts(&app), vec!["A", "A1", "A1a", "A2", "B"]);
    assert_eq!(app.status_message.as_deref(), Some("Expanded 2 headings"));
}

#[test]
fn collapse_and_expand_level() {
    let mut app = sample();
    app.collapse_level(2);
    assert_eq!(texts(&app), vec!["A", "A1", "A2", "B"]);
    assert_eq!(app.status_message.as_deref(), Some("Collapsed 1 h2 headings"));
    app.expand_level(2);
    assert_eq!(texts(&app), vec!["A", "A1", "A1a", "A2", "B"]);
    assert_eq!(app.status_message.as_deref(), Some("Expanded 1 h2 headings"));
    app.expand_level(2);
    assert_eq!(app.status_message.as_deref(), Some("Expanded 0 h2 headings"));
}

#[test]
fn outline_search_filters_case_insensitively() {
    let mut app = sample();
    app.toggle_search();
    app.search_input('a');
    app.search_input('1');
    assert_eq!(texts(&app), vec!["A1", "A1a"]);
    app.search_backspace();
    assert_eq!(texts(&app), vec!["A", "A1", "A1a", "A2"]);
    app.search_input('\u{7}');
    assert_eq!(app.outline_search.search_query, "a");
    app.toggle_search();
    assert_eq!(texts(&app).len(), 5);
}

#[test]
fn doc_matches_are_byte_offsets_in_lowercase_lines() {
    let ms = find_doc_matches("Hello hello\nnothing\nHELLO", "hello");
    let got: Vec<(usize, usize, usize)> = ms.iter().map(|m| (m.line, m.col_start, m.len)).collect();
    assert_eq!(got, vec![(0, 0, 5), (0, 6, 5), (2, 0, 5)]);
    let ms = find_doc_matches("aaaa", "aa");
    let got: Vec<usize> = ms.iter().map(|m| m.col_start).collect();
    assert_eq!(got, vec![0, 2]);
    assert!(find_doc_matches("abc", "").is_empty());
}

#[test]
fn doc_search_steps_through_matches() {
    let mut app = sample();
    app.enter_doc_search();
    assert_eq!(app.mode, AppMode::DocSearch);
    for c in "x".chars() {
        app.doc_search_input(c);
    }
    assert_eq!(app.doc_search.doc_search_matches.len(), 2);
    assert_eq!(app.doc_search.doc_search_current_idx, Some(0));
    assert_eq!(app.doc_search_status(), "Search: x (1/2)");
    app.next_doc_match();
    assert_eq!(app.doc_search.doc_search_current_idx, Some(1));
    app.next_doc_match();
    assert_eq!(app.doc_search.doc_search_current_idx, Some(0));
    app.prev_doc_match();
    assert_eq!(app.doc_search.doc_search_current_idx, Some(1));
    app.accept_doc_search();
    assert!(!app.doc_search.doc_search_active);
    app.clear_doc_search();
    assert_eq!(app.mode, AppMode::Normal);
    assert_eq!(app.doc_search_status(), "Search: ");
}

#[test]
fn doc_search_reports_no_match() {
    let mut app = sample();
    app.enter_doc_search();
    app.doc_search_input('z');
    assert_eq!(app.doc_search_status(), "Search: z (no matches)");
    app.accept_doc_search();
    assert_eq!(app.status_message.as_deref(), Some("Pattern not found: z"));
}

#[test]
fn history_back_then_forward_returns() {
    let mut app = sample();
    app.layout.content_scroll = 3;
    app.save_to_history();
    let doc = Document {
        content: "# Other\n".to_string(),
        headings: vec![heading(1, "Other", 0)],
        sections: vec!["# Other\n".to_string()],
    };
    app.load_document(doc, vec![node(1, "Other", 0, vec![])], "other.md".into(), "/tmp/other.md".into());
    assert_eq!(texts(&app), vec!["Other"]);
    assert!(app.file_path_changed);
    assert!(app.go_back().is_ok());
    assert_eq!(app.filename, "doc.md");
    assert_eq!(app.layout.content_scroll, 3);
    assert_eq!(texts(&app).len(), 5);
    assert!(app.go_forward().is_ok());
    assert_eq!(app.filename, "other.md");
    assert!(app.go_forward().is_err());
    assert_eq!(app.go_back(), Ok(()));
    assert_eq!(app.go_back(), Err("No previous file in history".to_string()));
}

#[test]
fn cell_is_replaced_in_the_right_table() {
    let app = sample();
    let content = "| a | b |\n| --- | --- |\n| 1 | 2 |\n\n| x | y |\n| --- | --- |\n| 3 | 4 |";
    let r = app.replace_table_cell_in_file(content, 1, 1, 1, "Z").unwrap();
    assert_eq!(r, "| a | b |\n| --- | --- |\n| 1 | 2 |\n\n| x | y |\n| --- | --- |\n| 3 | Z |");
    let e = app.replace_table_cell_in_file(content, 2, 0, 0, "Z").unwrap_err();
    assert_eq!(e, "Table 2 not found or row 0 not found");
    assert_eq!(app.replace_cell_in_row("| a | b |", 0, "q"), "| q | b |");
    assert_eq!(app.replace_cell_in_row("| a | b |", 5, "q"), "| a | b |");
}

#[test]
fn sanitize_escapes_pipes_and_newlines() {
    assert_eq!(App::sanitize_table_cell("a|b\nc\rd"), "a\\|b c d");
}

#[test]
fn edit_then_undo_restores_cell() {
    let mut app = sample();
    app.document.content = "| a | b |\n| --- | --- |\n| 1 | 2 |".to_string();
    app.document.headings.clear();
    app.edits.cell_edit_row = 1;
    app.edits.cell_edit_col = 0;
    app.edits.cell_edit_original_value = "1".to_string();
    app.edits.cell_edit_value = "9".to_string();
    assert!(app.save_edited_cell(0).is_ok());
    assert_eq!(app.document.content, "| a | b |\n| --- | --- |\n| 9 | 2 |");
    assert!(app.edits.has_unsaved_changes);
    assert_eq!(app.status_message.as_deref(), Some("✓ Cell updated (1 unsaved change)"));
    assert!(app.undo_last_edit().is_ok());
    assert_eq!(app.document.content, "| a | b |\n| --- | --- |\n| 1 | 2 |");
    assert!(!app.edits.has_unsaved_changes);
    assert_eq!(app.status_message.as_deref(), Some("✓ Undone - no unsaved changes"));
    assert!(app.undo_last_edit().is_ok());
    assert_eq!(app.status_message.as_deref(), Some("Nothing to undo"));
}

#[test]
fn unchanged_cell_is_not_buffered() {
    let mut app = sample();
    app.edits.cell_edit_original_value = "same".to_string();
    app.edits.cell_edit_value = "same".to_string();
    assert!(app.save_edited_cell(0).is_ok());
    assert!(app.edits.pending_edits.is_empty());
    assert_eq!(app.status_message.as_deref(), Some("No changes made"));
}

#[test]
fn table_as_markdown() {
    let headers = vec!["h1".to_string(), "h2".to_string()];
    let rows = vec![vec!["a".to_string(), "b".to_string()]];
    assert_eq!(table_markdown(&headers, &rows), "| h1 | h2 |\n| --- | --- |\n| a | b |\n");
}

#[test]
fn outline_width_cycles_through_standard_values() {
    let mut app = sample();
    app.cycle_outline_width(true);
    assert_eq!(app.layout.outline_width, 40);
    assert_eq!(app.status_message.as_deref(), Some("Width: 40%"));
    app.cycle_outline_width(true);
    assert_eq!(app.layout.outline_width, 20);
    app.cycle_outline_width(false);
    assert_eq!(app.layout.outline_width, 40);
    app.layout.outline_width = 27;
    app.layout.config_has_custom_outline_width = true;
    app.cycle_outline_width(true);
    assert_eq!(app.layout.outline_width, 40);
    assert_eq!(app.status_message.as_deref(), Some("Width: 40% | S or :w to save"));
}

#[test]
fn count_prefix_accumulates_and_caps() {
    let mut app = sample();
    assert!(app.accumulate_count_digit('1'));
    assert!(app.accumulate_count_digit('2'));
    assert!(!app.accumulate_count_digit('x'));
    assert!(app.has_count());
    assert_eq!(app.take_count(), 12);
    assert_eq!(app.take_count(), 1);
    for _ in 0..6 {
        app.accumulate_count_digit('9');
    }
    assert_eq!(app.count_prefix, Some(9999));
    app.clear_count();
    assert!(!app.has_count());
}

#[test]
fn bookmark_returns_to_heading() {
    let mut app = sample();
    app.jump_to_heading(3);
    app.set_bookmark();
    app.first();
    app.jump_to_bookmark();
    assert_eq!(app.outline.selected, Some(3));
}

#[test]
fn palette_runs_commands() {
    let mut app = sample();
    app.open_command_palette();
    assert_eq!(app.mode, AppMode::CommandPalette);
    assert_eq!(app.palette.command_filtered.len(), 13);
    for c in "collapse 2".chars() {
        app.command_palette_input(c);
    }
    let first = app.selected_command().unwrap();
    assert_eq!(first.action, CommandAction::CollapseLevel);
    let effect = app.execute_selected_command();
    assert_eq!(effect, CommandEffect::Continue);
    assert_eq!(app.mode, AppMode::Normal);
    assert_eq!(texts(&app), vec!["A", "A1", "A2", "B"]);
    app.open_command_palette();
    app.command_palette_input('q');
    assert_eq!(app.execute_selected_command(), CommandEffect::Quit);
    assert_eq!(parse_level_from_query("expand 3"), Some(3));
    assert_eq!(parse_level_from_query("expand 9"), None);
}

#[test]
fn palette_selection_wraps() {
    let mut app = sample();
    app.open_command_palette();
    app.command_palette_prev();
    assert_eq!(app.palette.command_selected, 12);
    app.command_palette_next();
    assert_eq!(app.palette.command_selected, 0);
    app.close_command_palette();
    assert_eq!(app.mode, AppMode::Normal);
}

#[test]
fn keybinding_mode_follows_state() {
    let mut app = sample();
    assert_eq!(app.current_keybinding_mode(), KeybindingMode::Normal);
    app.toggle_search();
    assert_eq!(app.current_keybinding_mode(), KeybindingMode::Search);
    app.toggle_help();
    assert_eq!(app.current_keybinding_mode(), KeybindingMode::Help);
}

#[test]
fn quit_action_with_unsaved_changes_asks_first() {
    let mut app = sample();
    let (r, t) = app.execute_action(Action::Quit);
    assert!(matches!(r, ActionResult::Quit));
    assert!(t.is_none());
    app.edits.has_unsaved_changes = true;
    let (r, _) = app.execute_action(Action::Quit);
    assert!(matches!(r, ActionResult::Continue));
    assert_eq!(app.mode, AppMode::ConfirmSaveBeforeQuit);
    let (r, _) = app.execute_action(Action::DiscardAndQuit);
    assert!(matches!(r, ActionResult::Quit));
    assert!(!app.edits.has_unsaved_changes);
}

#[test]
fn actions_with_counts_and_tasks() {
    let mut app = sample();
    app.accumulate_count_digit('3');
    app.execute_action(Action::Next);
    assert_eq!(app.outline.selected, Some(3));
    let (_, t) = app.execute_action(Action::CopyAnchor);
    assert!(matches!(t, Some(Task::CopyAnchor)));
    let (r, _) = app.execute_action(Action::OpenInEditor);
    match r {
        ActionResult::RunEditor(p, line) => {
            assert_eq!(p, "/tmp/doc.md");
            assert_eq!(line, Some(4));
        }
        _ => panic!("expected an editor run"),
    }
}

#[test]
fn exit_mode_in_normal_mode_shows_hint() {
    let mut app = sample();
    app.exit_current_mode();
    assert_eq!(app.status_message.as_deref(), Some("Press q to quit • : for commands • ? for help"));
}

#[test]
fn links_filter_and_cycle() {
    let mut app = sample();
    app.enter_link_follow_mode(
        vec!["Docs".into(), "Home".into(), "API docs".into()],
        vec!["docs.md".into(), "https://example.com".into(), "api.md".into()],
        vec![
            LinkTarget::RelativeFile { path: "docs.md".into(), anchor: None },
            LinkTarget::External("https://example.com".into()),
            LinkTarget::RelativeFile { path: "api.md".into(), anchor: None },
        ],
    );
    assert_eq!(app.mode, AppMode::LinkFollow);
    assert_eq!(app.links.selected_link_idx, Some(0));
    app.previous_link();
    assert_eq!(app.links.selected_link_idx, Some(2));
    app.next_link();
    assert_eq!(app.links.selected_link_idx, Some(0));
    app.start_link_search();
    for c in "doc".chars() {
        app.link_search_push(c);
    }
    assert_eq!(app.links.filtered_link_indices, vec![0, 2]);
    app.jump_to_link(2);
    assert_eq!(app.links.selected_link_idx, Some(1));
    assert_eq!(app.get_selected_link(), Some(2));
    app.exit_link_follow_mode();
    assert_eq!(app.mode, AppMode::Normal);
}

#[test]
fn files_filter_by_name() {
    let mut app = sample();
    app.enter_file_picker(
        vec!["/tmp/a.md".into(), "/tmp/doc.md".into(), "/tmp/notes.md".into()],
        vec!["a.md".into(), "doc.md".into(), "notes.md".into()],
    );
    assert_eq!(app.mode, AppMode::FilePicker);
    assert_eq!(app.files.selected_file_idx, Some(1));
    app.file_search_push('n');
    app.file_search_push('o');
    assert_eq!(app.files.filtered_file_indices, vec![2]);
    assert_eq!(app.files.selected_file_idx, Some(0));
}

#[test]
fn theme_picker_previews_and_restores() {
    let mut app = sample();
    app.toggle_theme_picker();
    app.theme_picker_next();
    app.theme_picker_next();
    assert_eq!(app.themes.current_theme, 2);
    app.toggle_theme_picker();
    assert_eq!(app.themes.current_theme, 0);
    app.toggle_theme_picker();
    app.theme_picker_next();
    app.apply_selected_theme();
    assert_eq!(app.themes.current_theme, 1);
    assert!(!app.themes.show_theme_picker);
}

#[test]
fn table_blocks_have_alignment() {
    let b = Block::Table { headers: vec!["h".into()], alignments: vec![Alignment::Left], rows: vec![] };
    assert_eq!(treemd_core::blocks::count_single_block_lines(&b), 4);
}
