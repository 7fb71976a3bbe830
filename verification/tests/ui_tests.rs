use treemd_core::help::{blank, description, help_lines, keybinding, note, section, title, HelpLine, HELP_LINE_COUNT};
use treemd_core::table::{RowMarker, TableRenderContext};
use treemd_core::terminal::{ColorMode, TerminalCapabilities};

#[test]
fn help_has_every_line() {
    let lines = help_lines();
    assert_eq!(lines.len(), HELP_LINE_COUNT);
    assert!(matches!(lines[0], HelpLine::Title("treemd - Keyboard Shortcuts")));
    assert!(matches!(lines[2], HelpLine::Blank));
}

#[test]
fn keybinding_key_column_is_padded() {
    let segs = keybinding("g", "Jump to top").segments();
    assert_eq!(segs, vec!["  g          ".to_string(), "Jump to top".to_string()]);
    let segs = keybinding("Enter/Space", "Toggle").segments();
    assert_eq!(segs[0], "  Enter/Space");
    let segs = keybinding("a-very-long-key", "x").segments();
    assert_eq!(segs[0], "  a-very-long-key");
}

#[test]
fn help_line_constructors() {
    assert_eq!(title("T").segments(), vec!["T".to_string()]);
    assert_eq!(description("D").segments(), vec!["D".to_string()]);
    assert_eq!(section("S").segments(), vec!["S".to_string()]);
    assert_eq!(note("N").segments(), vec!["Note: ".to_string(), "N".to_string()]);
    assert_eq!(blank().segments(), vec![String::new()]);
}

#[test]
fn terminal_app_before_tahoe_warns() {
    let caps = TerminalCapabilities::from_probe(true, true, Some(24));
    assert!(caps.should_warn);
    assert_eq!(caps.recommended_color_mode, ColorMode::Indexed256);
    let msg = caps.warning_message().unwrap();
    assert!(msg.starts_with("⚠️  Terminal Compatibility Notice\n\nApple Terminal.app on macOS Sequoia (Darwin 24) has limited"));
    assert!(msg.ends_with("Press any key to continue..."));
}

#[test]
fn terminal_app_unknown_version_warns() {
    let caps = TerminalCapabilities::from_probe(true, false, None);
    assert!(caps.should_warn);
    assert!(caps.warning_message().unwrap().contains("macOS < 26 has"));
}

#[test]
fn modern_terminals_do_not_warn() {
    let caps = TerminalCapabilities::from_probe(true, false, Some(26));
    assert!(!caps.should_warn);
    assert_eq!(caps.recommended_color_mode, ColorMode::Rgb);
    assert!(caps.warning_message().is_none());
    let caps = TerminalCapabilities::from_probe(false, false, None);
    assert_eq!(caps.recommended_color_mode, ColorMode::Indexed256);
    let caps = TerminalCapabilities::from_probe(false, true, None);
    assert_eq!(caps.recommended_color_mode, ColorMode::Rgb);
}

#[test]
fn row_markers() {
    let theme = ();
    let ctx = TableRenderContext { theme: &theme, row_num: 1, is_header: false, in_table_mode: true, is_table_selected: true, selected_cell: Some((1, 2)) };
    assert_eq!(ctx.row_marker(), RowMarker::Arrow);
    assert!(ctx.is_cell_selected(2));
    assert!(!ctx.is_cell_selected(1));
    let ctx = TableRenderContext { theme: &theme, row_num: 0, is_header: true, in_table_mode: true, is_table_selected: true, selected_cell: Some((1, 2)) };
    assert_eq!(ctx.row_marker(), RowMarker::Gap);
    let ctx = TableRenderContext { theme: &theme, row_num: 0, is_header: true, in_table_mode: false, is_table_selected: true, selected_cell: None };
    assert_eq!(ctx.row_marker(), RowMarker::Gap);
    let ctx = TableRenderContext { theme: &theme, row_num: 0, is_header: true, in_table_mode: false, is_table_selected: false, selected_cell: None };
    assert_eq!(ctx.row_marker(), RowMarker::NoMarker);
}
