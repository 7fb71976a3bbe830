use treemd_core::blocks::Alignment;
use treemd_core::util::{align_text, detect_checkbox_in_text, strip_frontmatter};
use unicode_width::UnicodeWidthStr;

#[test]
fn test_simple_frontmatter() {
    let content = "---\ntitle: Test\n---\n\n# Heading\n\nContent";
    let result = strip_frontmatter(content);
    assert_eq!(result, "\n# Heading\n\nContent");
}

#[test]
fn test_no_frontmatter() {
    let content = "# Heading\n\nContent";
    let result = strip_frontmatter(content);
    assert_eq!(result, content);
}

#[test]
fn test_frontmatter_with_yaml() {
    let content = "---\ntitle: My Doc\ntags:\n  - rust\n  - markdown\n---\n# Start";
    let result = strip_frontmatter(content);
    assert_eq!(result, "# Start");
}

#[test]
fn test_frontmatter_not_at_start() {
    let content = "Some text\n---\ntitle: Test\n---\nMore text";
    let result = strip_frontmatter(content);
    assert_eq!(result, content);
}

#[test]
fn test_checked_lowercase() {
    let (is_task, is_checked, text) = detect_checkbox_in_text("[x] Task done");
    assert!(is_task);
    assert!(is_checked);
    assert_eq!(text, "Task done");
}

#[test]
fn test_checked_uppercase() {
    let (is_task, is_checked, text) = detect_checkbox_in_text("[X] Also done");
    assert!(is_task);
    assert!(is_checked);
    assert_eq!(text, "Also done");
}

#[test]
fn test_unchecked() {
    let (is_task, is_checked, text) = detect_checkbox_in_text("[ ] Not done yet");
    assert!(is_task);
    assert!(!is_checked);
    assert_eq!(text, "Not done yet");
}

#[test]
fn test_not_a_task() {
    let (is_task, is_checked, text) = detect_checkbox_in_text("Regular text");
    assert!(!is_task);
    assert!(!is_checked);
    assert_eq!(text, "Regular text");
}

#[test]
fn test_with_leading_whitespace() {
    let (is_task, is_checked, text) = detect_checkbox_in_text("  [x] Indented task");
    assert!(is_task);
    assert!(is_checked);
    assert_eq!(text, "Indented task");
}

#[test]
fn test_empty_task() {
    let (is_task, is_checked, text) = detect_checkbox_in_text("[x]");
    assert!(is_task);
    assert!(is_checked);
    assert_eq!(text, "");
}

#[test]
fn test_bracket_but_not_checkbox() {
    let (is_task, is_checked, text) = detect_checkbox_in_text("[a] Not a checkbox");
    assert!(!is_task);
    assert!(!is_checked);
    assert_eq!(text, "[a] Not a checkbox");
}

#[test]
fn test_left_align() {
    let result = align_text("Hi", 10, &Alignment::Left);
    assert_eq!(result, " Hi       ");
    assert_eq!(result.len(), 10);
}

#[test]
fn test_right_align() {
    let result = align_text("Hi", 10, &Alignment::Right);
    assert_eq!(result, "       Hi ");
    assert_eq!(result.len(), 10);
}

#[test]
fn test_center_align() {
    let result = align_text("Hi", 10, &Alignment::Center);
    assert_eq!(result, "    Hi    ");
    assert_eq!(result.len(), 10);
}

#[test]
fn test_none_defaults_to_left() {
    let result = align_text("Hi", 10, &Alignment::NotSpecified);
    assert_eq!(result, " Hi       ");
}

#[test]
fn test_truncation_when_too_long() {
    let result = align_text("This is a very long text", 10, &Alignment::Left);
    assert!(result.contains("…"));
}

#[test]
fn test_exact_width() {
    let result = align_text("Test", 6, &Alignment::Left);
    assert_eq!(result, " Test ");
}

#[test]
fn test_unicode_width() {
    let result = align_text("日本", 10, &Alignment::Left);
    assert_eq!(result.width(), 10);
}

#[test]
fn test_center_odd_padding() {
    let result = align_text("A", 10, &Alignment::Center);
    assert_eq!(result, "    A     ");
}
