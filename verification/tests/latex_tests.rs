use treemd_core::util::{filter_content, strip_latex, strip_latex_aggressive};

#[test]
fn test_inline_math() {
    let content = "The formula $x^2$ is quadratic";
    let result = strip_latex(content);
    assert_eq!(result, "The formula  is quadratic");
}

#[test]
fn test_display_math() {
    let content = "The equation:\n$$\nE = mc^2\n$$\nis famous.";
    let result = strip_latex(content);
    assert_eq!(result, "The equation:\n\nis famous.");
}

#[test]
fn test_latex_environment() {
    let content = "An equation:\n\\begin{equation}\ny = mx + b\n\\end{equation}\ndone.";
    let result = strip_latex(content);
    assert_eq!(result, "An equation:\n\ndone.");
}

#[test]
fn test_no_latex() {
    let content = "Regular text without math";
    let result = strip_latex(content);
    assert_eq!(result, content);
}

#[test]
fn test_money_not_stripped() {
    let content = "It costs $5";
    let result = strip_latex(content);
    assert_eq!(result, content);
}

#[test]
fn test_standalone_commands() {
    let content = "Some text\n\\newpage\nMore text";
    let result = strip_latex(content);
    assert_eq!(result, "Some text\n\nMore text");
}

#[test]
fn test_clearpage() {
    let content = "Chapter 1\n\\clearpage\nChapter 2";
    let result = strip_latex(content);
    assert_eq!(result, "Chapter 1\n\nChapter 2");
}

#[test]
fn test_usepackage() {
    let content = "\\usepackage{amsmath}\nSome content";
    let result = strip_latex(content);
    assert_eq!(result, "\nSome content");
}

#[test]
fn test_text_formatting_preserved() {
    let content = "This is \\textbf{bold} text";
    let result = strip_latex(content);
    assert_eq!(result, "This is bold text");
}

#[test]
fn test_font_size_normalsize() {
    let content = "Some text\n\\normalsize\nMore text";
    let result = strip_latex(content);
    assert_eq!(result, "Some text\n\nMore text");
}

#[test]
fn test_font_size_large() {
    let content = "\\Large\nHeading";
    let result = strip_latex(content);
    assert_eq!(result, "\nHeading");
}

#[test]
fn test_font_size_tiny() {
    let content = "Normal\n\\tiny\nSmall text\n\\normalsize\nBack to normal";
    let result = strip_latex(content);
    assert_eq!(result, "Normal\n\nSmall text\n\nBack to normal");
}

#[test]
fn test_centering() {
    let content = "\\centering\nCentered content";
    let result = strip_latex(content);
    assert_eq!(result, "\nCentered content");
}

#[test]
fn test_label_ref_stripped() {
    let content = "See Figure \\ref{fig:example} for details.";
    let result = strip_latex(content);
    assert_eq!(result, "See Figure  for details.");
}

#[test]
fn test_cite_stripped() {
    let content = "As shown by \\cite{smith2020} in their work.";
    let result = strip_latex(content);
    assert_eq!(result, "As shown by  in their work.");
}

#[test]
fn test_vspace_hspace_stripped() {
    let content = "Text\\vspace{1em}More text\\hspace{2cm}End";
    let result = strip_latex(content);
    assert_eq!(result, "TextMore textEnd");
}

#[test]
fn test_geometry_stripped() {
    let content = "\\geometry{margin=1in}\nDocument content";
    let result = strip_latex(content);
    assert_eq!(result, "\nDocument content");
}

#[test]
fn test_aggressive_strips_any_backslash_line() {
    let content = "Normal text\n\\unknowncommand\nMore text";
    let result = strip_latex_aggressive(content);
    assert_eq!(result, "Normal text\n\nMore text");
}

#[test]
fn test_aggressive_strips_with_args() {
    let content = "\\customcmd{arg}\nContent here";
    let result = strip_latex_aggressive(content);
    assert_eq!(result, "\nContent here");
}

#[test]
fn test_aggressive_preserves_prose() {
    let content = "Regular text without backslash commands";
    let result = strip_latex_aggressive(content);
    assert_eq!(result, content);
}

#[test]
fn test_aggressive_preserves_inline_backslash() {
    let content = "Some text with \\command inline";
    let result = strip_latex_aggressive(content);
    assert_eq!(result, content);
}

#[test]
fn filter_content_hides_frontmatter_then_latex() {
    let content = "---\ntitle: x\n---\nBody $a$ end";
    assert_eq!(filter_content(content, true, true, false), "Body  end");
    assert_eq!(filter_content(content, false, false, false), content);
}
