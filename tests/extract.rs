use cargo_readme::{doc_comment_text, doc_lines};

#[test]
fn doc_comment_marker_and_space_are_removed() {
    assert_eq!(doc_comment_text("//! Hello"), Some("Hello".to_string()));
    assert_eq!(doc_comment_text("//!  Indented"), Some(" Indented".to_string()));
    assert_eq!(doc_comment_text("//!"), Some(String::new()));
    assert_eq!(doc_comment_text("//!x"), Some("x".to_string()));
}

#[test]
fn other_lines_are_not_doc_comments() {
    assert_eq!(doc_comment_text("// plain"), None);
    assert_eq!(doc_comment_text("/// item doc"), None);
    assert_eq!(doc_comment_text("fn main() {}"), None);
    assert_eq!(doc_comment_text(""), None);
}

#[test]
fn doc_lines_keep_order_and_skip_code() {
    let source: Vec<String> = ["//! # Title", "//!", "//! text", "", "fn main() {}", "//! é"]
        .iter()
        .map(|x| x.to_string())
        .collect();
    assert_eq!(doc_lines(&source), vec!["# Title", "", "text", "é"]);
}
