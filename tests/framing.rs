use sse_lsp::profile::{capabilities, sexp_profile};
use sse_lsp::text::annotate_content_length;

#[test]
fn frames_with_byte_length() {
    assert_eq!(annotate_content_length("{}"), "Content-Length: 2\r\n\r\n{}");
    assert_eq!(annotate_content_length(""), "Content-Length: 0\r\n\r\n");
    assert_eq!(annotate_content_length("é"), "Content-Length: 2\r\n\r\né");
    let long = "x".repeat(1234);
    assert_eq!(
        annotate_content_length(&long),
        format!("Content-Length: 1234\r\n\r\n{}", long)
    );
}

#[test]
fn sexp_profile_has_one_bracket_pair() {
    let p = sexp_profile();
    assert_eq!(p.separators, vec![" ", "\n", "\t", "\r"]);
    assert_eq!(p.escape, Some("\\".to_string()));
    assert_eq!(p.brackets.len(), 1);
    assert_eq!(p.brackets[0].tag, "");
    assert_eq!(p.brackets[0].open, "(");
    assert_eq!(p.brackets[0].close, ")");
    assert!(p.operators.is_empty());
}

#[test]
fn advertises_full_sync_hover_and_commands() {
    let c = capabilities();
    assert!(c.full_sync);
    assert!(c.hover);
    assert_eq!(c.commands, vec!["expandSelection", "moveCursorToStart"]);
}
