use serde_json::Value;
use sse_lsp::dispatch::{
    command_kind, cursor_reply, execute_command, expansion_reply, hover_contents, hover_job,
    selection_job, CommandError, CommandKind, DocumentPosition,
};
use sse_lsp::store::DocumentStore;
use sse_lsp::text::text_chars;

fn s(x: &str) -> String {
    x.to_string()
}

fn json(x: &str) -> Value {
    serde_json::from_str(x).unwrap()
}

fn pair_arg(uri_a: &str, la: u32, ca: u32, uri_b: &str, lb: u32, cb: u32) -> Value {
    json(&format!(
        "[{{\"textDocument\":{{\"uri\":\"{}\"}},\"position\":{{\"line\":{},\"character\":{}}}}},\
          {{\"textDocument\":{{\"uri\":\"{}\"}},\"position\":{{\"line\":{},\"character\":{}}}}}]",
        uri_a, la, ca, uri_b, lb, cb
    ))
}

fn store_with(uri: &str, text: &str) -> DocumentStore {
    let mut st = DocumentStore::new();
    st.open(s(uri), s(text));
    st
}

fn pos(uri: &str, line: u32, character: u32) -> DocumentPosition {
    DocumentPosition { uri: s(uri), line, character }
}

#[test]
fn command_names() {
    assert_eq!(command_kind(&s("expandSelection")), Ok(CommandKind::ExpandSelection));
    assert_eq!(command_kind(&s("moveCursorToStart")), Ok(CommandKind::MoveCursorToStart));
    assert_eq!(command_kind(&s("expandselection")), Err(CommandError::MethodNotFound));
}

#[test]
fn unknown_command_is_method_not_found() {
    let st = store_with("file:///a", "(a (b c))");
    let args = vec![pair_arg("file:///a", 0, 0, "file:///a", 0, 1)];
    let r = execute_command(&st, &s("frobnicate"), &args);
    assert!(matches!(r, Err(CommandError::MethodNotFound)));
}

#[test]
fn wrong_argument_count_is_invalid_params() {
    let st = store_with("file:///a", "(a (b c))");
    let r = execute_command(&st, &s("expandSelection"), &Vec::new());
    let e = r.err().unwrap();
    assert_eq!(e, CommandError::ArgumentCount { count: 0 });
    assert!(e.is_invalid_params());
    let two = vec![json("1"), json("2")];
    let r = execute_command(&st, &s("moveCursorToStart"), &two);
    assert_eq!(r.err(), Some(CommandError::ArgumentCount { count: 2 }));
}

#[test]
fn bad_argument_shape_is_invalid_params_and_store_untouched() {
    let st = store_with("file:///a", "(a (b c))");
    let args = vec![json("{\"start\": 4}")];
    let r = execute_command(&st, &s("expandSelection"), &args);
    let e = r.err().unwrap();
    assert_eq!(e, CommandError::MalformedArgument);
    assert!(e.is_invalid_params());
    assert_eq!(st.read(&s("file:///a")), Some(s("(a (b c))")));
}

#[test]
fn unopened_document_is_not_found() {
    let st = store_with("file:///a", "(a (b c))");
    let args = vec![pair_arg("file:///other", 0, 0, "file:///other", 0, 1)];
    let r = execute_command(&st, &s("expandSelection"), &args);
    assert_eq!(r.err(), Some(CommandError::NotFound { uri: s("file:///other") }));
    let h = hover_job(&st, &s("file:///other"), 0, 0);
    assert_eq!(h.err(), Some(CommandError::NotFound { uri: s("file:///other") }));
}

#[test]
fn positions_in_two_documents_are_invalid_params() {
    let mut st = store_with("file:///a", "(a)");
    st.open(s("file:///b"), s("(b)"));
    let args = vec![pair_arg("file:///a", 0, 0, "file:///b", 0, 1)];
    let e = execute_command(&st, &s("expandSelection"), &args).err().unwrap();
    assert_eq!(e, CommandError::MixedDocuments);
    assert!(e.is_invalid_params());
}

#[test]
fn position_past_the_text_is_out_of_range() {
    let st = store_with("file:///a", "(a)\n(b)");
    let r = selection_job(&st, CommandKind::ExpandSelection, Some((pos("file:///a", 0, 1), pos("file:///a", 3, 0))));
    assert_eq!(r.err(), Some(CommandError::PositionOutOfRange { line: 3, character: 0 }));
    let r = selection_job(&st, CommandKind::ExpandSelection, Some((pos("file:///a", 0, 9), pos("file:///a", 1, 0))));
    assert_eq!(r.err(), Some(CommandError::PositionOutOfRange { line: 0, character: 9 }));
    let h = hover_job(&st, &s("file:///a"), 1, 4);
    assert_eq!(h.err(), Some(CommandError::PositionOutOfRange { line: 1, character: 4 }));
}

#[test]
fn valid_selection_becomes_offsets() {
    let st = store_with("file:///a", "(a\n (b c))");
    let args = vec![pair_arg("file:///a", 1, 2, "file:///a", 1, 3)];
    let job = execute_command(&st, &s("moveCursorToStart"), &args).ok().unwrap();
    assert_eq!(job.kind, CommandKind::MoveCursorToStart);
    assert_eq!(job.text, "(a\n (b c))");
    assert_eq!(job.start, 5);
    assert_eq!(job.end, 6);
    assert!(selection_job(&st, CommandKind::ExpandSelection, None).is_err());
}

#[test]
fn expansion_reply_gives_rows_and_columns() {
    let t = text_chars("(a\n (b c))");
    assert_eq!(expansion_reply(&t, None), Ok(None));
    assert_eq!(expansion_reply(&t, Some((4, 9))), Ok(Some((1, 1, 1, 6))));
    assert_eq!(expansion_reply(&t, Some((0, 10))), Ok(Some((0, 0, 1, 7))));
    assert_eq!(expansion_reply(&t, Some((0, 11))), Err(CommandError::OffsetOutOfRange { offset: 11 }));
    assert_eq!(expansion_reply(&t, Some((12, 3))), Err(CommandError::OffsetOutOfRange { offset: 12 }));
}

#[test]
fn cursor_reply_gives_row_and_column() {
    let t = text_chars("(a\n (b c))");
    assert_eq!(cursor_reply(&t, 4), Ok((1, 1)));
    assert_eq!(cursor_reply(&t, 0), Ok((0, 0)));
    assert_eq!(cursor_reply(&t, 11), Err(CommandError::OffsetOutOfRange { offset: 11 }));
}

#[test]
fn hover_on_leaf_gives_its_text() {
    let st = store_with("file:///a", "(a (b c))");
    let job = hover_job(&st, &s("file:///a"), 0, 4).ok().unwrap();
    assert_eq!(job.offset, 4);
    // `b` spans [4, 5), the group `(b c)` spans [3, 8).
    let leaf: String = hover_contents(&job.chars, 4, 5).ok().unwrap().into_iter().collect();
    assert_eq!(leaf, "b");
    let group: String = hover_contents(&job.chars, 3, 8).ok().unwrap().into_iter().collect();
    assert_eq!(group, "(b c)");
    assert_eq!(hover_contents(&job.chars, 5, 4), Err(CommandError::RangeOutOfRange { start: 5, end: 4 }));
    assert_eq!(hover_contents(&job.chars, 0, 10), Err(CommandError::RangeOutOfRange { start: 0, end: 10 }));
}

#[test]
fn expansion_steps_of_nested_groups() {
    // `b` in "(a (b c))": its group is [3, 8), then the whole text [0, 9).
    let t = text_chars("(a (b c))");
    assert_eq!(expansion_reply(&t, Some((3, 8))), Ok(Some((0, 3, 0, 8))));
    assert_eq!(expansion_reply(&t, Some((0, 9))), Ok(Some((0, 0, 0, 9))));
    assert_eq!(expansion_reply(&t, None), Ok(None));
}
