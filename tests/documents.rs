use sse_lsp::store::DocumentStore;

fn s(x: &str) -> String {
    x.to_string()
}

#[test]
fn read_gives_last_written_text() {
    let mut st = DocumentStore::new();
    assert_eq!(st.read(&s("file:///a")), None);
    st.open(s("file:///a"), s("(a b)"));
    assert_eq!(st.read(&s("file:///a")), Some(s("(a b)")));
    st.change(s("file:///a"), vec![s("(c)")]);
    assert_eq!(st.read(&s("file:///a")), Some(s("(c)")));
    st.open(s("file:///a"), s("(d)"));
    assert_eq!(st.read(&s("file:///a")), Some(s("(d)")));
    st.close(&s("file:///a"));
    assert_eq!(st.read(&s("file:///a")), None);
}

#[test]
fn documents_are_kept_apart() {
    let mut st = DocumentStore::new();
    st.open(s("file:///a"), s("a"));
    st.open(s("file:///b"), s("b"));
    st.change(s("file:///a"), vec![s("a2")]);
    assert_eq!(st.read(&s("file:///b")), Some(s("b")));
    st.close(&s("file:///b"));
    assert_eq!(st.read(&s("file:///a")), Some(s("a2")));
    assert_eq!(st.read(&s("file:///b")), None);
}

#[test]
fn change_applies_only_the_first_text() {
    let mut st = DocumentStore::new();
    st.open(s("file:///a"), s("one"));
    st.change(s("file:///a"), vec![s("two"), s("three")]);
    assert_eq!(st.read(&s("file:///a")), Some(s("two")));
    st.change(s("file:///a"), Vec::new());
    assert_eq!(st.read(&s("file:///a")), Some(s("two")));
}

#[test]
fn change_of_unopened_document_stores_it() {
    let mut st = DocumentStore::new();
    st.change(s("file:///new"), vec![s("(x)")]);
    assert_eq!(st.read(&s("file:///new")), Some(s("(x)")));
}

#[test]
fn close_of_absent_document_is_harmless() {
    let mut st = DocumentStore::new();
    st.open(s("file:///a"), s("a"));
    st.close(&s("file:///zzz"));
    assert_eq!(st.read(&s("file:///a")), Some(s("a")));
}
