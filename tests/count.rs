use analytics_service::count::{count_document, count_reply, Document, Failure, Reply, Tally};

fn body(text: &str) -> Reply {
    Reply::Body(text.as_bytes().to_vec())
}

fn assert_silent(t: &Tally, count: usize) {
    assert_eq!(t.count, count);
    assert!(t.failure.is_none());
}

#[test]
fn array_body_counts_its_elements() {
    let t = count_reply(body(r#"[{"id":1},{"id":2},{"id":3}]"#));
    assert_silent(&t, 3);
}

#[test]
fn array_of_five_counts_five() {
    let t = count_reply(body("[1, 2, 3, 4, 5]"));
    assert_silent(&t, 5);
}

#[test]
fn empty_array_counts_zero_without_failure() {
    assert_silent(&count_reply(body("[]")), 0);
    assert_silent(&count_reply(body(" [ ] \n")), 0);
}

#[test]
fn nested_arrays_count_only_the_top_level() {
    assert_silent(&count_reply(body("[[1,2,3],[4],[]]")), 3);
}

#[test]
fn unreachable_upstream_counts_zero_and_reports_transport() {
    let t = count_reply(Reply::Unreachable("connection refused".to_string()));
    assert_eq!(t.count, 0);
    assert!(matches!(t.failure, Some(Failure::Transport(ref m)) if m == "connection refused"));
}

#[test]
fn unreadable_body_counts_zero_and_reports_decode() {
    let t = count_reply(Reply::Unreadable("body cut short".to_string()));
    assert_eq!(t.count, 0);
    assert!(matches!(t.failure, Some(Failure::Decode(ref m)) if m == "body cut short"));
}

#[test]
fn non_json_body_counts_zero_and_reports_decode() {
    for text in ["<html>Bad Gateway</html>", "", "[1, 2", "not json"] {
        let t = count_reply(body(text));
        assert_eq!(t.count, 0);
        assert!(matches!(t.failure, Some(Failure::Decode(ref m)) if !m.is_empty()));
    }
}

#[test]
fn object_body_counts_zero_silently() {
    assert_silent(&count_reply(body(r#"{"error":"not found"}"#)), 0);
    assert_silent(&count_reply(body(r#"{"items":[1,2,3]}"#)), 0);
}

#[test]
fn scalar_and_null_bodies_count_zero_silently() {
    for text in ["42", "\"text\"", "true", "null"] {
        assert_silent(&count_reply(body(text)), 0);
    }
}

#[test]
fn count_document_takes_array_length() {
    let items = vec![serde_json::Value::Null, serde_json::Value::Bool(true)];
    assert_silent(&count_document(Ok(Document::Array(items))), 2);
}

#[test]
fn count_document_ignores_other_documents() {
    let doc = Document::Other(serde_json::Value::String("x".to_string()));
    assert_silent(&count_document(Ok(doc)), 0);
}

#[test]
fn count_document_reports_decode_errors() {
    let err = serde_json::from_str::<serde_json::Value>("{").unwrap_err();
    let t = count_document(Err(err));
    assert_eq!(t.count, 0);
    assert!(matches!(t.failure, Some(Failure::Decode(_))));
}
