use gh_ec_audit::json::{parse, Json};

#[test]
fn parse_reads_an_object_member() {
    let doc = parse("{\"status\": \"403\", \"n\": 2}").unwrap();
    assert_eq!(doc.get_str("status"), Some("403"));
    assert_eq!(doc.get_u64("n"), Some(2));
    assert!(doc.get("missing").is_none());
}

#[test]
fn parse_rejects_broken_text() {
    assert!(parse("{\"status\": ").is_none());
}

#[test]
fn parse_keeps_array_items_in_order() {
    let doc = parse("[true, false, null]").unwrap();
    let items = doc.as_array().unwrap();
    assert_eq!(items.len(), 3);
    assert_eq!(items[0].as_bool(), Some(true));
    assert_eq!(items[1].as_bool(), Some(false));
    assert!(matches!(items[2], Json::Null));
}
