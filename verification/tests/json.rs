use tube_client::json::Json;

#[test]
fn parse_reads_an_object_with_its_members() {
    let doc = Json::parse("{\"b\": [1, \"x\", null], \"a\": true}").unwrap();
    assert!(matches!(doc.member("a"), Some(Json::Bool(true))));
    let items = doc.member("b").and_then(|j| j.items()).unwrap();
    assert_eq!(items.len(), 3);
    assert_eq!(items[0].number(), Some(1));
    assert_eq!(items[1].text().map(|s| s.as_str()), Some("x"));
    assert!(matches!(items[2], Json::Null));
    assert!(doc.member("c").is_none());
}

#[test]
fn parse_keeps_only_non_negative_integers_as_numbers() {
    let doc = Json::parse("[0, 4294967295, 4294967296, -1, 1.5, 1e3, 18446744073709551615]")
        .unwrap();
    let items = doc.items().unwrap();
    assert!(matches!(items[0], Json::Number(Some(0))));
    assert!(matches!(items[1], Json::Number(Some(4294967295))));
    assert!(matches!(items[2], Json::Number(Some(4294967296))));
    assert!(matches!(items[3], Json::Number(None)));
    assert!(matches!(items[4], Json::Number(None)));
    assert!(matches!(items[5], Json::Number(None)));
    assert!(matches!(items[6], Json::Number(Some(18446744073709551615))));
}

#[test]
fn number_needs_an_integer_that_fits_32_bits() {
    assert_eq!(Json::Number(Some(0)).number(), Some(0));
    assert_eq!(Json::Number(Some(4294967295)).number(), Some(4294967295));
    assert_eq!(Json::Number(Some(4294967296)).number(), None);
    assert_eq!(Json::Number(None).number(), None);
    assert_eq!(Json::Text("1".to_owned()).number(), None);
}

#[test]
fn parse_says_why_a_text_is_no_document() {
    let detail = Json::parse("{\"a\": ").unwrap_err();
    assert!(!detail.is_empty());
    assert!(Json::parse("").is_err());
    assert!(Json::parse("{} trailing").is_err());
    assert!(Json::parse("{'a': 1}").is_err());
}

#[test]
fn parse_reads_escapes_in_strings() {
    let doc = Json::parse("\"l\\u00f6ve\\n\"").unwrap();
    assert_eq!(doc.text().map(|s| s.as_str()), Some("löve\n"));
}

#[test]
fn member_gives_the_first_of_that_name() {
    let doc = Json::Object(vec![
        ("a".to_owned(), Json::Number(Some(1))),
        ("b".to_owned(), Json::Null),
        ("a".to_owned(), Json::Number(Some(2))),
    ]);
    assert_eq!(doc.member("a").and_then(|j| j.number()), Some(1));
    assert!(matches!(doc.member("b"), Some(Json::Null)));
    assert!(doc.member("").is_none());
    assert!(Json::Array(vec![]).member("a").is_none());
    assert!(Json::Null.member("a").is_none());
}

#[test]
fn present_takes_null_for_absent() {
    let doc = Json::Object(vec![
        ("a".to_owned(), Json::Null),
        ("b".to_owned(), Json::Bool(false)),
    ]);
    assert!(doc.present("a").is_none());
    assert!(matches!(doc.present("b"), Some(Json::Bool(false))));
    assert!(doc.present("c").is_none());
}

#[test]
fn text_and_items_need_the_right_kind() {
    assert!(Json::Number(Some(1)).text().is_none());
    assert!(Json::Text("x".to_owned()).items().is_none());
    assert!(Json::Object(vec![]).items().is_none());
    assert_eq!(Json::Array(vec![Json::Null]).items().map(|v| v.len()), Some(1));
}
