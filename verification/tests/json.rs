use kairos::adapters::feed_handler::json::{integer_field, read_json, text_field, JsonNode};

#[test]
fn documents_are_copied_node_for_node() {
    let document = read_json(
        r#"{"a":null,"b":true,"c":-7,"d":1.5,"e":"text","f":[1,"x",[]],"g":{"h":{}},"i":18446744073709551615}"#,
    )
    .unwrap();
    assert!(matches!(document.member("a"), Some(JsonNode::Null)));
    assert!(matches!(document.member("b"), Some(JsonNode::Bool(true))));
    assert!(matches!(document.member("c"), Some(JsonNode::Integer(-7))));
    assert!(matches!(document.member("d"), Some(JsonNode::OtherNumber)));
    assert!(matches!(document.member("i"), Some(JsonNode::OtherNumber)));
    assert!(matches!(document.member("e"), Some(JsonNode::Text(t)) if t == "text"));
    match document.member("f") {
        Some(JsonNode::List(items)) => {
            assert_eq!(items.len(), 3);
            assert!(matches!(items[0], JsonNode::Integer(1)));
            assert!(matches!(&items[1], JsonNode::Text(t) if t == "x"));
            assert!(matches!(&items[2], JsonNode::List(inner) if inner.is_empty()));
        }
        other => panic!("unexpected member {:?}", other),
    }
    let nested = document.member("g").unwrap().member("h").unwrap();
    assert!(matches!(nested, JsonNode::Object(members) if members.is_empty()));
    assert!(document.member("z").is_none());
    assert!(document.member("").is_none());
}

#[test]
fn members_are_found_under_their_exact_key() {
    let document = read_json(r#"{"T":1,"t":2,"TT":3,"p":"1.0","p ":"2.0"}"#).unwrap();
    assert_eq!(integer_field(&document, "T"), Some(1));
    assert_eq!(integer_field(&document, "t"), Some(2));
    assert_eq!(integer_field(&document, "TT"), Some(3));
    assert_eq!(integer_field(&document, "p"), None);
    assert_eq!(text_field(&document, "p").as_deref(), Some("1.0"));
    assert_eq!(text_field(&document, "p ").as_deref(), Some("2.0"));
    assert_eq!(text_field(&document, "T"), None);
    assert_eq!(text_field(&document, "q"), None);
}

#[test]
fn a_repeated_key_keeps_its_last_value() {
    let document = read_json(r#"{"p":"1","p":"2"}"#).unwrap();
    assert_eq!(text_field(&document, "p").as_deref(), Some("2"));
    match &document {
        JsonNode::Object(members) => assert_eq!(members.len(), 1),
        other => panic!("unexpected document {:?}", other),
    }
}

#[test]
fn nodes_that_are_no_object_have_no_members() {
    for text in ["null", "true", "3", "\"s\"", "[{\"a\":1}]"] {
        let document = read_json(text).unwrap();
        assert!(document.member("a").is_none(), "{}", text);
    }
    assert!(matches!(read_json("3").unwrap().integer(), Some(3)));
    assert!(read_json("\"3\"").unwrap().integer().is_none());
    assert_eq!(read_json("\"3\"").unwrap().text().map(|t| t.as_str()), Some("3"));
    assert!(read_json("3").unwrap().text().is_none());
}

#[test]
fn text_that_is_no_json_is_refused() {
    for text in ["", "{", "{\"a\":}", "nul", "{\"a\":1} x", "'a'"] {
        assert!(read_json(text).is_err(), "{:?}", text);
    }
}
