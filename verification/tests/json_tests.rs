use search::json::{Items, Json, JsonNumber, Members};

fn reprint(text: &str) -> Option<String> {
    Json::parse(text).map(|doc| doc.to_text())
}

#[test]
fn parse_reads_every_kind_of_value() {
    assert_eq!(Json::parse("null"), Some(Json::Null));
    assert_eq!(Json::parse("true"), Some(Json::Bool(true)));
    assert_eq!(Json::parse("7"), Some(Json::Number(JsonNumber::PosInt(7))));
    assert_eq!(Json::parse("-7"), Some(Json::Number(JsonNumber::NegInt(-7))));
    assert_eq!(Json::parse("\"a\\nb\""), Some(Json::String("a\nb".to_string())));
    assert_eq!(
        Json::parse("[1, \"x\"]"),
        Some(Json::Array(vec![Json::Number(JsonNumber::PosInt(1)), Json::String("x".to_string())]))
    );
    assert_eq!(
        Json::parse("{\"k\": [null]}"),
        Some(Json::Object(vec![("k".to_string(), Json::Array(vec![Json::Null]))]))
    );
    match Json::parse("1.5") {
        Some(Json::Number(JsonNumber::Float(n))) => assert_eq!(n.to_string(), "1.5"),
        other => panic!("{:?}", other),
    }
}

#[test]
fn parse_refuses_what_is_no_json() {
    assert_eq!(Json::parse("not json"), None);
    assert_eq!(Json::parse(""), None);
    assert_eq!(Json::parse("[1,2"), None);
    assert_eq!(Json::parse("[1,2] x"), None);
    assert_eq!(Json::parse("{\"a\":}"), None);
    assert_eq!(Json::parse("NaN"), None);
    assert_eq!(Json::parse("1e999"), None);
}

#[test]
fn to_text_prints_compact_json() {
    assert_eq!(reprint("[1, 2.5, {\"b\": null, \"a\": true}]"), Some("[1,2.5,{\"a\":true,\"b\":null}]".to_string()));
    assert_eq!(reprint(" { \"k\" : \"v\" } "), Some("{\"k\":\"v\"}".to_string()));
    assert_eq!(reprint("[1.5, 12345678901234567890, 0.1]"), Some("[1.5,12345678901234567890,0.1]".to_string()));
    assert_eq!(Json::string("a\"b").to_text(), "\"a\\\"b\"");
    assert_eq!(Json::unsigned(20).to_text(), "20");
    assert_eq!(Json::boolean(false).to_text(), "false");
    assert_eq!(Json::null().to_text(), "null");
    assert_eq!(Json::Number(JsonNumber::NegInt(-3)).to_text(), "-3");
}

#[test]
fn to_text_agrees_with_serde_json() {
    for text in [
        "null", "[]", "{}", "[[],{}]", "[1.0, -0, 1e3, -1E-2, 18446744073709551616]", "{\"z\":1,\"a\":{\"y\":[1,2,{\"x\":null}]}}", "\"\\u00e9\"",
        "[0.30000000000000004, 1e-7, 123456789.123456789, 4.9e-324, 1.7976931348623157e308]",
        "{\"highlight\":{\"title\":[\"<b>a</b>\"]},\"sort\":[1.5,1700000000000,3]}",
    ] {
        let expected = serde_json::from_str::<serde_json::Value>(text).unwrap().to_string();
        assert_eq!(reprint(text), Some(expected));
    }
}

#[test]
fn later_member_shadows_earlier_one() {
    let doc = Members::new().with("k", Json::unsigned(1)).with("k", Json::unsigned(2)).into_object();
    assert_eq!(doc.get("k"), Some(&Json::Number(JsonNumber::PosInt(2))));
    assert_eq!(doc.to_text(), "{\"k\":2}");
}

#[test]
fn get_finds_members_of_objects_only() {
    let doc = Json::parse("{\"a\": 1, \"b\": [2]}").unwrap();
    assert_eq!(doc.get("a"), Some(&Json::Number(JsonNumber::PosInt(1))));
    assert_eq!(doc.get("c"), None);
    assert_eq!(doc.get("b").unwrap().get("a"), None);
    assert_eq!(Json::Null.get("a"), None);
}

#[test]
fn accessors_tell_the_kinds_apart() {
    let array = Json::parse("[1]").unwrap();
    let string = Json::string("s");
    assert_eq!(array.as_array().map(|v| v.len()), Some(1));
    assert!(string.as_array().is_none());
    assert_eq!(string.as_str(), Some(&"s".to_string()));
    assert!(array.as_str().is_none());
    assert!(Json::unsigned(1).is_number());
    assert!(Json::parse("1.5").unwrap().is_number());
    assert!(!string.is_number());
}

#[test]
fn builders_keep_the_order_of_what_they_get() {
    let items = Items::new().with(Json::unsigned(1)).with(Json::string("b")).into_array();
    assert_eq!(items, Json::Array(vec![Json::Number(JsonNumber::PosInt(1)), Json::String("b".to_string())]));
    let members = Members::new().with("x", Json::null()).with("a", Json::boolean(true)).into_object();
    assert_eq!(
        members,
        Json::Object(vec![("x".to_string(), Json::Null), ("a".to_string(), Json::Bool(true))])
    );
    assert_eq!(Json::array(vec![]), Json::Array(vec![]));
    assert_eq!(Json::object(vec![]), Json::Object(vec![]));
}

#[test]
fn clone_copies_the_whole_document() {
    let doc = Json::parse("{\"a\":[1,-2,3.25,\"s\",null,true,{\"b\":[]}]}").unwrap();
    let copy = doc.clone();
    assert_eq!(copy, doc);
    assert_eq!(copy.to_text(), "{\"a\":[1,-2,3.25,\"s\",null,true,{\"b\":[]}]}");
    let number = JsonNumber::Float("2.5".parse::<serde_json::Number>().unwrap());
    assert_eq!(number.clone(), number);
}
