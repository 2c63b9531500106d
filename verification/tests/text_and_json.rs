use binchotan::connection::{Request, RequestParams, Response, ResponseContent};
use binchotan::json::{member, Json};
use binchotan::methods::HttpMethod;
use binchotan::text::{
    contains_text, decimal, prefixed, same_set, same_text, signed_decimal, subset_of,
};

fn names(v: &[&str]) -> Vec<String> {
    v.iter().map(|s| s.to_string()).collect()
}

#[test]
fn decimal_writes_numerals_without_leading_zeros() {
    assert_eq!(decimal(0), "0");
    assert_eq!(decimal(7), "7");
    assert_eq!(decimal(10), "10");
    assert_eq!(decimal(32700), "32700");
    assert_eq!(decimal(1234567890), "1234567890");
    assert_eq!(decimal(u64::MAX), "18446744073709551615");
}

#[test]
fn signed_decimal_puts_a_minus_before_negatives() {
    assert_eq!(signed_decimal(0), "0");
    assert_eq!(signed_decimal(-1), "-1");
    assert_eq!(signed_decimal(-32602), "-32602");
    assert_eq!(signed_decimal(42), "42");
    assert_eq!(signed_decimal(i64::MAX), "9223372036854775807");
    assert_eq!(signed_decimal(i64::MIN), "-9223372036854775808");
}

#[test]
fn text_helpers_compare_by_content() {
    assert!(same_text("abc", "abc"));
    assert!(!same_text("abc", "abd"));
    assert!(!same_text("abc", "ab"));
    assert!(same_text("", ""));
    assert_eq!(prefixed("a: ", "b"), "a: b");
    assert!(contains_text(&names(&["a", "b"]), &"b".to_string()));
    assert!(!contains_text(&names(&["a", "b"]), &"c".to_string()));
    assert!(!contains_text(&names(&[]), &"".to_string()));
}

#[test]
fn name_lists_are_compared_as_sets() {
    assert!(same_set(&names(&["a", "b"]), &names(&["b", "a"])));
    assert!(same_set(&names(&["a", "a", "b"]), &names(&["b", "a"])));
    assert!(same_set(&names(&[]), &names(&[])));
    assert!(!same_set(&names(&["a"]), &names(&["a", "b"])));
    assert!(!same_set(&names(&["a", "b"]), &names(&["a"])));
    assert!(!same_set(&names(&["a"]), &names(&[])));
    assert!(subset_of(&names(&["a"]), &names(&["a", "b"])));
    assert!(!subset_of(&names(&["a", "c"]), &names(&["a", "b"])));
}

#[test]
fn http_methods_are_read_from_their_names() {
    for m in [HttpMethod::Get, HttpMethod::Post, HttpMethod::Put, HttpMethod::Delete] {
        assert_eq!(HttpMethod::parse(m.name()), Some(m));
    }
    assert_eq!(HttpMethod::Get.name(), "GET");
    assert_eq!(HttpMethod::Delete.name(), "DELETE");
    assert_eq!(HttpMethod::parse("get"), None);
    assert_eq!(HttpMethod::parse("PATCH"), None);
}

#[test]
fn member_finds_the_first_of_its_name() {
    let members = vec![
        ("a".to_string(), Json::Bool(true)),
        ("b".to_string(), Json::Null),
        ("a".to_string(), Json::Bool(false)),
    ];
    assert!(matches!(member(&members, "a"), Some(Json::Bool(true))));
    assert!(matches!(member(&members, "b"), Some(Json::Null)));
    assert!(member(&members, "c").is_none());
    assert!(member(&vec![], "a").is_none());
}

#[test]
fn parsed_documents_keep_every_kind_of_value() {
    let req = Request::parse(
        r#"{"protocol_version":"2.0","method":"plain-call","id":"1","params":{"n":-12.5e3,"t":"xé","b":false,"z":null,"a":[1,[2]],"o":{"k":"v"}}}"#,
    )
    .unwrap();
    let fields = match req.params {
        RequestParams::Generic(fields) => fields,
        other => panic!("unexpected {:?}", other),
    };
    let keys: Vec<&str> = fields.iter().map(|(k, _)| k.as_str()).collect();
    assert_eq!(keys, vec!["n", "t", "b", "z", "a", "o"]);
    assert!(matches!(&fields[0].1, Json::Number(n) if n == "-12500.0"));
    assert!(matches!(&fields[1].1, Json::Text(t) if t == "xé"));
    assert!(matches!(&fields[2].1, Json::Bool(false)));
    assert!(matches!(&fields[3].1, Json::Null));
    match &fields[4].1 {
        Json::Array(items) => {
            assert_eq!(items.len(), 2);
            assert!(matches!(&items[0], Json::Number(n) if n == "1"));
            assert!(matches!(&items[1], Json::Array(inner) if inner.len() == 1));
        }
        other => panic!("unexpected {:?}", other),
    }
    assert!(matches!(&fields[5].1, Json::Object(m) if m.len() == 1 && m[0].0 == "k"));
}

#[test]
fn rendered_documents_are_json_text() {
    let body = Json::Object(vec![
        ("text".to_string(), Json::Text("line\n\"quoted\"".to_string())),
        ("count".to_string(), Json::Number("3".to_string())),
        ("ratio".to_string(), Json::Number("0.25".to_string())),
        ("odd".to_string(), Json::Number("three".to_string())),
        ("list".to_string(), Json::Array(vec![Json::Bool(true), Json::Null])),
    ]);
    let r = Response::plain("1".to_string(), body);
    assert_eq!(
        r.render(),
        r#"{"protocol_version":"2.0","id":"1","result":{"meta":{"api_calls_remaining":0,"api_calls_reset":0},"body":{"text":"line\n\"quoted\"","count":3,"ratio":0.25,"odd":null,"list":[true,null]}}}"#
    );
}

#[test]
fn duplicate_is_a_deep_copy() {
    let first = Json::Array(vec![Json::Object(vec![("k".to_string(), Json::Text("v".to_string()))])]);
    let mut copy = first.duplicate();
    if let Json::Array(items) = &mut copy {
        items.push(Json::Null);
    }
    assert!(matches!(&first, Json::Array(items) if items.len() == 1));
    assert!(matches!(&copy, Json::Array(items) if items.len() == 2));
    assert!(matches!(first.as_members(), None));
    assert!(matches!(Json::Text("t".to_string()).as_text(), Some(t) if t == "t"));
    assert!(Json::Null.as_text().is_none());
}

#[test]
fn status_content_renders_its_version() {
    let r = Response::success("s".to_string(), ResponseContent::Status { version: "9.9".to_string() });
    assert_eq!(r.render(), r#"{"protocol_version":"2.0","id":"s","result":{"version":"9.9"}}"#);
}

#[test]
fn json_text_round_trips_through_parse_and_render() {
    let text = r#"{"b":[1,2.5,"x",null,true,{"c":{}}],"a":"é\u0000"}"#;
    let document = Json::parse(text).unwrap();
    assert_eq!(document.render(), text);
    assert!(matches!(&document, Json::Object(m) if m[0].0 == "b" && m[1].0 == "a"));
    assert!(Json::parse("{\"a\":1,}").is_err());
    assert!(Json::parse("").is_err());
    assert!(Json::parse("1 2").is_err());
    assert!(matches!(Json::parse(" 12 "), Ok(Json::Number(n)) if n == "12"));
}
