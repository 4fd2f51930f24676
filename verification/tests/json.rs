use ask::json::{parse_json, Json};

fn text(s: &str) -> Json {
    Json::Text(s.to_string())
}

#[test]
fn scalars_are_read() {
    assert_eq!(parse_json("null").unwrap(), Json::Null);
    assert_eq!(parse_json("true").unwrap(), Json::Bool(true));
    assert_eq!(parse_json("false").unwrap(), Json::Bool(false));
    assert_eq!(parse_json("\"hi\"").unwrap(), text("hi"));
    assert_eq!(parse_json(" 12 ").unwrap(), Json::Number(Some(12)));
}

#[test]
fn a_number_has_a_value_where_it_is_a_natural_below_two_to_the_64() {
    assert_eq!(parse_json("0").unwrap(), Json::Number(Some(0)));
    assert_eq!(parse_json("18446744073709551615").unwrap(), Json::Number(Some(u64::MAX)));
    assert_eq!(parse_json("18446744073709551616").unwrap(), Json::Number(None));
    assert_eq!(parse_json("-1").unwrap(), Json::Number(None));
    assert_eq!(parse_json("1.0").unwrap(), Json::Number(None));
    assert_eq!(parse_json("1e2").unwrap(), Json::Number(None));
    assert_eq!(parse_json("0.7").unwrap(), Json::Number(None));
}

#[test]
fn escapes_in_a_string_are_resolved() {
    assert_eq!(parse_json("\"a\\\"b\\\\c\\n\\u0041\"").unwrap(), text("a\"b\\c\nA"));
}

#[test]
fn arrays_keep_their_order() {
    assert_eq!(
        parse_json("[3, \"x\", null, [true]]").unwrap(),
        Json::Array(vec![
            Json::Number(Some(3)),
            text("x"),
            Json::Null,
            Json::Array(vec![Json::Bool(true)]),
        ])
    );
    assert_eq!(parse_json("[]").unwrap(), Json::Array(vec![]));
}

#[test]
fn objects_hold_their_members() {
    let json = parse_json("{\"b\": 1, \"a\": {\"c\": \"d\"}}").unwrap();
    assert_eq!(json.get("b"), Some(&Json::Number(Some(1))));
    assert_eq!(json.get("a").unwrap().get("c"), Some(&text("d")));
    assert_eq!(json.get("c"), None);
    assert_eq!(json.get(""), None);
    assert_eq!(parse_json("{}").unwrap(), Json::Object(vec![]));
}

#[test]
fn of_two_members_with_one_key_the_parser_keeps_the_last() {
    let json = parse_json("{\"a\": 1, \"a\": 2}").unwrap();
    assert_eq!(json, Json::Object(vec![("a".to_string(), Json::Number(Some(2)))]));
}

#[test]
fn lookup_finds_the_first_member_with_the_key() {
    let json = Json::Object(vec![
        ("a".to_string(), Json::Number(Some(1))),
        ("b".to_string(), Json::Null),
        ("a".to_string(), Json::Number(Some(2))),
    ]);
    assert_eq!(json.get("a"), Some(&Json::Number(Some(1))));
    assert_eq!(json.get("b"), Some(&Json::Null));
    assert_eq!(json.get("A"), None);
}

#[test]
fn only_an_object_has_members() {
    assert_eq!(Json::Null.get("a"), None);
    assert_eq!(text("a").get("a"), None);
    assert_eq!(Json::Array(vec![text("a")]).get("a"), None);
    assert_eq!(Json::Number(Some(0)).get("0"), None);
}

#[test]
fn keys_are_compared_character_by_character() {
    let json = parse_json("{\"é\": 1, \"e\": 2, \"日本\": 3}").unwrap();
    assert_eq!(json.get("é"), Some(&Json::Number(Some(1))));
    assert_eq!(json.get("e"), Some(&Json::Number(Some(2))));
    assert_eq!(json.get("日本"), Some(&Json::Number(Some(3))));
    assert_eq!(json.get("日"), None);
}

#[test]
fn what_is_no_json_is_an_error() {
    for bad in ["", "{", "[1,]", "{\"a\":}", "nul", "'a'", "1 2", "{\"a\":1,}", "\"open", "{a:1}"] {
        assert!(parse_json(bad).is_err(), "{bad:?}");
    }
}
