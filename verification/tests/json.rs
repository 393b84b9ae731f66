use rancher::json::Json;

fn text(s: &str) -> Json {
    Json::Text(s.to_owned())
}

#[test]
fn parse_reads_every_kind_of_value() {
    assert_eq!(Json::parse("null"), Some(Json::Null));
    assert_eq!(Json::parse("true"), Some(Json::Bool(true)));
    assert_eq!(Json::parse("false"), Some(Json::Bool(false)));
    assert_eq!(Json::parse("12"), Some(Json::Number("12".to_owned())));
    assert_eq!(Json::parse("-3"), Some(Json::Number("-3".to_owned())));
    assert_eq!(Json::parse("1.5"), Some(Json::Number("1.5".to_owned())));
    assert_eq!(Json::parse(r#""hello""#), Some(text("hello")));
    assert_eq!(Json::parse(r#""""#), Some(text("")));
    assert_eq!(Json::parse("[]"), Some(Json::Array(vec![])));
    assert_eq!(Json::parse("{}"), Some(Json::Object(vec![])));
}

#[test]
fn parse_keeps_the_order_of_an_array() {
    assert_eq!(
        Json::parse(r#"["b", "a", ["c"], "b"]"#),
        Some(Json::Array(vec![text("b"), text("a"), Json::Array(vec![text("c")]), text("b")]))
    );
}

#[test]
fn parse_reads_nested_objects() {
    let parsed = Json::parse(r#"{"a":{"b":{"c":[1,{"d":null}]}}}"#).unwrap();
    let expected = Json::Object(vec![(
        "a".to_owned(),
        Json::Object(vec![(
            "b".to_owned(),
            Json::Object(vec![(
                "c".to_owned(),
                Json::Array(vec![
                    Json::Number("1".to_owned()),
                    Json::Object(vec![("d".to_owned(), Json::Null)]),
                ]),
            )]),
        )]),
    )]);
    assert_eq!(parsed, expected);
}

#[test]
fn parse_reads_escapes_and_text_beyond_ascii() {
    assert_eq!(Json::parse(r#""a\"b\\c\né""#), Some(text("a\"b\\c\né")));
    assert_eq!(Json::parse(r#"{"clé":"värde"}"#), Some(Json::Object(vec![("clé".to_owned(), text("värde"))])));
}

#[test]
fn parse_refuses_what_is_no_json() {
    for bad in ["", " ", "{", "[1,]", "{\"a\":}", "nul", "'a'", "{} x", "<html></html>", "{\"a\" 1}"] {
        assert_eq!(Json::parse(bad), None, "{:?}", bad);
    }
}

#[test]
fn parse_gives_each_member_once() {
    let parsed = Json::parse(r#"{"k":"first","k":"second"}"#).unwrap();
    assert_eq!(parsed, Json::Object(vec![("k".to_owned(), text("second"))]));
}

#[test]
fn get_finds_members_of_objects_only() {
    let value = Json::parse(r#"{"id":"1a10","n":3,"inner":{"id":"deep"}}"#).unwrap();
    assert_eq!(value.get("id"), Some(&text("1a10")));
    assert_eq!(value.get("n"), Some(&Json::Number("3".to_owned())));
    assert_eq!(value.get("ID"), None);
    assert_eq!(value.get("i"), None);
    assert_eq!(value.get(""), None);
    assert_eq!(value.get("inner").unwrap().get("id"), Some(&text("deep")));
    assert_eq!(Json::Array(vec![text("id")]).get("id"), None);
    assert_eq!(text("id").get("id"), None);
    assert_eq!(Json::Null.get("id"), None);
}

#[test]
fn get_takes_the_first_of_equal_names() {
    let value = Json::Object(vec![
        ("k".to_owned(), text("first")),
        ("k".to_owned(), text("second")),
    ]);
    assert_eq!(value.get("k"), Some(&text("first")));
}

#[test]
fn accessors_tell_the_kinds_apart() {
    assert_eq!(text("x").as_str(), Some(&"x".to_owned()));
    assert_eq!(Json::Null.as_str(), None);
    assert_eq!(Json::Number("1".to_owned()).as_str(), None);
    assert_eq!(Json::Array(vec![Json::Null]).as_array(), Some(&vec![Json::Null]));
    assert_eq!(Json::Object(vec![]).as_array(), None);
    assert_eq!(Json::Object(vec![]).as_object(), Some(&vec![]));
    assert_eq!(Json::Array(vec![]).as_object(), None);
    assert_eq!(text("x").plain_text(), "x");
    assert_eq!(Json::Bool(true).plain_text(), "");
}

#[test]
fn text_or_empty_defaults() {
    let value = Json::parse(r#"{"a":"x","b":1,"c":null,"d":""}"#).unwrap();
    assert_eq!(value.text_or_empty("a"), "x");
    assert_eq!(value.text_or_empty("b"), "");
    assert_eq!(value.text_or_empty("c"), "");
    assert_eq!(value.text_or_empty("d"), "");
    assert_eq!(value.text_or_empty("e"), "");
    assert_eq!(value.get_str("a"), Some(&"x".to_owned()));
    assert_eq!(value.get_str("b"), None);
    assert_eq!(value.get_str("e"), None);
}

#[test]
fn with_member_replaces_in_place_or_adds_at_the_end() {
    let value = Json::Object(vec![
        ("a".to_owned(), text("1")),
        ("b".to_owned(), text("2")),
        ("c".to_owned(), text("3")),
    ]);
    assert_eq!(
        value.with_member("b", Json::Null),
        Json::Object(vec![
            ("a".to_owned(), text("1")),
            ("b".to_owned(), Json::Null),
            ("c".to_owned(), text("3")),
        ])
    );
    let value = Json::Object(vec![("a".to_owned(), text("1"))]);
    assert_eq!(
        value.with_member("z", text("9")),
        Json::Object(vec![("a".to_owned(), text("1")), ("z".to_owned(), text("9"))])
    );
    assert_eq!(Json::Object(vec![]).with_member("k", Json::Null), Json::Object(vec![("k".to_owned(), Json::Null)]));
    assert_eq!(Json::Null.with_member("k", text("v")), Json::Null);
    assert_eq!(Json::Array(vec![]).with_member("k", text("v")), Json::Array(vec![]));
}
