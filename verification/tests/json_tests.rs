//! The JSON value model: exact wire text and parsing.

use gitea_sdk::json::Json;

fn obj(fields: Vec<(&str, Json)>) -> Json {
    Json::Obj(fields.into_iter().map(|(k, v)| (k.to_string(), v)).collect())
}

#[test]
fn render_scalars() {
    assert_eq!(Json::Null.render(), "null");
    assert_eq!(Json::Bool(true).render(), "true");
    assert_eq!(Json::Bool(false).render(), "false");
    assert_eq!(Json::Int(0).render(), "0");
    assert_eq!(Json::Int(42).render(), "42");
    assert_eq!(Json::Int(-42).render(), "-42");
    assert_eq!(Json::Int(i64::MAX).render(), "9223372036854775807");
    assert_eq!(Json::Int(i64::MIN).render(), "-9223372036854775808");
}

#[test]
fn render_string_escapes() {
    assert_eq!(Json::Str("plain".to_string()).render(), "\"plain\"");
    assert_eq!(
        Json::Str("a\"b\\c".to_string()).render(),
        "\"a\\\"b\\\\c\""
    );
    assert_eq!(Json::Str("\n\t".to_string()).render(), "\"\\u000a\\u0009\"");
    assert_eq!(Json::Str("héllo".to_string()).render(), "\"héllo\"");
}

#[test]
fn render_nested() {
    let v = obj(vec![
        ("a", Json::Int(1)),
        ("b", Json::Arr(vec![Json::Bool(true), Json::Null])),
        ("c", obj(vec![("d", Json::Str("x".to_string()))])),
    ]);
    assert_eq!(v.render(), "{\"a\":1,\"b\":[true,null],\"c\":{\"d\":\"x\"}}");
}

#[test]
fn parse_scalars() {
    assert_eq!(Json::parse("null"), Some(Json::Null));
    assert_eq!(Json::parse("true"), Some(Json::Bool(true)));
    assert_eq!(Json::parse("false"), Some(Json::Bool(false)));
    assert_eq!(Json::parse("42"), Some(Json::Int(42)));
    assert_eq!(Json::parse("-7"), Some(Json::Int(-7)));
    assert_eq!(
        Json::parse("-9223372036854775808"),
        Some(Json::Int(i64::MIN))
    );
    assert_eq!(
        Json::parse("9223372036854775807"),
        Some(Json::Int(i64::MAX))
    );
}

#[test]
fn parse_with_whitespace() {
    assert_eq!(
        Json::parse(" [ 1 , 2 ] "),
        Some(Json::Arr(vec![Json::Int(1), Json::Int(2)]))
    );
    assert_eq!(
        Json::parse("\t{ \"a\" :\n1 }"),
        Some(obj(vec![("a", Json::Int(1))]))
    );
}

#[test]
fn parse_rejects_malformed() {
    assert_eq!(Json::parse(""), None);
    assert_eq!(Json::parse("tru"), None);
    assert_eq!(Json::parse("nulls"), None);
    assert_eq!(Json::parse("1 2"), None);
    assert_eq!(Json::parse("[1,]"), None);
    assert_eq!(Json::parse("{\"a\":}"), None);
    assert_eq!(Json::parse("\"unterminated"), None);
}

#[test]
fn parse_rejects_unrepresentable_numbers() {
    assert_eq!(Json::parse("1.5"), None);
    assert_eq!(Json::parse("1e3"), None);
    assert_eq!(Json::parse("9223372036854775808"), None);
    assert_eq!(Json::parse("-9223372036854775809"), None);
    assert_eq!(Json::parse("92233720368547758070000"), None);
}

#[test]
fn parse_string_escapes() {
    assert_eq!(
        Json::parse("\"a\\\"b\\\\c\\/d\""),
        Some(Json::Str("a\"b\\c/d".to_string()))
    );
    assert_eq!(
        Json::parse("\"\\n\\t\\r\\b\\f\""),
        Some(Json::Str("\n\t\r\u{8}\u{c}".to_string()))
    );
    assert_eq!(
        Json::parse("\"\\u0041\\u000a\""),
        Some(Json::Str("A\n".to_string()))
    );
    // code points past 255 are not represented by this parser
    assert_eq!(Json::parse("\"\\u1234\""), None);
}

#[test]
fn round_trip_reproduces_values() {
    let values = vec![
        Json::Null,
        Json::Int(-123456789),
        Json::Str("quote \" backslash \\ newline \n ünïcode".to_string()),
        Json::Arr(vec![]),
        obj(vec![]),
        obj(vec![
            ("id", Json::Int(7)),
            ("tags", Json::Arr(vec![Json::Str("a".to_string())])),
            ("inner", obj(vec![("ok", Json::Bool(true))])),
        ]),
    ];
    for v in values {
        let text = v.render();
        assert_eq!(Json::parse(&text), Some(v));
    }
}
