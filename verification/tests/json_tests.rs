//! The JSON text layer: printing and parsing.

use a2a_client::json::JsonValue;
use a2a_client::jsontext::{int_to_string, parse_json, print_json};

#[test]
fn test_print_scalars() {
    assert_eq!(print_json(&JsonValue::Null), "null");
    assert_eq!(print_json(&JsonValue::Bool(true)), "true");
    assert_eq!(print_json(&JsonValue::Bool(false)), "false");
    assert_eq!(print_json(&JsonValue::Int(0)), "0");
    assert_eq!(print_json(&JsonValue::Int(-42)), "-42");
    assert_eq!(print_json(&JsonValue::Int(9007199254740993)), "9007199254740993");
    assert_eq!(print_json(&JsonValue::Str("hi".to_string())), "\"hi\"");
}

#[test]
fn test_int_to_string_extremes() {
    assert_eq!(int_to_string(i64::MIN), "-9223372036854775808");
    assert_eq!(int_to_string(i64::MAX), "9223372036854775807");
}

#[test]
fn test_print_escapes() {
    let v = JsonValue::Str("a\"b\\c\nd".to_string());
    assert_eq!(print_json(&v), "\"a\\\"b\\\\c\\u000ad\"");
}

#[test]
fn test_parse_escapes() {
    let v = parse_json("\"a\\\"b\\\\c\\nd\\u0041\"").expect("valid string");
    assert_eq!(v, JsonValue::Str("a\"b\\c\ndA".to_string()));
}

#[test]
fn test_parse_surrogate_pair() {
    let v = parse_json("\"\\uD83D\\uDE00\"").expect("valid escaped pair");
    assert_eq!(v, JsonValue::Str("\u{1F600}".to_string()));

    assert!(parse_json("\"\\uD83D\"").is_none(), "a lone high surrogate is refused");
    assert!(parse_json("\"\\uDE00\"").is_none(), "a lone low surrogate is refused");
}

#[test]
fn test_parse_rejects_garbage() {
    assert!(parse_json("").is_none());
    assert!(parse_json("{").is_none());
    assert!(parse_json("nul").is_none());
    assert!(parse_json("{\"a\":1,}").is_none());
    assert!(parse_json("1 2").is_none());
    assert!(parse_json("1.5").is_none());
}

#[test]
fn test_parse_whitespace_and_nesting() {
    let text = " { \"a\" : [ 1 , 2 , { \"b\" : null } ] , \"c\" : true } ";
    let v = parse_json(text).expect("valid document");
    let expected = JsonValue::Obj(vec![
        (
            "a".to_string(),
            JsonValue::Arr(vec![
                JsonValue::Int(1),
                JsonValue::Int(2),
                JsonValue::Obj(vec![("b".to_string(), JsonValue::Null)]),
            ]),
        ),
        ("c".to_string(), JsonValue::Bool(true)),
    ]);
    assert_eq!(v, expected);
}

#[test]
fn test_print_parse_round_trip() {
    let v = JsonValue::Obj(vec![
        ("text".to_string(), JsonValue::Str("line\nbreak \"quoted\"".to_string())),
        ("count".to_string(), JsonValue::Int(-7)),
        ("flag".to_string(), JsonValue::Bool(false)),
        ("nothing".to_string(), JsonValue::Null),
        ("items".to_string(), JsonValue::Arr(vec![JsonValue::Int(1), JsonValue::Str("x".to_string())])),
    ]);
    let text = print_json(&v);
    let back = parse_json(&text).expect("printer output parses");
    assert_eq!(v, back);
}
