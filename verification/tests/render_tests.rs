use teloxide::json::{render_value, render_i64, render_u64, JsonValue};
use teloxide::request::api_url;

#[test]
fn renders_scalars() {
    assert_eq!(render_value(&JsonValue::Null), "null");
    assert_eq!(render_value(&JsonValue::Bool(true)), "true");
    assert_eq!(render_value(&JsonValue::Bool(false)), "false");
    assert_eq!(render_value(&JsonValue::UInt(0)), "0");
    assert_eq!(render_value(&JsonValue::UInt(1234567890)), "1234567890");
    assert_eq!(render_value(&JsonValue::Int(-42)), "-42");
}

#[test]
fn renders_integer_extremes() {
    assert_eq!(render_i64(i64::MIN), "-9223372036854775808");
    assert_eq!(render_i64(i64::MAX), "9223372036854775807");
    assert_eq!(render_u64(u64::MAX), "18446744073709551615");
}

#[test]
fn renders_escaped_strings() {
    assert_eq!(render_value(&JsonValue::Str(String::from("plain"))), r#""plain""#);
    assert_eq!(render_value(&JsonValue::Str(String::from("a\"b"))), r#""a\"b""#);
    assert_eq!(render_value(&JsonValue::Str(String::from("back\\slash"))), r#""back\\slash""#);
    assert_eq!(render_value(&JsonValue::Str(String::from("line\nbreak"))), r#""line\nbreak""#);
    assert_eq!(render_value(&JsonValue::Str(String::from("\r\t"))), r#""\r\t""#);
    assert_eq!(render_value(&JsonValue::Str(String::from("\u{1}"))), r#""\u0001""#);
    assert_eq!(render_value(&JsonValue::Str(String::from("\u{1f}"))), r#""\u001f""#);
}

#[test]
fn renders_nested_structures() {
    let v = JsonValue::Obj(vec![
        (String::from("a"), JsonValue::Arr(vec![JsonValue::Int(1), JsonValue::Null])),
        (String::from("b"), JsonValue::Obj(vec![(String::from("c"), JsonValue::Bool(false))])),
    ]);
    assert_eq!(render_value(&v), r#"{"a":[1,null],"b":{"c":false}}"#);
    assert_eq!(render_value(&JsonValue::Arr(vec![])), "[]");
    assert_eq!(render_value(&JsonValue::Obj(vec![])), "{}");
}

#[test]
fn renders_parsed_wire_number_back() {
    let parsed: serde_json::Value = serde_json::from_str("11189196").unwrap();
    let v = JsonValue::UInt(parsed.as_u64().unwrap());
    assert_eq!(render_value(&v), "11189196");
}

#[test]
fn api_url_attaches_credential() {
    assert_eq!(api_url("TOKEN", "getMe"), "https://api.telegram.org/botTOKEN/getMe");
}
