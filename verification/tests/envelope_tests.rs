use teloxide::envelope::decode_envelope;
use teloxide::errors::RequestError;
use teloxide::json::JsonValue;

fn obj(fields: Vec<(&str, JsonValue)>) -> JsonValue {
    JsonValue::Obj(fields.into_iter().map(|(k, v)| (String::from(k), v)).collect())
}

#[test]
fn success_envelope_yields_result() {
    let env = obj(vec![("ok", JsonValue::Bool(true)), ("result", JsonValue::UInt(42))]);
    assert_eq!(decode_envelope(env), Ok(JsonValue::UInt(42)));
}

#[test]
fn rate_limit_envelope_yields_api_error() {
    let env = obj(vec![
        ("ok", JsonValue::Bool(false)),
        ("error_code", JsonValue::UInt(429)),
        ("description", JsonValue::Str(String::from("Too Many Requests"))),
        ("parameters", obj(vec![("retry_after", JsonValue::UInt(5))])),
    ]);
    assert_eq!(
        decode_envelope(env),
        Err(RequestError::Api {
            code: 429,
            description: String::from("Too Many Requests"),
            retry_after: Some(5),
            migrate_to_chat_id: None,
        })
    );
}

#[test]
fn migration_envelope_surfaces_chat_id() {
    let env = obj(vec![
        ("ok", JsonValue::Bool(false)),
        ("error_code", JsonValue::UInt(400)),
        ("description", JsonValue::Str(String::from("Bad Request: group chat was upgraded"))),
        ("parameters", obj(vec![("migrate_to_chat_id", JsonValue::Int(-100123))])),
    ]);
    assert_eq!(
        decode_envelope(env),
        Err(RequestError::Api {
            code: 400,
            description: String::from("Bad Request: group chat was upgraded"),
            retry_after: None,
            migrate_to_chat_id: Some(-100123),
        })
    );
}

#[test]
fn success_without_result_is_decode_error() {
    let env = obj(vec![("ok", JsonValue::Bool(true))]);
    assert_eq!(decode_envelope(env), Err(RequestError::Decode));
}

#[test]
fn failure_without_description_is_decode_error() {
    let env = obj(vec![("ok", JsonValue::Bool(false)), ("error_code", JsonValue::UInt(400))]);
    assert_eq!(decode_envelope(env), Err(RequestError::Decode));
}

#[test]
fn non_object_envelope_is_decode_error() {
    assert_eq!(decode_envelope(JsonValue::Str(String::from("nope"))), Err(RequestError::Decode));
    assert_eq!(decode_envelope(JsonValue::Null), Err(RequestError::Decode));
}

#[test]
fn envelope_parsed_from_wire_text() {
    let parsed: serde_json::Value = serde_json::from_str(r#"{"ok":true,"result":42}"#).unwrap();
    assert!(parsed.get("ok").unwrap().as_bool().unwrap());
    let env = obj(vec![
        ("ok", JsonValue::Bool(true)),
        ("result", JsonValue::UInt(parsed.get("result").unwrap().as_u64().unwrap())),
    ]);
    assert_eq!(decode_envelope(env), Ok(JsonValue::UInt(42)));
}
