use teloxide::chat_id::ChatId;
use teloxide::delete_chat_photo::DeleteChatPhoto;
use teloxide::errors::RequestError;
use teloxide::form::Body;
use teloxide::forward_message::ForwardMessage;
use teloxide::json::JsonValue;
use teloxide::request::{complete, Request, RequestContext};

#[test]
fn absent_body_is_network_error() {
    let r = complete::<ForwardMessage<'static>>(None);
    assert_eq!(r, Err(RequestError::Network));
}

#[test]
fn delete_chat_photo_decodes_true() {
    let env = JsonValue::Obj(vec![
        (String::from("ok"), JsonValue::Bool(true)),
        (String::from("result"), JsonValue::Bool(true)),
    ]);
    let r = complete::<DeleteChatPhoto<'static>>(Some(env));
    assert_eq!(r, Ok(true));
}

#[test]
fn delete_chat_photo_type_skew_is_decode_error() {
    let env = JsonValue::Obj(vec![
        (String::from("ok"), JsonValue::Bool(true)),
        (String::from("result"), JsonValue::Str(String::from("true"))),
    ]);
    let r = complete::<DeleteChatPhoto<'static>>(Some(env));
    assert_eq!(r, Err(RequestError::Decode));
}

#[test]
fn delete_chat_photo_body() {
    let ctx = RequestContext::new(String::from("TOKEN"));
    let req = DeleteChatPhoto::new(&ctx, ChatId::Id(-1001234));
    let prepared = req.send();
    assert_eq!(prepared.url, "https://api.telegram.org/botTOKEN/deleteChatPhoto");
    match prepared.body {
        Body::Json(s) => assert_eq!(s, r#"{"chat_id":-1001234}"#),
        Body::Multipart(_) => panic!("plain request must use the JSON transport"),
    }
}

#[test]
fn forward_message_api_failure_propagates() {
    let env = JsonValue::Obj(vec![
        (String::from("ok"), JsonValue::Bool(false)),
        (String::from("error_code"), JsonValue::UInt(403)),
        (String::from("description"), JsonValue::Str(String::from("Forbidden"))),
    ]);
    let r = complete::<ForwardMessage<'static>>(Some(env));
    assert_eq!(
        r,
        Err(RequestError::Api {
            code: 403,
            description: String::from("Forbidden"),
            retry_after: None,
            migrate_to_chat_id: None,
        })
    );
}

#[test]
fn chat_id_decode_preserves_variant() {
    assert_eq!(ChatId::decode_json(JsonValue::Int(-7)), Ok(ChatId::Id(-7)));
    assert_eq!(
        ChatId::decode_json(JsonValue::Str(String::from("@name"))),
        Ok(ChatId::ChannelUsername(String::from("@name")))
    );
    assert_eq!(ChatId::decode_json(JsonValue::Bool(true)), Err(RequestError::Decode));
}

#[test]
fn chat_id_round_trip() {
    for c in [ChatId::Id(99), ChatId::ChannelUsername(String::from("@c"))] {
        assert_eq!(ChatId::decode_json(c.clone().encode_json()), Ok(c));
    }
}
