use teloxide::chat_id::ChatId;
use teloxide::form::{Body, FormBuilder, PartContent};
use teloxide::forward_message::ForwardMessage;
use teloxide::input_file::{InputFile, InputMedia};
use teloxide::json::JsonValue;
use teloxide::request::{Request, RequestContext};
use teloxide::send_media_group::SendMediaGroup;

fn ctx() -> RequestContext {
    RequestContext::new(String::from("TOKEN"))
}

#[test]
fn unset_optional_field_is_omitted() {
    let builder = FormBuilder::new()
        .add("chat_id", JsonValue::Int(7))
        .add_if_some("disable_notification", None);
    let form = builder.build();
    assert_eq!(form.fields.len(), 1);
    assert_eq!(form.fields[0].name, "chat_id");
    assert!(!form.multipart);
}

#[test]
fn set_optional_field_is_present() {
    let form = FormBuilder::new()
        .add("chat_id", JsonValue::Int(7))
        .add_if_some("disable_notification", Some(JsonValue::Bool(true)))
        .build();
    assert_eq!(form.fields.len(), 2);
    assert_eq!(form.fields[1].name, "disable_notification");
}

#[test]
fn forward_message_json_body() {
    let ctx = ctx();
    let req = ForwardMessage::new(&ctx, ChatId::Id(123), ChatId::Id(456), 789);
    let prepared = req.send();
    assert_eq!(prepared.url, "https://api.telegram.org/botTOKEN/forwardMessage");
    match prepared.body {
        Body::Json(s) => {
            assert_eq!(s, r#"{"chat_id":123,"from_chat_id":456,"message_id":789}"#);
        }
        Body::Multipart(_) => panic!("plain request must use the JSON transport"),
    }
}

#[test]
fn forward_message_omits_unset_notification() {
    let ctx = ctx();
    let req = ForwardMessage::new(&ctx, ChatId::Id(1), ChatId::Id(2), 3);
    match req.send().body {
        Body::Json(s) => assert!(!s.contains("disable_notification")),
        Body::Multipart(_) => panic!("plain request must use the JSON transport"),
    }
}

#[test]
fn setter_called_twice_keeps_last_value() {
    let ctx = ctx();
    let req = ForwardMessage::new(&ctx, ChatId::Id(1), ChatId::Id(2), 3)
        .disable_notification(true)
        .disable_notification(false);
    match req.send().body {
        Body::Json(s) => {
            assert_eq!(
                s,
                r#"{"chat_id":1,"from_chat_id":2,"message_id":3,"disable_notification":false}"#
            );
        }
        Body::Multipart(_) => panic!("plain request must use the JSON transport"),
    }
}

#[test]
fn username_chat_id_encodes_as_string() {
    let ctx = ctx();
    let req = ForwardMessage::new(
        &ctx,
        ChatId::ChannelUsername(String::from("@channel")),
        ChatId::Id(2),
        3,
    );
    match req.send().body {
        Body::Json(s) => {
            assert_eq!(s, r#"{"chat_id":"@channel","from_chat_id":2,"message_id":3}"#);
        }
        Body::Multipart(_) => panic!("plain request must use the JSON transport"),
    }
}

#[test]
fn media_group_without_inline_files_is_json() {
    let ctx = ctx();
    let media = vec![
        InputMedia::Photo { media: InputFile::FileId(String::from("abc")), caption: None },
        InputMedia::Video { media: InputFile::Url(String::from("https://example.com/v.mp4")), caption: None },
    ];
    let req = SendMediaGroup::new(&ctx, ChatId::Id(5), media);
    match req.send().body {
        Body::Json(s) => {
            assert_eq!(
                s,
                r#"{"chat_id":5,"media":[{"type":"photo","media":"abc"},{"type":"video","media":"https://example.com/v.mp4"}]}"#
            );
        }
        Body::Multipart(_) => panic!("album without inline files must use the JSON transport"),
    }
}

#[test]
fn media_group_with_nested_inline_file_is_multipart() {
    let ctx = ctx();
    let media = vec![
        InputMedia::Photo { media: InputFile::FileId(String::from("abc")), caption: None },
        InputMedia::Photo {
            media: InputFile::Memory { file_name: String::from("pic.png"), data: vec![1, 2, 3] },
            caption: Some(String::from("hi")),
        },
    ];
    let req = SendMediaGroup::new(&ctx, ChatId::Id(5), media).disable_notification(true);
    match req.send().body {
        Body::Json(_) => panic!("album with an inline file must use the multipart transport"),
        Body::Multipart(parts) => {
            assert_eq!(parts.len(), 4);
            assert_eq!(parts[0].name, "chat_id");
            assert_eq!(parts[0].content, PartContent::Text(String::from("5")));
            assert_eq!(parts[1].name, "media");
            assert_eq!(
                parts[1].content,
                PartContent::Text(String::from(
                    r#"[{"type":"photo","media":"abc"},{"type":"photo","media":"attach://pic.png","caption":"hi"}]"#
                ))
            );
            assert_eq!(parts[2].name, "disable_notification");
            assert_eq!(parts[2].content, PartContent::Text(String::from("true")));
            assert_eq!(parts[3].name, "pic.png");
            assert_eq!(
                parts[3].content,
                PartContent::Bytes { file_name: String::from("pic.png"), data: vec![1, 2, 3] }
            );
        }
    }
}

#[test]
fn remote_file_reference_is_plain_string_field() {
    let form = FormBuilder::new()
        .add("chat_id", JsonValue::Int(1))
        .add_file("photo", InputFile::FileId(String::from("remote-id")))
        .build();
    assert!(!form.multipart);
    match teloxide::form::encode_body(form) {
        Body::Json(s) => assert_eq!(s, r#"{"chat_id":1,"photo":"remote-id"}"#),
        Body::Multipart(_) => panic!("a remote file reference must not force multipart"),
    }
}

#[test]
fn empty_album_is_json_with_empty_list() {
    let ctx = ctx();
    let req = SendMediaGroup::new(&ctx, ChatId::Id(5), vec![]);
    match req.send().body {
        Body::Json(s) => assert_eq!(s, r#"{"chat_id":5,"media":[]}"#),
        Body::Multipart(_) => panic!("album without inline files must use the JSON transport"),
    }
}

#[test]
fn multipart_string_field_stays_raw() {
    let form = FormBuilder::new()
        .add("caption", JsonValue::Str(String::from("no quotes")))
        .add_file("f.bin", InputFile::Memory { file_name: String::from("f.bin"), data: vec![9] })
        .build();
    assert!(form.multipart);
    match teloxide::form::encode_body(form) {
        Body::Multipart(parts) => {
            assert_eq!(parts[0].content, PartContent::Text(String::from("no quotes")));
        }
        Body::Json(_) => panic!("a form with a part must encode as multipart"),
    }
}
