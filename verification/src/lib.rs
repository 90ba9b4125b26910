//! Typed client binding for a messaging-bot HTTP API.
//!
//! The crate covers request construction, form encoding (JSON versus
//! multipart transport), the response envelope decoder, and the scalar
//! codecs (packed colors, chat identifiers, file references) that must
//! round-trip exactly through the wire format.

pub mod chat_id;
pub mod delete_chat_photo;
pub mod envelope;
pub mod errors;
pub mod form;
pub mod forward_message;
pub mod input_file;
pub mod json;
pub mod request;
pub mod rgb;
pub mod send_media_group;

pub use chat_id::ChatId;
pub use delete_chat_photo::DeleteChatPhoto;
pub use errors::RequestError;
pub use form::{Body, Form, FormBuilder};
pub use forward_message::ForwardMessage;
pub use input_file::{InputFile, InputMedia};
pub use json::JsonValue;
pub use request::{PreparedRequest, Request, RequestContext};
pub use rgb::Rgb;
pub use send_media_group::SendMediaGroup;
