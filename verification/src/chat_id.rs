//! Chat identifier codec.
//!
//! A chat is addressed either by its numeric identifier or by a channel
//! username.  The codec passes the held variant through unchanged, with no
//! normalization between the two forms, and decoding preserves which
//! variant was received.

use vstd::prelude::*;
use crate::errors::RequestError;
use crate::json::{JsonValue, JsonView};

verus! {

/// Unique identifier of a target chat, or username of a target channel.
#[derive(Debug, Clone, PartialEq, Eq)]
pub enum ChatId {
    /// Numeric chat identifier.
    Id(i64),
    /// Channel username in the form `@channelusername`.
    ChannelUsername(String),
}

/// The model of a chat identifier.
pub enum ChatIdView {
    Id(int),
    ChannelUsername(Seq<char>),
}

impl ChatId {
    /// The model of this chat identifier.
    pub open spec fn dv(self) -> ChatIdView {
        match self {
            ChatId::Id(n) => ChatIdView::Id(n as int),
            ChatId::ChannelUsername(u) => ChatIdView::ChannelUsername(u@),
        }
    }
}

/// Wire form of a chat identifier: the held variant unchanged, a number
/// for a numeric identifier and a string for a username.
pub open spec fn spec_chat_id_json(c: ChatIdView) -> JsonView {
    match c {
        ChatIdView::Id(n) => JsonView::Int(n),
        ChatIdView::ChannelUsername(u) => JsonView::Str(u),
    }
}

/// What decoding a JSON value as a chat identifier yields: an integer
/// becomes a numeric identifier, a string becomes a username, and the
/// received variant is preserved.  An integer outside the signed 64-bit
/// domain is out of range; any other shape is a decode failure.
pub open spec fn spec_decode_chat_id(v: JsonView) -> Result<ChatIdView, RequestError> {
    match v {
        JsonView::Int(n) => if -0x8000_0000_0000_0000 <= n <= 0x7fff_ffff_ffff_ffff {
            Result::Ok(ChatIdView::Id(n))
        } else {
            Result::Err(RequestError::ValueOutOfRange)
        },
        JsonView::Str(u) => Result::Ok(ChatIdView::ChannelUsername(u)),
        _ => Result::Err(RequestError::Decode),
    }
}

impl ChatId {
    /// Encode the identifier into its JSON wire form.
    pub fn encode_json(self) -> (v: JsonValue)
        ensures
            v.dv() == spec_chat_id_json(self.dv()),
    {
        match self {
            ChatId::Id(n) => JsonValue::Int(n),
            ChatId::ChannelUsername(u) => JsonValue::Str(u),
        }
    }

    /// Decode an identifier from its JSON wire form.
    pub fn decode_json(v: JsonValue) -> (r: Result<Self, RequestError>)
        ensures
            match r {
                Result::Ok(c) => spec_decode_chat_id(v.dv()) == Result::<ChatIdView, RequestError>::Ok(c.dv()),
                Result::Err(e) => spec_decode_chat_id(v.dv()) == Result::<ChatIdView, RequestError>::Err(e),
            },
    {
        match v {
            JsonValue::Int(n) => Result::Ok(ChatId::Id(n)),
            JsonValue::UInt(n) => {
                if n <= 0x7fff_ffff_ffff_ffff {
                    Result::Ok(ChatId::Id(n as i64))
                } else {
                    Result::Err(RequestError::ValueOutOfRange)
                }
            },
            JsonValue::Str(u) => Result::Ok(ChatId::ChannelUsername(u)),
            _ => Result::Err(RequestError::Decode),
        }
    }
}

/// Encoding then decoding a chat identifier returns the original variant
/// with the original contents: the codec pair is mutually inverse, with no
/// coercion between the numeric and username forms.
pub proof fn lemma_chat_id_round_trip(c: ChatId)
    ensures
        spec_decode_chat_id(spec_chat_id_json(c.dv())) == Result::<ChatIdView, RequestError>::Ok(c.dv()),
{
}

} // verus!
