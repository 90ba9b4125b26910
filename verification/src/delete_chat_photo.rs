//! Delete a chat photo.  Photos cannot be changed for private chats; the
//! bot must be an administrator with the appropriate rights.  Returns
//! true on success.

use vstd::prelude::*;
use crate::chat_id::{ChatId, spec_chat_id_json};
use crate::errors::RequestError;
use crate::form::{FieldView, FieldValueView, FormBuilder, spec_names_unique};
use crate::json::{JsonValue, JsonView};
use crate::request::{PreparedRequest, Request, RequestContext, assemble};

verus! {

/// Request to delete the photo of a chat.
#[derive(Debug, Clone)]
pub struct DeleteChatPhoto<'a> {
    /// Borrowed connection context, shared across requests.
    pub ctx: &'a RequestContext,
    /// Unique identifier for the target chat or username of the target
    /// channel.
    pub chat_id: ChatId,
}

impl<'a> DeleteChatPhoto<'a> {
    /// The request with `chat_id` replaced.
    pub open spec fn spec_with_chat_id(self, val: ChatId) -> Self {
        DeleteChatPhoto { chat_id: val, ..self }
    }

    /// Build the request.
    pub fn new(ctx: &'a RequestContext, chat_id: ChatId) -> (r: Self)
        ensures
            r.chat_id == chat_id,
            r.spec_token() == ctx.token@,
    {
        Self { ctx, chat_id }
    }

    /// Replace the target chat.
    pub fn chat_id(self, val: ChatId) -> (r: Self)
        ensures
            r == self.spec_with_chat_id(val),
    {
        DeleteChatPhoto { chat_id: val, ..self }
    }
}

impl<'a> Request for DeleteChatPhoto<'a> {
    /// The remote service answers a success with the literal `true`.
    type Output = bool;

    open spec fn spec_method(&self) -> Seq<char> {
        "deleteChatPhoto"@
    }

    open spec fn spec_token(&self) -> Seq<char> {
        self.ctx.token@
    }

    open spec fn spec_fields(&self) -> Seq<FieldView> {
        seq![
            FieldView { name: "chat_id"@, value: FieldValueView::Json(spec_chat_id_json(self.chat_id.dv())) },
        ]
    }

    open spec fn output_accepts(v: JsonView) -> bool {
        v is Bool
    }

    open spec fn output_matches(v: JsonView, out: bool) -> bool {
        v == JsonView::Bool(out)
    }

    fn send(self) -> (p: PreparedRequest) {
        let ctx = self.ctx;
        let form = FormBuilder::new().add("chat_id", self.chat_id.encode_json()).build();
        proof {
            assert(form.dv() =~= self.spec_fields());
        }
        assemble(ctx.token.as_str(), "deleteChatPhoto", form)
    }

    fn decode_output(v: JsonValue) -> (r: Result<bool, RequestError>) {
        match v {
            JsonValue::Bool(b) => Result::Ok(b),
            _ => Result::Err(RequestError::Decode),
        }
    }
}

/// The single field name of the encoded parameter set is trivially
/// unique.
pub proof fn lemma_delete_chat_photo_names_unique(m: DeleteChatPhoto<'_>)
    ensures
        spec_names_unique(m.spec_fields()),
{
}

} // verus!
