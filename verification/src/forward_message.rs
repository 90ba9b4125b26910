//! Forward a message of any kind.  On success the sent message is
//! returned.

use vstd::prelude::*;
use crate::chat_id::{ChatId, spec_chat_id_json};
use crate::errors::RequestError;
use crate::form::{FieldView, FieldValueView, FormBuilder, spec_names_unique};
use crate::json::{JsonValue, JsonView};
use crate::request::{PreparedRequest, Request, RequestContext, assemble};

verus! {

/// Request to forward a message from one chat to another.
#[derive(Debug, Clone)]
pub struct ForwardMessage<'a> {
    /// Borrowed connection context, shared across requests.
    pub ctx: &'a RequestContext,
    /// Unique identifier for the target chat or username of the target
    /// channel.
    pub chat_id: ChatId,
    /// Unique identifier for the chat the original message was sent in.
    pub from_chat_id: ChatId,
    /// Message identifier in the chat specified in `from_chat_id`.
    pub message_id: i64,
    /// Sends the message silently: users receive a notification with no
    /// sound.
    pub disable_notification: Option<bool>,
}

impl<'a> ForwardMessage<'a> {
    /// The request with `chat_id` replaced.
    pub open spec fn spec_with_chat_id(self, val: ChatId) -> Self {
        ForwardMessage { chat_id: val, ..self }
    }

    /// The request with `from_chat_id` replaced.
    pub open spec fn spec_with_from_chat_id(self, val: ChatId) -> Self {
        ForwardMessage { from_chat_id: val, ..self }
    }

    /// The request with `message_id` replaced.
    pub open spec fn spec_with_message_id(self, val: i64) -> Self {
        ForwardMessage { message_id: val, ..self }
    }

    /// The request with `disable_notification` set.
    pub open spec fn spec_with_disable_notification(self, val: bool) -> Self {
        ForwardMessage { disable_notification: Option::Some(val), ..self }
    }

    /// Build the request with its required fields; the optional field
    /// starts unset.
    pub fn new(ctx: &'a RequestContext, chat_id: ChatId, from_chat_id: ChatId, message_id: i64) -> (r: Self)
        ensures
            r.chat_id == chat_id,
            r.from_chat_id == from_chat_id,
            r.message_id == message_id,
            r.disable_notification is None,
            r.spec_token() == ctx.token@,
    {
        Self { ctx, chat_id, from_chat_id, message_id, disable_notification: Option::None }
    }

    /// Replace the target chat.
    pub fn chat_id(self, val: ChatId) -> (r: Self)
        ensures
            r == self.spec_with_chat_id(val),
    {
        ForwardMessage { chat_id: val, ..self }
    }

    /// Replace the source chat.
    pub fn from_chat_id(self, val: ChatId) -> (r: Self)
        ensures
            r == self.spec_with_from_chat_id(val),
    {
        ForwardMessage { from_chat_id: val, ..self }
    }

    /// Replace the message identifier.
    pub fn message_id(self, val: i64) -> (r: Self)
        ensures
            r == self.spec_with_message_id(val),
    {
        ForwardMessage { message_id: val, ..self }
    }

    /// Set silent delivery.
    pub fn disable_notification(self, val: bool) -> (r: Self)
        ensures
            r == self.spec_with_disable_notification(val),
    {
        ForwardMessage { disable_notification: Option::Some(val), ..self }
    }
}

impl<'a> Request for ForwardMessage<'a> {
    /// The sent message, kept as its raw JSON value.
    type Output = JsonValue;

    open spec fn spec_method(&self) -> Seq<char> {
        "forwardMessage"@
    }

    open spec fn spec_token(&self) -> Seq<char> {
        self.ctx.token@
    }

    open spec fn spec_fields(&self) -> Seq<FieldView> {
        seq![
            FieldView { name: "chat_id"@, value: FieldValueView::Json(spec_chat_id_json(self.chat_id.dv())) },
            FieldView { name: "from_chat_id"@, value: FieldValueView::Json(spec_chat_id_json(self.from_chat_id.dv())) },
            FieldView { name: "message_id"@, value: FieldValueView::Json(JsonView::Int(self.message_id as int)) },
        ] + match self.disable_notification {
            Option::Some(b) => seq![
                FieldView { name: "disable_notification"@, value: FieldValueView::Json(JsonView::Bool(b)) },
            ],
            Option::None => Seq::empty(),
        }
    }

    open spec fn output_accepts(v: JsonView) -> bool {
        true
    }

    open spec fn output_matches(v: JsonView, out: JsonValue) -> bool {
        out.dv() == v
    }

    fn send(self) -> (p: PreparedRequest) {
        let ctx = self.ctx;
        let form = FormBuilder::new()
            .add("chat_id", self.chat_id.encode_json())
            .add("from_chat_id", self.from_chat_id.encode_json())
            .add("message_id", JsonValue::Int(self.message_id))
            .add_if_some("disable_notification", match self.disable_notification {
                Option::Some(b) => Option::Some(JsonValue::Bool(b)),
                Option::None => Option::None,
            })
            .build();
        proof {
            assert(form.dv() =~= self.spec_fields());
        }
        assemble(ctx.token.as_str(), "forwardMessage", form)
    }

    fn decode_output(v: JsonValue) -> (r: Result<JsonValue, RequestError>) {
        Result::Ok(v)
    }
}

/// An unset optional field is omitted: when `disable_notification` is
/// not set, the encoded parameter set contains no entry under that name.
pub proof fn lemma_forward_message_omits_unset(m: ForwardMessage<'_>)
    requires
        m.disable_notification is None,
    ensures
        forall|i: int| 0 <= i < m.spec_fields().len()
            ==> (#[trigger] m.spec_fields()[i].name) != "disable_notification"@,
{
    reveal_strlit("chat_id");
    reveal_strlit("from_chat_id");
    reveal_strlit("message_id");
    reveal_strlit("disable_notification");
    let fs = m.spec_fields();
    assert(fs.len() == 3);
    assert(fs[0].name == "chat_id"@);
    assert(fs[1].name == "from_chat_id"@);
    assert(fs[2].name == "message_id"@);
}

/// Field names of the encoded parameter set are pairwise distinct.
pub proof fn lemma_forward_message_names_unique(m: ForwardMessage<'_>)
    ensures
        spec_names_unique(m.spec_fields()),
{
    reveal_strlit("chat_id");
    reveal_strlit("from_chat_id");
    reveal_strlit("message_id");
    reveal_strlit("disable_notification");
    let fs = m.spec_fields();
    assert(fs[0].name == "chat_id"@);
    assert(fs[1].name == "from_chat_id"@);
    assert(fs[2].name == "message_id"@);
    if m.disable_notification is Some {
        assert(fs[3].name == "disable_notification"@);
    }
}

/// Setting the same optional field twice keeps only the last value: the
/// encoded form of a twice-set request is the encoded form of the
/// once-set request with the final value.
pub proof fn lemma_forward_message_last_setter_wins(m: ForwardMessage<'_>, v1: bool, v2: bool)
    ensures
        m.spec_with_disable_notification(v1).spec_with_disable_notification(v2)
            == m.spec_with_disable_notification(v2),
        m.spec_with_disable_notification(v1).spec_with_disable_notification(v2).spec_fields()
            == m.spec_with_disable_notification(v2).spec_fields(),
{
}

} // verus!
