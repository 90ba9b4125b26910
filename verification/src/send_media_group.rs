//! Send a group of photos or videos as an album.
//!
//! Whether the request travels as plain JSON or as multipart is not known
//! until every media item has been seen: one inline file anywhere in the
//! list forces multipart transport, and each inline file travels as a
//! named part the item's `attach://` reference points at.

use vstd::prelude::*;
use crate::chat_id::{ChatId, spec_chat_id_json};
use crate::errors::RequestError;
use crate::form::{FieldView, FieldValueView, FormBuilder, spec_has_part};
use crate::input_file::{InputFile, InputMedia, spec_media_json};
use crate::json::{JsonValue, JsonView, dv_seq, lemma_dv_seq};
use crate::request::{PreparedRequest, Request, RequestContext, assemble};

verus! {

/// Request to send a media album.
#[derive(Debug, Clone)]
pub struct SendMediaGroup<'a> {
    /// Borrowed connection context, shared across requests.
    pub ctx: &'a RequestContext,
    /// Unique identifier for the target chat or username of the target
    /// channel.
    pub chat_id: ChatId,
    /// The photos and videos of the album.
    pub media: Vec<InputMedia>,
    /// Sends the messages silently.
    pub disable_notification: Option<bool>,
    /// If the messages are a reply, identifier of the original message.
    pub reply_to_message_id: Option<i32>,
}

/// Wire forms of the media items, in order.
pub open spec fn spec_media_array(media: Seq<InputMedia>) -> Seq<JsonView> {
    Seq::new(media.len(), |i: int| spec_media_json(media[i].dv()))
}

/// The multipart part one media item contributes: a named byte part for
/// an inline file, nothing otherwise.
pub open spec fn spec_file_part_of(m: InputMedia) -> Seq<FieldView> {
    match m.spec_file() {
        InputFile::Memory { file_name, data } => seq![
            FieldView {
                name: file_name@,
                value: FieldValueView::Part { file_name: file_name@, bytes: data@ },
            },
        ],
        _ => Seq::empty(),
    }
}

/// The multipart parts the media items contribute, in order.
pub open spec fn spec_file_parts(media: Seq<InputMedia>) -> Seq<FieldView>
    decreases media.len(),
{
    if media.len() == 0 {
        Seq::empty()
    } else {
        spec_file_parts(media.drop_last()) + spec_file_part_of(media.last())
    }
}

impl<'a> SendMediaGroup<'a> {
    /// The request with `chat_id` replaced.
    pub open spec fn spec_with_chat_id(self, val: ChatId) -> Self {
        SendMediaGroup { chat_id: val, ..self }
    }

    /// The request with `media` replaced.
    pub open spec fn spec_with_media(self, val: Vec<InputMedia>) -> Self {
        SendMediaGroup { media: val, ..self }
    }

    /// The request with `disable_notification` set.
    pub open spec fn spec_with_disable_notification(self, val: bool) -> Self {
        SendMediaGroup { disable_notification: Option::Some(val), ..self }
    }

    /// The request with `reply_to_message_id` set.
    pub open spec fn spec_with_reply_to_message_id(self, val: i32) -> Self {
        SendMediaGroup { reply_to_message_id: Option::Some(val), ..self }
    }

    /// Build the request with its required fields; the optional fields
    /// start unset.
    pub fn new(ctx: &'a RequestContext, chat_id: ChatId, media: Vec<InputMedia>) -> (r: Self)
        ensures
            r.chat_id == chat_id,
            r.media == media,
            r.disable_notification is None,
            r.reply_to_message_id is None,
            r.spec_token() == ctx.token@,
    {
        Self {
            ctx,
            chat_id,
            media,
            disable_notification: Option::None,
            reply_to_message_id: Option::None,
        }
    }

    /// Replace the target chat.
    pub fn chat_id(self, value: ChatId) -> (r: Self)
        ensures
            r == self.spec_with_chat_id(value),
    {
        SendMediaGroup { chat_id: value, ..self }
    }

    /// Replace the album contents.
    pub fn media(self, value: Vec<InputMedia>) -> (r: Self)
        ensures
            r == self.spec_with_media(value),
    {
        SendMediaGroup { media: value, ..self }
    }

    /// Set silent delivery.
    pub fn disable_notification(self, value: bool) -> (r: Self)
        ensures
            r == self.spec_with_disable_notification(value),
    {
        SendMediaGroup { disable_notification: Option::Some(value), ..self }
    }

    /// Set the message replied to.
    pub fn reply_to_message_id(self, value: i32) -> (r: Self)
        ensures
            r == self.spec_with_reply_to_message_id(value),
    {
        SendMediaGroup { reply_to_message_id: Option::Some(value), ..self }
    }
}

impl<'a> Request for SendMediaGroup<'a> {
    /// The sent messages, kept as their raw JSON values.
    type Output = Vec<JsonValue>;

    open spec fn spec_method(&self) -> Seq<char> {
        "sendMediaGroup"@
    }

    open spec fn spec_token(&self) -> Seq<char> {
        self.ctx.token@
    }

    open spec fn spec_fields(&self) -> Seq<FieldView> {
        seq![
            FieldView { name: "chat_id"@, value: FieldValueView::Json(spec_chat_id_json(self.chat_id.dv())) },
            FieldView { name: "media"@, value: FieldValueView::Json(JsonView::Arr(spec_media_array(self.media@))) },
        ] + (match self.disable_notification {
            Option::Some(b) => seq![
                FieldView { name: "disable_notification"@, value: FieldValueView::Json(JsonView::Bool(b)) },
            ],
            Option::None => Seq::empty(),
        }) + (match self.reply_to_message_id {
            Option::Some(id) => seq![
                FieldView { name: "reply_to_message_id"@, value: FieldValueView::Json(JsonView::Int(id as int)) },
            ],
            Option::None => Seq::empty(),
        }) + spec_file_parts(self.media@)
    }

    open spec fn output_accepts(v: JsonView) -> bool {
        v is Arr
    }

    open spec fn output_matches(v: JsonView, out: Vec<JsonValue>) -> bool {
        v == JsonView::Arr(dv_seq(out@))
    }

    fn send(self) -> (p: PreparedRequest) {
        let ctx = self.ctx;
        let mut arr: Vec<JsonValue> = Vec::new();
        let mut i: usize = 0;
        let len = self.media.len();
        while i < len
            invariant
                i <= len,
                len == self.media@.len(),
                dv_seq(arr@) == spec_media_array(self.media@.take(i as int)),
                arr@.len() == i,
            decreases len - i,
        {
            let ghost before = arr@;
            let item = self.media[i].encode_json();
            arr.push(item);
            proof {
                lemma_dv_seq(arr@);
                lemma_dv_seq(before);
                assert(forall|k: int| 0 <= k < i ==> #[trigger] arr@[k] == before[k]);
                assert(arr@[i as int] == item);
                assert(item.dv() == spec_media_json(self.media@[i as int].dv()));
                assert(forall|k: int| 0 <= k < i ==> #[trigger] dv_seq(arr@)[k] == dv_seq(before)[k]);
                assert(forall|k: int| 0 <= k < i
                    ==> #[trigger] dv_seq(before)[k] == spec_media_array(self.media@.take(i as int))[k]);
                assert(dv_seq(arr@) =~= spec_media_array(self.media@.take(i + 1)));
            }
            i = i + 1;
        }
        proof {
            assert(self.media@.take(len as int) =~= self.media@);
        }
        let b = FormBuilder::new()
            .add("chat_id", self.chat_id.encode_json())
            .add("media", JsonValue::Arr(arr))
            .add_if_some("disable_notification", match self.disable_notification {
                Option::Some(v) => Option::Some(JsonValue::Bool(v)),
                Option::None => Option::None,
            })
            .add_if_some("reply_to_message_id", match self.reply_to_message_id {
                Option::Some(v) => Option::Some(JsonValue::Int(v as i64)),
                Option::None => Option::None,
            });
        let ghost base = b.dv();
        let ghost morig = self.media@;
        let mut b = b;
        let mut media = self.media;
        while media.len() > 0
            invariant
                media@.len() <= morig.len(),
                media@ == morig.skip(morig.len() - media@.len()),
                b.dv() == base + spec_file_parts(morig.take(morig.len() - media@.len())),
            decreases media@.len(),
        {
            let ghost done = morig.len() - media@.len();
            let ghost mbefore = media@;
            let m = media.remove(0);
            proof {
                assert(m == morig[done]);
                assert(forall|k: int| 0 <= k < media@.len() ==> #[trigger] media@[k] == mbefore[k + 1]);
                assert(media@ =~= morig.skip(done + 1));
            }
            let file = m.into_file();
            match file {
                InputFile::Memory { file_name, data } => {
                    let part_name = file_name.clone();
                    b = b.add_file(part_name.as_str(), InputFile::Memory { file_name, data });
                    proof {
                        assert(morig.take(done + 1).drop_last() =~= morig.take(done));
                        assert(morig.take(done + 1).last() == morig[done]);
                        assert(b.dv() =~= base + spec_file_parts(morig.take(done + 1)));
                    }
                },
                _ => {
                    proof {
                        assert(morig.take(done + 1).drop_last() =~= morig.take(done));
                        assert(morig.take(done + 1).last() == morig[done]);
                        assert(spec_file_part_of(morig[done]) =~= Seq::<FieldView>::empty());
                        assert(b.dv() =~= base + spec_file_parts(morig.take(done + 1)));
                    }
                },
            }
        }
        proof {
            assert(morig.take(morig.len() as int) =~= morig);
        }
        let form = b.build();
        proof {
            assert(form.dv() =~= self.spec_fields());
        }
        assemble(ctx.token.as_str(), "sendMediaGroup", form)
    }

    fn decode_output(v: JsonValue) -> (r: Result<Vec<JsonValue>, RequestError>) {
        match v {
            JsonValue::Arr(items) => Result::Ok(items),
            _ => Result::Err(RequestError::Decode),
        }
    }
}

/// Setting the same optional field twice keeps only the last value: the
/// encoded form of a twice-set request is the encoded form of the
/// once-set request with the final value.
pub proof fn lemma_send_media_group_last_setter_wins(m: SendMediaGroup<'_>, v1: bool, v2: bool, r1: i32, r2: i32)
    ensures
        m.spec_with_disable_notification(v1).spec_with_disable_notification(v2).spec_fields()
            == m.spec_with_disable_notification(v2).spec_fields(),
        m.spec_with_reply_to_message_id(r1).spec_with_reply_to_message_id(r2).spec_fields()
            == m.spec_with_reply_to_message_id(r2).spec_fields(),
{
}

/// An unset optional field is omitted: when `disable_notification` is
/// not set, the encoded parameter set has no entry under that name —
/// provided no inline file part was deliberately named after it.
pub proof fn lemma_send_media_group_omits_unset(m: SendMediaGroup<'_>)
    requires
        m.disable_notification is None,
        forall|i: int| 0 <= i < m.media@.len()
            ==> (match #[trigger] m.media@[i].spec_file() {
                InputFile::Memory { file_name, .. } => file_name@ != "disable_notification"@,
                _ => true,
            }),
    ensures
        forall|i: int| 0 <= i < m.spec_fields().len()
            ==> (#[trigger] m.spec_fields()[i].name) != "disable_notification"@,
{
    reveal_strlit("chat_id");
    reveal_strlit("media");
    reveal_strlit("reply_to_message_id");
    reveal_strlit("disable_notification");
    lemma_file_parts_names(m.media@);
    let fs = m.spec_fields();
    let parts = spec_file_parts(m.media@);
    let base_len = fs.len() - parts.len();
    assert(fs[0].name == "chat_id"@);
    assert(fs[1].name == "media"@);
    if m.reply_to_message_id is Some {
        assert(fs[2].name == "reply_to_message_id"@);
    }
    assert(forall|i: int| 0 <= i < base_len ==> (#[trigger] fs[i].name) != "disable_notification"@);
    assert(forall|i: int| base_len <= i < fs.len()
        ==> (#[trigger] fs[i].name) == parts[i - base_len].name);
}

/// Every part a media list contributes is named after its inline file.
proof fn lemma_file_parts_names(media: Seq<InputMedia>)
    ensures
        forall|k: int| 0 <= k < spec_file_parts(media).len()
            ==> (exists|i: int| 0 <= i < media.len()
                && (match #[trigger] media[i].spec_file() {
                    InputFile::Memory { file_name, .. } =>
                        #[trigger] spec_file_parts(media)[k].name == file_name@,
                    _ => false,
                })),
    decreases media.len(),
{
    if media.len() > 0 {
        lemma_file_parts_names(media.drop_last());
        let a = spec_file_parts(media.drop_last());
        let tail = spec_file_part_of(media.last());
        assert(spec_file_parts(media) == a + tail);
        assert(forall|i: int| 0 <= i < media.len() - 1
            ==> #[trigger] media.drop_last()[i] == media[i]);
        assert forall|k: int| 0 <= k < spec_file_parts(media).len() implies (exists|i: int|
            0 <= i < media.len()
            && (match #[trigger] media[i].spec_file() {
                InputFile::Memory { file_name, .. } =>
                    #[trigger] spec_file_parts(media)[k].name == file_name@,
                _ => false,
            })) by {
            if k < a.len() {
                let i = choose|i: int| 0 <= i < media.drop_last().len()
                    && (match #[trigger] media.drop_last()[i].spec_file() {
                        InputFile::Memory { file_name, .. } => a[k].name == file_name@,
                        _ => false,
                    });
                assert(media[i].spec_file() == media.drop_last()[i].spec_file());
                assert(spec_file_parts(media)[k] == a[k]);
            } else {
                assert(media.last().spec_file() is Memory);
                assert(media[media.len() - 1].spec_file() is Memory);
                assert(spec_file_parts(media)[k] == tail[k - a.len()]);
            }
        }
    }
}

/// Multipart is selected exactly when an inline file occurs anywhere in
/// the parts a media list contributes.
proof fn lemma_file_parts_inline(media: Seq<InputMedia>)
    ensures
        spec_has_part(spec_file_parts(media)) <==> (exists|i: int|
            0 <= i < media.len() && (#[trigger] media[i].spec_file()) is Memory),
    decreases media.len(),
{
    if media.len() > 0 {
        lemma_file_parts_inline(media.drop_last());
        let a = spec_file_parts(media.drop_last());
        let tail = spec_file_part_of(media.last());
        assert(spec_file_parts(media) == a + tail);
        if spec_has_part(a + tail) {
            let k = choose|k: int| 0 <= k < (a + tail).len() && #[trigger] (a + tail)[k].value is Part;
            if k < a.len() {
                assert(a[k].value is Part);
                assert(spec_has_part(a));
                let i = choose|i: int|
                    0 <= i < media.drop_last().len()
                    && (#[trigger] media.drop_last()[i].spec_file()) is Memory;
                assert(media.drop_last()[i] == media[i]);
                assert(media[i].spec_file() is Memory);
            } else {
                assert(tail[k - a.len()].value is Part);
                assert(media.last().spec_file() is Memory);
                assert(media[media.len() - 1].spec_file() is Memory);
            }
        }
        if exists|i: int| 0 <= i < media.len() && (#[trigger] media[i].spec_file()) is Memory {
            let i = choose|i: int| 0 <= i < media.len() && (#[trigger] media[i].spec_file()) is Memory;
            if i < media.len() - 1 {
                assert(media.drop_last()[i] == media[i]);
                assert(media.drop_last()[i].spec_file() is Memory);
                assert(spec_has_part(a));
                let k = choose|k: int| 0 <= k < a.len() && #[trigger] a[k].value is Part;
                assert((a + tail)[k].value is Part);
                assert(spec_has_part(a + tail));
            } else {
                assert(media.last().spec_file() is Memory);
                assert(tail[0].value is Part);
                assert((a + tail)[a.len() as int].value is Part);
                assert(spec_has_part(a + tail));
            }
        }
    }
}

/// Transport selection: the encoded parameter set of an album selects
/// multipart exactly when some item of the list carries an inline file;
/// an album with no inline file anywhere travels as plain JSON.
pub proof fn lemma_send_media_group_transport(m: SendMediaGroup<'_>)
    ensures
        spec_has_part(m.spec_fields()) <==> (exists|i: int|
            0 <= i < m.media@.len() && (#[trigger] m.media@[i].spec_file()) is Memory),
{
    lemma_file_parts_inline(m.media@);
    let fs = m.spec_fields();
    let parts = spec_file_parts(m.media@);
    let base_len = fs.len() - parts.len();
    assert(forall|i: int| 0 <= i < base_len ==> !(#[trigger] fs[i].value is Part));
    if spec_has_part(parts) {
        let k = choose|k: int| 0 <= k < parts.len() && #[trigger] parts[k].value is Part;
        assert(fs[base_len + k].value is Part);
        assert(spec_has_part(fs));
    }
    if spec_has_part(fs) {
        let k = choose|k: int| 0 <= k < fs.len() && #[trigger] fs[k].value is Part;
        if k >= base_len {
            assert(parts[k - base_len].value is Part);
            assert(spec_has_part(parts));
        }
    }
}

} // verus!
