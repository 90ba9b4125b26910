//! Form encoder.
//!
//! Fields are buffered in call order into an ordered parameter set.
//! Whether a request needs multipart transport is not known until every
//! field has been added: `build` scans the buffered fields and selects
//! multipart exactly when at least one inline file is present, otherwise
//! plain JSON.  Under multipart every field becomes one part, structured
//! values pre-flattened to their JSON text; under plain JSON the fields
//! stay structured inside one JSON object body.

use vstd::prelude::*;
use crate::input_file::InputFile;
use crate::json::{JsonValue, JsonView, spec_render, spec_render_entries, spec_render_entry, spec_escape, render_value};

verus! {

/// The value of one buffered field.
#[derive(Debug, PartialEq)]
pub enum FieldValue {
    /// A structured JSON value.
    Json(JsonValue),
    /// An inline file payload, uploaded as a named multipart part.
    Part { file_name: String, bytes: Vec<u8> },
}

/// One buffered field: a name and its value.
#[derive(Debug, PartialEq)]
pub struct Field {
    pub name: String,
    pub value: FieldValue,
}

/// The model of a field value.
pub enum FieldValueView {
    Json(JsonView),
    Part { file_name: Seq<char>, bytes: Seq<u8> },
}

/// The model of a field.
pub struct FieldView {
    pub name: Seq<char>,
    pub value: FieldValueView,
}

impl FieldValue {
    /// The model of this field value.
    pub open spec fn dv(self) -> FieldValueView {
        match self {
            FieldValue::Json(v) => FieldValueView::Json(v.dv()),
            FieldValue::Part { file_name, bytes } => FieldValueView::Part {
                file_name: file_name@,
                bytes: bytes@,
            },
        }
    }
}

impl Field {
    /// The model of this field.
    pub open spec fn dv(self) -> FieldView {
        FieldView { name: self.name@, value: self.value.dv() }
    }
}

/// Models of a sequence of fields.
pub open spec fn fields_dv(s: Seq<Field>) -> Seq<FieldView> {
    Seq::new(s.len(), |i: int| s[i].dv())
}

/// Whether any field carries an inline file part.
pub open spec fn spec_has_part(s: Seq<FieldView>) -> bool {
    exists|i: int| 0 <= i < s.len() && s[i].value is Part
}

/// Whether field names are pairwise distinct.
pub open spec fn spec_names_unique(s: Seq<FieldView>) -> bool {
    forall|i: int, j: int| 0 <= i < j < s.len() ==> s[i].name != s[j].name
}

/// Accumulates a request's fields in call order.
pub struct FormBuilder {
    pub fields: Vec<Field>,
}

/// A finalized parameter set with its transport-mode flag.
pub struct Form {
    pub fields: Vec<Field>,
    pub multipart: bool,
}

impl Form {
    /// The model of the parameter set.
    pub open spec fn dv(self) -> Seq<FieldView> {
        fields_dv(self.fields@)
    }

    /// The transport flag agrees with the fields: multipart exactly when
    /// an inline file is present.
    pub open spec fn wf(self) -> bool {
        self.multipart == spec_has_part(self.dv())
    }
}

impl FormBuilder {
    /// The models of the fields buffered so far.
    pub open spec fn dv(self) -> Seq<FieldView> {
        fields_dv(self.fields@)
    }

    /// Start with no fields.
    pub fn new() -> (r: Self)
        ensures
            r.dv() == Seq::<FieldView>::empty(),
    {
        let r = FormBuilder { fields: Vec::new() };
        proof {
            assert(r.dv() =~= Seq::<FieldView>::empty());
        }
        r
    }

    /// Append a field unconditionally.
    pub fn add(self, name: &str, value: JsonValue) -> (r: Self)
        ensures
            r.dv() == self.dv().push(FieldView { name: name@, value: FieldValueView::Json(value.dv()) }),
    {
        let ghost old_dv = self.dv();
        let ghost pushed = FieldView { name: name@, value: FieldValueView::Json(value.dv()) };
        let mut fields = self.fields;
        fields.push(Field { name: name.to_owned(), value: FieldValue::Json(value) });
        let r = FormBuilder { fields };
        proof {
            assert(r.dv() =~= old_dv.push(pushed));
        }
        r
    }

    /// Append a field only when the optional value is present; an unset
    /// optional field is omitted entirely.
    pub fn add_if_some(self, name: &str, value: Option<JsonValue>) -> (r: Self)
        ensures
            match value {
                Option::Some(v) => r.dv() == self.dv().push(
                    FieldView { name: name@, value: FieldValueView::Json(v.dv()) },
                ),
                Option::None => r.dv() == self.dv(),
            },
    {
        match value {
            Option::Some(v) => self.add(name, v),
            Option::None => self,
        }
    }

    /// Append a file reference.  Inline bytes become a part that forces
    /// multipart transport; a remote file identifier or URL is an
    /// ordinary string field.
    pub fn add_file(self, name: &str, file: InputFile) -> (r: Self)
        ensures
            r.dv() == self.dv().push(
                FieldView {
                    name: name@,
                    value: match file.dv() {
                        crate::input_file::InputFileView::Memory { file_name, data } =>
                            FieldValueView::Part { file_name: file_name, bytes: data },
                        crate::input_file::InputFileView::FileId(s) =>
                            FieldValueView::Json(JsonView::Str(s)),
                        crate::input_file::InputFileView::Url(s) =>
                            FieldValueView::Json(JsonView::Str(s)),
                    },
                },
            ),
    {
        match file {
            InputFile::Memory { file_name, data } => {
                let ghost old_dv = self.dv();
                let ghost pushed = FieldView {
                    name: name@,
                    value: FieldValueView::Part { file_name: file_name@, bytes: data@ },
                };
                let mut fields = self.fields;
                fields.push(Field {
                    name: name.to_owned(),
                    value: FieldValue::Part { file_name, bytes: data },
                });
                let r = FormBuilder { fields };
                proof {
                    assert(r.dv() =~= old_dv.push(pushed));
                }
                r
            },
            InputFile::FileId(s) => self.add(name, JsonValue::Str(s)),
            InputFile::Url(s) => self.add(name, JsonValue::Str(s)),
        }
    }

    /// Finalize: scan every buffered field for an inline file and select
    /// the transport mode for the whole request accordingly.
    pub fn build(self) -> (f: Form)
        ensures
            f.dv() == self.dv(),
            f.wf(),
    {
        let mut found = false;
        let mut i: usize = 0;
        let len = self.fields.len();
        while i < len
            invariant
                i <= len,
                len == self.fields@.len(),
                found == spec_has_part(self.dv().take(i as int)),
            decreases len - i,
        {
            let is_part = match &self.fields[i].value {
                FieldValue::Part { .. } => true,
                FieldValue::Json(_) => false,
            };
            proof {
                let dv = self.dv();
                if is_part {
                    assert(dv.take(i + 1)[i as int].value is Part);
                    assert(spec_has_part(dv.take(i + 1)));
                } else if found {
                    let k = choose|k: int| 0 <= k < i && #[trigger] dv.take(i as int)[k].value is Part;
                    assert(dv.take(i + 1)[k].value is Part);
                    assert(spec_has_part(dv.take(i + 1)));
                } else {
                    assert(forall|k: int| 0 <= k < i + 1 ==> !(#[trigger] dv.take(i + 1)[k].value is Part));
                }
            }
            found = found || is_part;
            i = i + 1;
        }
        proof {
            assert(self.dv().take(len as int) =~= self.dv());
        }
        Form { fields: self.fields, multipart: found }
    }
}

/// One part of a multipart body.
#[derive(Debug, PartialEq)]
pub struct Part {
    pub name: String,
    pub content: PartContent,
}

/// The content of one multipart part: UTF-8 text for ordinary fields, a
/// named byte payload for inline files.
#[derive(Debug, PartialEq)]
pub enum PartContent {
    Text(String),
    Bytes { file_name: String, data: Vec<u8> },
}

/// An encoded HTTP body.
#[derive(Debug, PartialEq)]
pub enum Body {
    /// A single JSON object in UTF-8 text.
    Json(String),
    /// One part per field.
    Multipart(Vec<Part>),
}

/// The text a non-file field carries as a multipart part: a string value
/// keeps its raw characters, any other value is pre-flattened to its JSON
/// text.
pub open spec fn spec_part_text(v: JsonView) -> Seq<char> {
    match v {
        JsonView::Str(s) => s,
        _ => spec_render(v),
    }
}

/// Whether one encoded part carries exactly one modeled field.
pub open spec fn spec_part_matches(p: Part, f: FieldView) -> bool {
    p.name@ == f.name && match (p.content, f.value) {
        (PartContent::Text(t), FieldValueView::Json(v)) => t@ == spec_part_text(v),
        (PartContent::Bytes { file_name, data }, FieldValueView::Part { file_name: fv, bytes }) =>
            file_name@ == fv && data@ == bytes,
        _ => false,
    }
}

/// The JSON value a field contributes to a plain JSON object body.
/// Meaningful only for fields that hold a JSON value; a part never
/// appears in a JSON body.
pub open spec fn spec_field_json(v: FieldValueView) -> JsonView {
    match v {
        FieldValueView::Json(j) => j,
        FieldValueView::Part { .. } => JsonView::Null,
    }
}

/// The members of the JSON object body of a parameter set.
pub open spec fn spec_json_object(fields: Seq<FieldView>) -> Seq<(Seq<char>, JsonView)> {
    Seq::new(fields.len(), |i: int| (fields[i].name, spec_field_json(fields[i].value)))
}

/// Whether an encoded body carries exactly a modeled parameter set: the
/// JSON object text of the fields when no inline file is present, one
/// matching part per field otherwise.
pub open spec fn spec_body_matches(b: Body, fields: Seq<FieldView>) -> bool {
    if spec_has_part(fields) {
        match b {
            Body::Multipart(parts) => parts@.len() == fields.len()
                && forall|i: int| 0 <= i < fields.len() ==> spec_part_matches(parts@[i], fields[i]),
            _ => false,
        }
    } else {
        match b {
            Body::Json(s) => s@ == spec_render(JsonView::Obj(spec_json_object(fields))),
            _ => false,
        }
    }
}

/// Encode a finalized parameter set into the HTTP body its transport
/// mode calls for.
pub fn encode_body(form: Form) -> (b: Body)
    requires
        form.wf(),
    ensures
        spec_body_matches(b, form.dv()),
{
    let ghost orig = form.dv();
    if form.multipart {
        let mut fields = form.fields;
        let mut parts: Vec<Part> = Vec::new();
        while fields.len() > 0
            invariant
                parts@.len() + fields@.len() == orig.len(),
                fields_dv(fields@) == orig.skip(parts@.len() as int),
                forall|k: int| 0 <= k < parts@.len() ==> spec_part_matches(parts@[k], orig[k]),
            decreases fields@.len(),
        {
            let ghost done = parts@.len() as int;
            let ghost before = fields@;
            let f = fields.remove(0);
            proof {
                assert(f.dv() == fields_dv(before)[0]);
                assert(f.dv() == orig[done]);
                assert(forall|k: int| 0 <= k < fields@.len() ==> #[trigger] fields@[k] == before[k + 1]);
                assert(forall|k: int| 0 <= k < fields@.len()
                    ==> #[trigger] fields_dv(fields@)[k] == fields_dv(before)[k + 1]);
                assert(forall|k: int| 0 <= k < fields@.len()
                    ==> fields_dv(before)[k + 1] == #[trigger] orig.skip(done)[k + 1]);
                assert(fields_dv(fields@) =~= orig.skip(done + 1));
            }
            match f.value {
                FieldValue::Json(v) => {
                    let text = match &v {
                        JsonValue::Str(s) => s.clone(),
                        _ => render_value(&v),
                    };
                    parts.push(Part { name: f.name, content: PartContent::Text(text) });
                },
                FieldValue::Part { file_name, bytes } => {
                    parts.push(Part {
                        name: f.name,
                        content: PartContent::Bytes { file_name, data: bytes },
                    });
                },
            }
        }
        Body::Multipart(parts)
    } else {
        proof {
            reveal_strlit("{");
            reveal_strlit("}");
        }
        let ghost entries = spec_json_object(orig);
        let mut out = String::from_str("{");
        let mut i: usize = 0;
        let len = form.fields.len();
        while i < len
            invariant
                i <= len,
                len == form.fields@.len(),
                orig == form.dv(),
                entries == spec_json_object(orig),
                !spec_has_part(orig),
                out@ == seq!['{'] + spec_render_entries(entries.take(i as int)),
            decreases len - i,
        {
            if i > 0 {
                proof { reveal_strlit(","); }
                out.append(",");
            }
            let key = crate::json::escape_str(form.fields[i].name.as_str());
            proof { reveal_strlit("\""); }
            out.append("\"");
            out.append(key.as_str());
            proof { reveal_strlit("\":"); }
            out.append("\":");
            match &form.fields[i].value {
                FieldValue::Json(v) => {
                    let piece = render_value(v);
                    out.append(piece.as_str());
                },
                FieldValue::Part { .. } => {
                    proof {
                        assert(orig[i as int].value is Part);
                        assert(false);
                    }
                },
            }
            proof {
                assert(entries.take(i + 1).drop_last() =~= entries.take(i as int));
                assert(entries.take(i + 1).last() == entries[i as int]);
                assert(spec_render_entry(entries[i as int]) == seq!['"']
                    + spec_escape(orig[i as int].name) + seq!['"', ':']
                    + spec_render(spec_field_json(orig[i as int].value)));
                assert(out@ =~= seq!['{'] + spec_render_entries(entries.take(i + 1)));
            }
            i = i + 1;
        }
        out.append("}");
        proof {
            assert(entries.take(len as int) =~= entries);
            assert(out@ =~= spec_render(JsonView::Obj(entries)));
        }
        Body::Json(out)
    }
}

} // verus!
