//! File references and media items.
//!
//! A file reference is a tagged union of inline bytes with a filename, a
//! remote file identifier, and a URL.  Only the inline-bytes variant
//! forces a request onto multipart transport; the other two variants
//! encode as plain strings.

use vstd::prelude::*;
use crate::json::{JsonValue, JsonView};

verus! {

/// A file to attach to a request.
#[derive(Debug, Clone, PartialEq)]
pub enum InputFile {
    /// Raw bytes supplied by the caller, uploaded as a named multipart
    /// part.
    Memory { file_name: String, data: Vec<u8> },
    /// Identifier of a file already stored remotely.
    FileId(String),
    /// URL the remote service fetches the file from.
    Url(String),
}

/// The model of a file reference.
pub enum InputFileView {
    Memory { file_name: Seq<char>, data: Seq<u8> },
    FileId(Seq<char>),
    Url(Seq<char>),
}

impl InputFile {
    /// The model of this file reference.
    pub open spec fn dv(self) -> InputFileView {
        match self {
            InputFile::Memory { file_name, data } => InputFileView::Memory {
                file_name: file_name@,
                data: data@,
            },
            InputFile::FileId(s) => InputFileView::FileId(s@),
            InputFile::Url(s) => InputFileView::Url(s@),
        }
    }

    /// Whether this reference carries inline bytes, the one variant that
    /// forces multipart transport.
    pub open spec fn spec_is_inline(self) -> bool {
        self is Memory
    }

    /// Whether this reference carries inline bytes.
    pub fn is_inline(&self) -> (r: bool)
        ensures
            r == self.spec_is_inline(),
    {
        match self {
            InputFile::Memory { .. } => true,
            _ => false,
        }
    }
}

/// The string a file reference encodes as inside a field value: inline
/// bytes are referenced by their part name through the `attach://` scheme,
/// the other variants pass their string through unchanged.
pub open spec fn spec_file_ref_text(f: InputFileView) -> Seq<char> {
    match f {
        InputFileView::Memory { file_name, .. } => "attach://"@ + file_name,
        InputFileView::FileId(s) => s,
        InputFileView::Url(s) => s,
    }
}

impl InputFile {
    /// The wire string of this reference.
    pub fn ref_text(&self) -> (out: String)
        ensures
            out@ == spec_file_ref_text(self.dv()),
    {
        match self {
            InputFile::Memory { file_name, .. } => {
                let mut out = String::from_str("attach://");
                out.append(file_name.as_str());
                out
            },
            InputFile::FileId(s) => s.clone(),
            InputFile::Url(s) => s.clone(),
        }
    }
}

/// One item of a media group: a photo or a video with its file reference
/// and an optional caption.
#[derive(Debug, Clone, PartialEq)]
pub enum InputMedia {
    Photo { media: InputFile, caption: Option<String> },
    Video { media: InputFile, caption: Option<String> },
}

/// The model of a media item.
pub enum InputMediaView {
    Photo { media: InputFileView, caption: Option<Seq<char>> },
    Video { media: InputFileView, caption: Option<Seq<char>> },
}

impl InputMedia {
    /// The model of this media item.
    pub open spec fn dv(self) -> InputMediaView {
        match self {
            InputMedia::Photo { media, caption } => InputMediaView::Photo {
                media: media.dv(),
                caption: match caption {
                    Option::Some(c) => Option::Some(c@),
                    Option::None => Option::None,
                },
            },
            InputMedia::Video { media, caption } => InputMediaView::Video {
                media: media.dv(),
                caption: match caption {
                    Option::Some(c) => Option::Some(c@),
                    Option::None => Option::None,
                },
            },
        }
    }

    /// The file reference this item carries.
    pub open spec fn spec_file(self) -> InputFile {
        match self {
            InputMedia::Photo { media, .. } => media,
            InputMedia::Video { media, .. } => media,
        }
    }

    /// Take the file reference out of this item.
    pub fn into_file(self) -> (f: InputFile)
        ensures
            f == self.spec_file(),
    {
        match self {
            InputMedia::Photo { media, .. } => media,
            InputMedia::Video { media, .. } => media,
        }
    }

    /// Whether this item carries an inline file.
    pub fn has_inline_file(&self) -> (r: bool)
        ensures
            r == self.spec_file().spec_is_inline(),
    {
        match self {
            InputMedia::Photo { media, .. } => media.is_inline(),
            InputMedia::Video { media, .. } => media.is_inline(),
        }
    }
}

/// The model of a media item's file reference.
pub open spec fn spec_media_file(m: InputMediaView) -> InputFileView {
    match m {
        InputMediaView::Photo { media, .. } => media,
        InputMediaView::Video { media, .. } => media,
    }
}

/// The caption of a modeled media item, if any.
pub open spec fn spec_media_caption(m: InputMediaView) -> Option<Seq<char>> {
    match m {
        InputMediaView::Photo { caption, .. } => caption,
        InputMediaView::Video { caption, .. } => caption,
    }
}

/// The `type` tag of a modeled media item.
pub open spec fn spec_media_kind(m: InputMediaView) -> Seq<char> {
    match m {
        InputMediaView::Photo { .. } => "photo"@,
        InputMediaView::Video { .. } => "video"@,
    }
}

/// Wire form of a media item: an object with its `type` tag, the wire
/// string of its file reference, and the caption when one is set.
pub open spec fn spec_media_json(m: InputMediaView) -> JsonView {
    JsonView::Obj(
        seq![
            ("type"@, JsonView::Str(spec_media_kind(m))),
            ("media"@, JsonView::Str(spec_file_ref_text(spec_media_file(m)))),
        ] + match spec_media_caption(m) {
            Option::Some(c) => seq![("caption"@, JsonView::Str(c))],
            Option::None => Seq::empty(),
        },
    )
}

impl InputMedia {
    /// Encode this item into its JSON wire form.  The inline bytes
    /// themselves are not part of it: they travel as a separate multipart
    /// part under the name the `attach://` reference points at.
    pub fn encode_json(&self) -> (v: JsonValue)
        ensures
            v.dv() == spec_media_json(self.dv()),
    {
        let kind: &'static str = match self {
            InputMedia::Photo { .. } => "photo",
            InputMedia::Video { .. } => "video",
        };
        let media_text = match self {
            InputMedia::Photo { media, .. } => media.ref_text(),
            InputMedia::Video { media, .. } => media.ref_text(),
        };
        let caption: Option<&String> = match self {
            InputMedia::Photo { caption, .. } => caption.as_ref(),
            InputMedia::Video { caption, .. } => caption.as_ref(),
        };
        let mut fields: Vec<(String, JsonValue)> = Vec::new();
        fields.push((String::from_str("type"), JsonValue::Str(String::from_str(kind))));
        fields.push((String::from_str("media"), JsonValue::Str(media_text)));
        match caption {
            Option::Some(c) => {
                fields.push((String::from_str("caption"), JsonValue::Str(c.clone())));
            },
            Option::None => {},
        }
        let out = JsonValue::Obj(fields);
        proof {
            crate::json::lemma_dv_entries(out->Obj_0@);
            assert(out.dv()->Obj_0 =~= spec_media_json(self.dv())->Obj_0);
        }
        out
    }
}

} // verus!
