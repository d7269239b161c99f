//! From the bytes of a response body and its content type to a payload.

use vstd::prelude::*;
use vstd::string::*;
use crate::response::{BytePayload, Payload, TextPayload};
use crate::text::part_is;

verus! {

/// The parts of a media type that the payload depends on.
pub struct MediaType {
    pub kind: String,
    pub subtype: String,
    pub charset: Option<String>,
}

/// The parts of a media type as plain values.
pub struct MediaTypeModel {
    pub kind: Seq<char>,
    pub subtype: Seq<char>,
    pub charset: Option<Seq<char>>,
}

impl View for MediaType {
    type V = MediaTypeModel;

    open spec fn view(&self) -> MediaTypeModel {
        MediaTypeModel {
            kind: self.kind@,
            subtype: self.subtype@,
            charset: match self.charset {
                Some(name) => Some(name@),
                None => None,
            },
        }
    }
}

/// What the `mime` crate reads from the value of a content type header: type,
/// subtype and the `charset` parameter, or nothing where the value is no media type.
pub uninterp spec fn media_type_of(value: Seq<char>) -> Option<MediaTypeModel>;

/// Whether `encoding_rs` knows an encoding by this label.
pub uninterp spec fn is_encoding_label(label: Seq<char>) -> bool;

/// What `encoding_rs` decodes the bytes to with the encoding of this label, and the
/// name of the encoding that it used.
pub uninterp spec fn decoded_as(bytes: Seq<u8>, label: Seq<char>) -> (Seq<char>, Seq<char>);

/// What `encoding_rs` decodes the bytes to as UTF-8, and the name of the encoding
/// that it used.
pub uninterp spec fn decoded_as_utf8(bytes: Seq<u8>) -> (Seq<char>, Seq<char>);

/// `str::parse::<mime::Mime>`, then `Mime::type_`, `Mime::subtype` and
/// `Mime::get_param("charset")` on the result: the parts of the media type, which
/// depend on the text alone.
#[verifier::external_body]
pub(crate) fn media_type(value: &str) -> (parts: Option<MediaType>)
    ensures
        parts is Some == media_type_of(value@) is Some,
        parts is Some ==> parts->Some_0@ == media_type_of(value@)->Some_0,
{
    match value.parse::<mime::Mime>() {
        Ok(m) => Some(
            MediaType {
                kind: m.type_().as_str().to_string(),
                subtype: m.subtype().as_str().to_string(),
                charset: m.get_param("charset").map(|name| name.as_str().to_string()),
            },
        ),
        Err(_) => None,
    }
}

/// `encoding_rs::Encoding::for_label`: whether the label names an encoding.
#[verifier::external_body]
pub(crate) fn known_label(label: &str) -> (known: bool)
    ensures
        known == is_encoding_label(label@),
{
    encoding_rs::Encoding::for_label(label.as_bytes()).is_some()
}

/// `encoding_rs::Encoding::decode` with the encoding that `Encoding::for_label`
/// gives for a label that it knows: the text, and `Encoding::name` of the encoding
/// used. The bytes are few enough for the size of the output to fit the machine.
#[verifier::external_body]
pub(crate) fn decode_as(bytes: &Vec<u8>, label: &str) -> (out: (String, String))
    requires
        is_encoding_label(label@),
        bytes@.len() <= usize::MAX / 8,
    ensures
        (out.0@, out.1@) == decoded_as(bytes@, label@),
{
    let encoding = encoding_rs::Encoding::for_label(label.as_bytes()).unwrap();
    let (text, used, _) = encoding.decode(bytes);
    (text.into_owned(), used.name().to_string())
}

/// `encoding_rs::Encoding::decode` of `encoding_rs::UTF_8`: the text, and
/// `Encoding::name` of the encoding used. The bytes are few enough for the size of
/// the output to fit the machine.
#[verifier::external_body]
pub(crate) fn decode_as_utf8(bytes: &Vec<u8>) -> (out: (String, String))
    requires
        bytes@.len() <= usize::MAX / 8,
    ensures
        (out.0@, out.1@) == decoded_as_utf8(bytes@),
{
    let (text, used, _) = encoding_rs::UTF_8.decode(bytes);
    (text.into_owned(), used.name().to_string())
}

/// The text and the encoding's name for bytes under a label: those of the label's
/// encoding where the label is known, those of UTF-8 where it is not.
pub open spec fn spec_decode(bytes: Seq<u8>, label: Seq<char>) -> (Seq<char>, Seq<char>) {
    if is_encoding_label(label) {
        decoded_as(bytes, label)
    } else {
        decoded_as_utf8(bytes)
    }
}

/// Decodes `bytes` with the encoding that `encoding_name` names, or as UTF-8 where
/// it names none, and returns the text with the name of the encoding used.
pub fn decode_with_encoding(bytes: &Vec<u8>, encoding_name: &str) -> (out: (String, String))
    requires
        bytes@.len() <= usize::MAX / 8,
    ensures
        (out.0@, out.1@) == spec_decode(bytes@, encoding_name@),
{
    if known_label(encoding_name) {
        decode_as(bytes, encoding_name)
    } else {
        decode_as_utf8(bytes)
    }
}

/// The file extension for a subtype of a media type, for the subtypes that have one
/// here.
pub open spec fn spec_extension(subtype: Seq<char>) -> Option<Seq<char>> {
    if subtype == "pdf"@ {
        Some("pdf"@)
    } else if subtype == "html"@ {
        Some("html"@)
    } else if subtype == "bmp"@ {
        Some("bmp"@)
    } else if subtype == "css"@ {
        Some("css"@)
    } else if subtype == "csv"@ {
        Some("csv"@)
    } else if subtype == "gif"@ {
        Some("gif"@)
    } else if subtype == "javascript"@ {
        Some("js"@)
    } else if subtype == "jpeg"@ {
        Some("jpg"@)
    } else if subtype == "json"@ {
        Some("json"@)
    } else if subtype == "mp4"@ {
        Some("mp4"@)
    } else if subtype == "mpeg"@ {
        Some("mpeg"@)
    } else if subtype == "png"@ {
        Some("png"@)
    } else if subtype == "svg"@ {
        Some("svg"@)
    } else if subtype == "xml"@ {
        Some("xml"@)
    } else {
        None
    }
}

fn is_word(text: &str, word: &str) -> (same: bool)
    ensures
        same == (text@ == word@),
{
    assert(text@.subrange(0, text@.len() as int) =~= text@);
    part_is(text, 0, text.unicode_len(), word)
}

/// The file extension for a subtype of a media type.
pub fn parse_extension(subtype: &str) -> (extension: Option<String>)
    ensures
        extension is Some == spec_extension(subtype@) is Some,
        extension is Some ==> extension->Some_0@ == spec_extension(subtype@)->Some_0,
{
    let found = if is_word(subtype, "pdf") {
        Some("pdf")
    } else if is_word(subtype, "html") {
        Some("html")
    } else if is_word(subtype, "bmp") {
        Some("bmp")
    } else if is_word(subtype, "css") {
        Some("css")
    } else if is_word(subtype, "csv") {
        Some("csv")
    } else if is_word(subtype, "gif") {
        Some("gif")
    } else if is_word(subtype, "javascript") {
        Some("js")
    } else if is_word(subtype, "jpeg") {
        Some("jpg")
    } else if is_word(subtype, "json") {
        Some("json")
    } else if is_word(subtype, "mp4") {
        Some("mp4")
    } else if is_word(subtype, "mpeg") {
        Some("mpeg")
    } else if is_word(subtype, "png") {
        Some("png")
    } else if is_word(subtype, "svg") {
        Some("svg")
    } else if is_word(subtype, "xml") {
        Some("xml")
    } else {
        None
    };
    match found {
        Some(text) => Some(String::from_str(text)),
        None => None,
    }
}

/// A payload as plain values.
pub enum PayloadModel {
    Bytes { extension: Option<Seq<char>>, bytes: Seq<u8> },
    Text { extension: Option<Seq<char>>, charset: Seq<char>, text: Seq<char> },
}

/// The view of an optional string.
pub open spec fn option_view(text: Option<String>) -> Option<Seq<char>> {
    match text {
        Some(t) => Some(t@),
        None => None,
    }
}

impl View for Payload {
    type V = PayloadModel;

    open spec fn view(&self) -> PayloadModel {
        match self {
            Payload::Bytes(b) => PayloadModel::Bytes {
                extension: option_view(b.extension),
                bytes: b.bytes@,
            },
            Payload::Text(t) => PayloadModel::Text {
                extension: option_view(t.extension),
                charset: t.charset@,
                text: t.text@,
            },
        }
    }
}

/// The label under which a text is decoded: its `charset` parameter, or `utf-8`.
pub open spec fn charset_label(media: MediaTypeModel) -> Seq<char> {
    match media.charset {
        Some(name) => name,
        None => "utf-8"@,
    }
}

/// The payload for a media type and the bytes of the body. A media type of type
/// `text` gives a text, decoded under its charset; any other gives the bytes as they
/// are; both carry the extension of the subtype. Without a media type the bytes come
/// with no extension.
pub open spec fn spec_payload(media: Option<MediaTypeModel>, bytes: Seq<u8>) -> PayloadModel {
    match media {
        Some(m) => if m.kind == "text"@ {
            PayloadModel::Text {
                extension: spec_extension(m.subtype),
                charset: spec_decode(bytes, charset_label(m)).1,
                text: spec_decode(bytes, charset_label(m)).0,
            }
        } else {
            PayloadModel::Bytes { extension: spec_extension(m.subtype), bytes }
        },
        None => PayloadModel::Bytes { extension: None, bytes },
    }
}

impl Payload {
    /// The payload for an already parsed media type and the bytes of the body.
    pub fn of_media_type(media: Option<MediaType>, bytes: Vec<u8>) -> (payload: Payload)
        requires
            bytes@.len() <= usize::MAX / 8,
        ensures
            payload@ == spec_payload(option_media(media), bytes@),
    {
        match media {
            Some(m) => {
                let extension = parse_extension(m.subtype.as_str());
                if is_word(m.kind.as_str(), "text") {
                    let (text, charset) = match &m.charset {
                        Some(name) => decode_with_encoding(&bytes, name.as_str()),
                        None => decode_with_encoding(&bytes, "utf-8"),
                    };
                    Payload::Text(TextPayload { extension, charset, text })
                } else {
                    Payload::Bytes(BytePayload { extension, bytes })
                }
            },
            None => Payload::Bytes(BytePayload { extension: None, bytes }),
        }
    }

    /// The payload of a response from the value of its content type header, where
    /// it has one that is text, and the bytes of its body.
    pub fn of_response(content_type: Option<&str>, bytes: Vec<u8>) -> (payload: Payload)
        requires
            bytes@.len() <= usize::MAX / 8,
        ensures
            payload@ == spec_payload(
                match content_type {
                    Some(value) => media_type_of(value@),
                    None => None,
                },
                bytes@,
            ),
    {
        let media = match content_type {
            Some(value) => media_type(value),
            None => None,
        };
        Payload::of_media_type(media, bytes)
    }
}

/// The view of an optional media type.
pub open spec fn option_media(media: Option<MediaType>) -> Option<MediaTypeModel> {
    match media {
        Some(m) => Some(m@),
        None => None,
    }
}

} // verus!
