//! Image attachments: the accepted formats, their MIME types, and the
//! inline data URL that carries an image inside a request.
use vstd::prelude::*;
use vstd::string::*;
use base64::Engine;
use crate::error::LlmError;
use crate::text::{lower_of, lowercase, same_text};

verus! {

/// The base64 text (standard alphabet, with padding) of some bytes.
pub uninterp spec fn base64_of(b: Seq<u8>) -> Seq<char>;

/// The extension of a path's file name, as `Path::extension` finds it.
pub uninterp spec fn path_extension(p: Seq<char>) -> Option<Seq<char>>;

/// The MIME type of a lower-case image extension, if the format is accepted.
pub open spec fn mime_of(ext: Seq<char>) -> Option<Seq<char>> {
    if ext == "png"@ {
        Some("image/png"@)
    } else if ext == "jpg"@ || ext == "jpeg"@ {
        Some("image/jpeg"@)
    } else if ext == "gif"@ {
        Some("image/gif"@)
    } else if ext == "webp"@ {
        Some("image/webp"@)
    } else {
        None
    }
}

/// The inline data URL of an image.
pub open spec fn data_url(mime: Seq<char>, payload: Seq<char>) -> Seq<char> {
    "data:"@ + mime + ";base64,"@ + payload
}

/// The file format that an object key announces: its extension in lower
/// case, or `unknown` where it has none.
pub open spec fn image_format_of(path: Seq<char>) -> Seq<char> {
    match path_extension(path) {
        Some(e) => lower_of(e),
        None => "unknown"@,
    }
}

/// Relies on base64's `STANDARD` engine: `encode` gives the padded base64
/// text of the bytes.
#[verifier::external_body]
fn encode_base64(data: &[u8]) -> (r: String)
    ensures
        r@ == base64_of(data@),
{
    base64::engine::general_purpose::STANDARD.encode(data)
}

/// Relies on `Path::extension` (and `OsStr::to_str`): the part of the file
/// name after its last dot, where there is one that does not start the name.
#[verifier::external_body]
fn extension_of(path: &str) -> (r: Option<String>)
    ensures
        match r {
            Some(e) => path_extension(path@) == Some(e@),
            None => path_extension(path@) is None,
        },
{
    std::path::Path::new(path).extension().and_then(|e| e.to_str()).map(|e| e.to_string())
}

/// The lower-case extension of an object key, or `unknown` where it has none.
pub fn extract_image_extension(file_path: &str) -> (r: String)
    ensures
        r@ == image_format_of(file_path@),
{
    match extension_of(file_path) {
        Some(e) => lowercase(e.as_str()),
        None => {
            proof {
                reveal_strlit("unknown");
            }
            String::from_str("unknown")
        },
    }
}

/// The MIME type of an already lower-cased extension, if it is accepted.
pub fn mime_type_of(ext: &str) -> (r: Option<String>)
    ensures
        match mime_of(ext@) {
            Some(m) => r is Some && r.unwrap()@ == m,
            None => r is None,
        },
{
    proof {
        reveal_strlit("png");
        reveal_strlit("jpg");
        reveal_strlit("jpeg");
        reveal_strlit("gif");
        reveal_strlit("webp");
        reveal_strlit("image/png");
        reveal_strlit("image/jpeg");
        reveal_strlit("image/gif");
        reveal_strlit("image/webp");
    }
    if same_text(ext, "png") {
        Some(String::from_str("image/png"))
    } else if same_text(ext, "jpg") || same_text(ext, "jpeg") {
        Some(String::from_str("image/jpeg"))
    } else if same_text(ext, "gif") {
        Some(String::from_str("image/gif"))
    } else if same_text(ext, "webp") {
        Some(String::from_str("image/webp"))
    } else {
        None
    }
}

/// The MIME type of a file format, compared case-insensitively; an
/// unsupported format is a configuration error.
pub fn mime_type_for(file_format: &str) -> (r: Result<String, LlmError>)
    ensures
        match mime_of(lower_of(file_format@)) {
            Some(m) => r is Ok && r->Ok_0@ == m,
            None => r is Err && r->Err_0 is UnsupportedFormat
                && r->Err_0->UnsupportedFormat_0@ == file_format@,
        },
{
    let lower = lowercase(file_format);
    match mime_type_of(lower.as_str()) {
        Some(m) => Ok(m),
        None => Err(LlmError::UnsupportedFormat(String::from_str(file_format))),
    }
}

/// The base64 payload of some image bytes.
pub fn image_payload(image_data: &[u8]) -> (r: String)
    ensures
        r@ == base64_of(image_data@),
{
    encode_base64(image_data)
}

/// Builds the data URL of an attachment from its MIME type and payload.
pub fn make_data_url(mime: &str, payload: &str) -> (r: String)
    ensures
        r@ == data_url(mime@, payload@),
{
    let mut r = String::from_str("data:");
    r.append(mime);
    r.append(";base64,");
    r.append(payload);
    proof {
        reveal_strlit("data:");
        reveal_strlit(";base64,");
    }
    r
}

} // verus!
