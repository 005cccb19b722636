//! Direct uploads into object storage: the request parameters, the key
//! under which an upload is stored, and the reply sent to the web client.
use vstd::prelude::*;
use vstd::string::*;
use crate::text::{json_quoted, quote_json};

verus! {

/// How long an upload URL stays valid, in seconds.
pub const UPLOAD_EXPIRY_SECONDS: u64 = 3600;

/// What an upload URL is issued for.
#[derive(Clone, Debug)]
pub struct Params {
    pub bucket_name: String,
    pub filename: String,
    pub description: String,
    pub content_type: String,
    pub expires_in: u64,
}

/// An issued upload URL and the key the object will be stored under.
#[derive(Clone, Debug)]
pub struct UploadResponse {
    pub upload_url: String,
    pub file_key: String,
}

/// The text after the last dot of a file name, or the whole name where it
/// has no dot.
pub open spec fn after_last_dot(s: Seq<char>) -> Seq<char>
    decreases s.len(),
{
    if s.len() == 0 {
        s
    } else if s.last() == '.' {
        Seq::empty()
    } else {
        after_last_dot(s.drop_last()).push(s.last())
    }
}

/// The key of an upload: under `uploads/`, named by an identifier, with the
/// file name's extension.
pub open spec fn upload_key_of(id: Seq<char>, filename: Seq<char>) -> Seq<char> {
    "uploads/"@ + id + "."@ + after_last_dot(filename)
}

/// The JSON reply that hands an issued upload URL to the web client.
pub open spec fn upload_reply(event_id: Seq<char>, r: UploadResponse, bucket_name: Seq<char>) -> Seq<char> {
    "{\"event_id\":"@ + json_quoted(event_id) + ",\"upload_url\":"@ + json_quoted(r.upload_url@)
        + ",\"file_key\":"@ + json_quoted(r.file_key@) + ",\"bucket_name\":"@ + json_quoted(
        bucket_name,
    ) + "}"@
}

/// Relies on uuid's `Uuid::new_v4` and its `Display`, which writes the
/// hyphenated form of 36 characters.
#[verifier::external_body]
fn random_id() -> (r: String)
    ensures
        r@.len() == 36,
{
    uuid::Uuid::new_v4().to_string()
}

/// The extension an upload key takes from a file name.
pub fn upload_extension(filename: &str) -> (r: String)
    ensures
        r@ == after_last_dot(filename@),
{
    let n = filename.unicode_len();
    let mut start: usize = 0;
    let mut i: usize = 0;
    while i < n
        invariant
            n == filename@.len(),
            start <= i <= n,
            after_last_dot(filename@.take(i as int)) == filename@.subrange(start as int, i as int),
        decreases n - i,
    {
        let ghost t = filename@.take(i + 1);
        assert(t.drop_last() =~= filename@.take(i as int));
        if filename.get_char(i) == '.' {
            start = i + 1;
            assert(after_last_dot(t) =~= filename@.subrange(start as int, i + 1));
        } else {
            assert(after_last_dot(t) =~= filename@.subrange(start as int, i + 1));
        }
        i = i + 1;
    }
    assert(filename@.take(n as int) =~= filename@);
    String::from_str(filename.substring_char(start, n))
}

/// The key of an upload named by `id`.
pub fn upload_key(id: &str, filename: &str) -> (r: String)
    ensures
        r@ == upload_key_of(id@, filename@),
{
    let mut r = String::from_str("uploads/");
    r.append(id);
    r.append(".");
    let ext = upload_extension(filename);
    r.append(ext.as_str());
    assert(r@ =~= upload_key_of(id@, filename@));
    r
}

/// A fresh upload key, named by a random identifier of 36 characters.
pub fn new_upload_key(filename: &str) -> (r: String)
    ensures
        exists|id: Seq<char>| id.len() == 36 && r@ == upload_key_of(id, filename@),
{
    let id = random_id();
    upload_key(id.as_str(), filename)
}

/// The parameters of an upload request; a missing description becomes
/// `Null`, a missing content type `application/octet-stream`, and the URL
/// is valid for an hour.
pub fn upload_params(
    bucket_name: &str,
    filename: &str,
    description: Option<&str>,
    content_type: Option<&str>,
) -> (r: Params)
    ensures
        r.bucket_name@ == bucket_name@,
        r.filename@ == filename@,
        r.description@ == match description {
            Some(d) => d@,
            None => "Null"@,
        },
        r.content_type@ == match content_type {
            Some(c) => c@,
            None => "application/octet-stream"@,
        },
        r.expires_in == UPLOAD_EXPIRY_SECONDS,
{
    Params {
        bucket_name: String::from_str(bucket_name),
        filename: String::from_str(filename),
        description: match description {
            Some(d) => String::from_str(d),
            None => String::from_str("Null"),
        },
        content_type: match content_type {
            Some(c) => String::from_str(c),
            None => String::from_str("application/octet-stream"),
        },
        expires_in: UPLOAD_EXPIRY_SECONDS,
    }
}

/// The JSON reply for an issued upload URL.
pub fn upload_reply_body(event_id: &str, response: &UploadResponse, bucket_name: &str) -> (r: String)
    ensures
        r@ == upload_reply(event_id@, *response, bucket_name@),
{
    let mut r = String::from_str("{\"event_id\":");
    let q = quote_json(event_id);
    r.append(q.as_str());
    r.append(",\"upload_url\":");
    let q = quote_json(response.upload_url.as_str());
    r.append(q.as_str());
    r.append(",\"file_key\":");
    let q = quote_json(response.file_key.as_str());
    r.append(q.as_str());
    r.append(",\"bucket_name\":");
    let q = quote_json(bucket_name);
    r.append(q.as_str());
    r.append("}");
    assert(r@ =~= upload_reply(event_id@, *response, bucket_name@));
    r
}

} // verus!
