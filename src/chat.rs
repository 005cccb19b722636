//! The Completions-style request builder: one user message made of a text
//! part and, optionally, an image carried inline as a data URL.
use vstd::prelude::*;
use vstd::string::*;
use crate::content::{base64_of, data_url, image_payload, make_data_url, mime_of, mime_type_for};
use crate::error::LlmError;
use crate::request::{
    optional_fields, push_optional_fields, temperature_note, temperature_ok,
    temperature_rejected_note, tool_texts, SamplingOptions, ToolChoice,
};
use crate::text::{json_quoted, lower_of, quote_json};
use crate::transport::{
    has_api_key, key_available, resolve_api_key, resolved_key, Call, DEFAULT_MAX_ATTEMPTS,
    DEFAULT_TIMEOUT_SEC,
};

verus! {

/// An image attached to the message: its base64 payload and MIME type.
#[derive(Clone, Debug)]
pub struct ImageAttachment {
    pub payload: String,
    pub mime_type: String,
}

/// What a Completions-style body is made of, but for the prompt.
#[derive(Clone, Debug)]
pub struct ChatRequest {
    pub model: String,
    pub image: Option<ImageAttachment>,
    pub options: SamplingOptions,
}

/// A builder for one Completions-style call, with its key and retry policy.
#[derive(Clone, Debug)]
pub struct ChatOpenAI {
    pub api_key: String,
    pub request: ChatRequest,
    pub timeout_sec: u64,
    pub max_retries: u32,
    /// Messages about settings that were refused.
    pub diagnostics: Vec<String>,
}

/// The MIME type and payload of an attachment, if any.
pub open spec fn attachment_view(image: Option<ImageAttachment>) -> Option<(Seq<char>, Seq<char>)> {
    match image {
        Some(a) => Some((a.mime_type@, a.payload@)),
        None => None,
    }
}

/// The attachment that image bytes of a file format give: the format's MIME
/// type (compared case-insensitively) and the bytes' base64 text, where the
/// format is accepted.
pub open spec fn attachment_of(data: Seq<u8>, file_format: Seq<char>) -> Option<(Seq<char>, Seq<char>)> {
    match mime_of(lower_of(file_format)) {
        Some(m) => Some((m, base64_of(data))),
        None => None,
    }
}

/// The image part of a message that carries this attachment.
pub open spec fn image_part_of(a: Option<(Seq<char>, Seq<char>)>) -> Seq<char> {
    match a {
        Some((m, p)) => ",{\"type\":\"image_url\",\"image_url\":{\"url\":"@ + json_quoted(data_url(m, p))
            + "}}"@,
        None => Seq::empty(),
    }
}

pub open spec fn text_part(prompt: Seq<char>) -> Seq<char> {
    "{\"type\":\"text\",\"text\":"@ + json_quoted(prompt) + "}"@
}

pub open spec fn image_part(image: Option<ImageAttachment>) -> Seq<char> {
    image_part_of(attachment_view(image))
}

/// The JSON body of a Completions-style request for a prompt.
pub open spec fn chat_body(r: ChatRequest, prompt: Seq<char>) -> Seq<char> {
    "{\"model\":"@ + json_quoted(r.model@) + ",\"messages\":[{\"role\":\"user\",\"content\":["@
        + text_part(prompt) + image_part(r.image) + "]}]"@ + optional_fields(
        ",\"max_tokens\":"@,
        r.options,
    ) + "}"@
}

/// The endpoint of Completions-style calls.
pub open spec fn completions_url() -> Seq<char> {
    "https://api.openai.com/v1/chat/completions"@
}

impl ChatOpenAI {
    /// A builder with no image, no options, the default retry policy, and
    /// the given key (a placeholder where it is absent or empty).
    pub fn new(model: &str, api_key: Option<&str>) -> (r: Self)
        ensures
            r.api_key@ == resolved_key(
                match api_key {
                    Some(k) => Some(k@),
                    None => None,
                },
            ),
            r.request.model@ == model@,
            r.request.image is None,
            r.request.options.is_unset(),
            r.timeout_sec == DEFAULT_TIMEOUT_SEC,
            r.max_retries == DEFAULT_MAX_ATTEMPTS,
            r.diagnostics@.len() == 0,
    {
        ChatOpenAI {
            api_key: resolve_api_key(api_key),
            request: ChatRequest {
                model: String::from_str(model),
                image: None,
                options: SamplingOptions::new(),
            },
            timeout_sec: DEFAULT_TIMEOUT_SEC,
            max_retries: DEFAULT_MAX_ATTEMPTS,
            diagnostics: Vec::new(),
        }
    }

    /// Attaches an image given as base64 text and its MIME type.
    pub fn with_image_data(self, image_base64: String, mime_type: &str) -> (r: Self)
        ensures
            r.request.image is Some,
            r.request.image->Some_0.payload == image_base64,
            r.request.image->Some_0.mime_type@ == mime_type@,
            r.request.model == self.request.model,
            r.request.options == self.request.options,
            r.api_key == self.api_key,
            r.timeout_sec == self.timeout_sec,
            r.max_retries == self.max_retries,
            r.diagnostics == self.diagnostics,
    {
        let mut s = self;
        s.request.image = Some(
            ImageAttachment { payload: image_base64, mime_type: String::from_str(mime_type) },
        );
        s
    }

    /// Attaches image bytes whose file format (compared case-insensitively)
    /// is png, jpg, jpeg, gif or webp; any other format is a configuration
    /// error.
    pub fn attach_image(self, image_data: &[u8], file_format: &str) -> (r: Result<Self, LlmError>)
        ensures
            attachment_of(image_data@, file_format@) is None ==> r is Err
                && r->Err_0 is UnsupportedFormat && r->Err_0->UnsupportedFormat_0@ == file_format@,
            attachment_of(image_data@, file_format@) is Some ==> r is Ok
                && attachment_view(r->Ok_0.request.image) == attachment_of(image_data@, file_format@)
                && r->Ok_0.request.model == self.request.model
                && r->Ok_0.request.options == self.request.options
                && r->Ok_0.api_key == self.api_key && r->Ok_0.timeout_sec == self.timeout_sec
                && r->Ok_0.max_retries == self.max_retries && r->Ok_0.diagnostics == self.diagnostics,
    {
        match mime_type_for(file_format) {
            Ok(mime) => {
                let payload = image_payload(image_data);
                Ok(self.with_image_data(payload, mime.as_str()))
            },
            Err(e) => Err(e),
        }
    }

    /// Sets the temperature, in thousandths, if it lies in [0.0, 2.0];
    /// otherwise keeps the request as it was and records a diagnostic.
    pub fn with_temperature(self, temperature_milli: i64) -> (r: Self)
        ensures
            temperature_ok(temperature_milli as int) ==> r.request.options == (SamplingOptions {
                temperature_milli: Some(temperature_milli as u32),
                ..self.request.options
            }) && r.diagnostics == self.diagnostics,
            !temperature_ok(temperature_milli as int) ==> r.request == self.request
                && r.diagnostics@ == self.diagnostics@.push(r.diagnostics@.last())
                && r.diagnostics@.last()@ == temperature_note(),
            r.request.model == self.request.model,
            r.request.image == self.request.image,
            r.api_key == self.api_key,
            r.timeout_sec == self.timeout_sec,
            r.max_retries == self.max_retries,
    {
        let mut s = self;
        if !s.request.options.set_temperature(temperature_milli) {
            s.diagnostics.push(temperature_rejected_note());
        }
        s
    }

    /// Sets the limit on output tokens.
    pub fn with_max_tokens(self, max_tokens: u32) -> (r: Self)
        ensures
            r.request.options == (SamplingOptions {
                max_tokens: Some(max_tokens),
                ..self.request.options
            }),
            r.request.model == self.request.model,
            r.request.image == self.request.image,
            r.api_key == self.api_key,
            r.timeout_sec == self.timeout_sec,
            r.max_retries == self.max_retries,
            r.diagnostics == self.diagnostics,
    {
        let mut s = self;
        s.request.options.max_tokens = Some(max_tokens);
        s
    }

    /// Sets the time limit of each attempt, in seconds.
    pub fn with_timeout_sec(self, timeout: u64) -> (r: Self)
        ensures
            r.timeout_sec == timeout,
            r.request == self.request,
            r.api_key == self.api_key,
            r.max_retries == self.max_retries,
            r.diagnostics == self.diagnostics,
    {
        let mut s = self;
        s.timeout_sec = timeout;
        s
    }

    /// Declares the tools the model may call.
    pub fn with_tools(self, tools_data: Vec<serde_json::Value>) -> (r: Self)
        ensures
            r.request.options.tools is Some,
            r.request.options.tools->Some_0@.len() == tools_data@.len(),
            r.request.options.temperature_milli == self.request.options.temperature_milli,
            r.request.options.max_tokens == self.request.options.max_tokens,
            r.request.options.tool_choice == self.request.options.tool_choice,
            r.request.model == self.request.model,
            r.request.image == self.request.image,
            r.api_key == self.api_key,
            r.timeout_sec == self.timeout_sec,
            r.max_retries == self.max_retries,
            r.diagnostics == self.diagnostics,
    {
        let mut s = self;
        s.request.options.tools = Some(tool_texts(&tools_data));
        s
    }

    /// Sets the tool-choice policy.
    pub fn with_tool_choice(self, tool_choice: ToolChoice) -> (r: Self)
        ensures
            r.request.options == (SamplingOptions {
                tool_choice: Some(tool_choice),
                ..self.request.options
            }),
            r.request.model == self.request.model,
            r.request.image == self.request.image,
            r.api_key == self.api_key,
            r.timeout_sec == self.timeout_sec,
            r.max_retries == self.max_retries,
            r.diagnostics == self.diagnostics,
    {
        let mut s = self;
        s.request.options.tool_choice = Some(tool_choice);
        s
    }

    /// The JSON body of the request for `prompt`; unset options are left out.
    pub fn body(&self, prompt: &str) -> (r: String)
        ensures
            r@ == chat_body(self.request, prompt@),
    {
        let mut out = String::from_str("{\"model\":");
        let q = quote_json(self.request.model.as_str());
        out.append(q.as_str());
        out.append(",\"messages\":[{\"role\":\"user\",\"content\":[");
        out.append("{\"type\":\"text\",\"text\":");
        let q = quote_json(prompt);
        out.append(q.as_str());
        out.append("}");
        let ghost before_image = out@;
        match &self.request.image {
            Some(a) => {
                out.append(",{\"type\":\"image_url\",\"image_url\":{\"url\":");
                let url = make_data_url(a.mime_type.as_str(), a.payload.as_str());
                let q = quote_json(url.as_str());
                out.append(q.as_str());
                out.append("}}");
            },
            None => {},
        }
        assert(out@ =~= before_image + image_part(self.request.image));
        out.append("]}]");
        push_optional_fields(&mut out, ",\"max_tokens\":", &self.request.options);
        out.append("}");
        assert(out@ =~= chat_body(self.request, prompt@));
        out
    }

    /// The call to make for `prompt`: fails with a configuration error,
    /// before any network work, where no key is available.
    pub fn prepare(&self, prompt: &str) -> (r: Result<Call, LlmError>)
        ensures
            !key_available(self.api_key@) ==> r is Err && r->Err_0 is MissingApiKey,
            key_available(self.api_key@) ==> r is Ok && r->Ok_0.url@ == completions_url()
                && r->Ok_0.api_key@ == self.api_key@ && r->Ok_0.body@ == chat_body(
                self.request,
                prompt@,
            ) && r->Ok_0.timeout_sec == self.timeout_sec && r->Ok_0.max_attempts
                == self.max_retries,
    {
        if !has_api_key(self.api_key.as_str()) {
            return Err(LlmError::MissingApiKey);
        }
        Ok(
            Call {
                url: String::from_str("https://api.openai.com/v1/chat/completions"),
                api_key: self.api_key.clone(),
                body: self.body(prompt),
                timeout_sec: self.timeout_sec,
                max_attempts: self.max_retries,
            },
        )
    }
}

/// Exactly the formats png, jpg, jpeg, gif and webp (in any case) give an
/// attachment, with MIME type image/png, image/jpeg, image/gif or
/// image/webp, and the message then carries the image as the data URL
/// `data:<mime>;base64,<payload>`.
pub proof fn lemma_image_formats(data: Seq<u8>, file_format: Seq<char>)
    ensures
        attachment_of(data, file_format) is Some <==> (lower_of(file_format) == "png"@
            || lower_of(file_format) == "jpg"@ || lower_of(file_format) == "jpeg"@
            || lower_of(file_format) == "gif"@ || lower_of(file_format) == "webp"@),
        lower_of(file_format) == "png"@ ==> attachment_of(data, file_format) == Some(
            ("image/png"@, base64_of(data)),
        ),
        (lower_of(file_format) == "jpg"@ || lower_of(file_format) == "jpeg"@) ==> attachment_of(
            data,
            file_format,
        ) == Some(("image/jpeg"@, base64_of(data))),
        lower_of(file_format) == "gif"@ ==> attachment_of(data, file_format) == Some(
            ("image/gif"@, base64_of(data)),
        ),
        lower_of(file_format) == "webp"@ ==> attachment_of(data, file_format) == Some(
            ("image/webp"@, base64_of(data)),
        ),
        attachment_of(data, file_format) matches Some((m, p)) ==> image_part_of(
            attachment_of(data, file_format),
        ) == ",{\"type\":\"image_url\",\"image_url\":{\"url\":"@ + json_quoted(
            "data:"@ + m + ";base64,"@ + p,
        ) + "}}"@,
{
    reveal_strlit("png");
    reveal_strlit("jpg");
    reveal_strlit("jpeg");
    reveal_strlit("gif");
    reveal_strlit("webp");
    assert("png"@[0] == 'p' && "jpg"@[0] == 'j' && "jpeg"@[0] == 'j' && "gif"@[0] == 'g'
        && "webp"@[0] == 'w');
    assert("jpg"@.len() == 3 && "jpeg"@.len() == 4);
}

} // verus!
