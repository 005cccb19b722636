//! The Responses-style request builder: a model, an `input` that is empty,
//! one string or a list of items, and the shared options.
use vstd::prelude::*;
use vstd::string::*;
use crate::error::LlmError;
use crate::request::{
    json_list, optional_fields, push_join, push_optional_fields, temperature_note,
    temperature_ok, temperature_rejected_note, tool_texts, SamplingOptions, ToolChoice,
};
use crate::text::{json_quoted, quote_json};
use crate::transport::{
    has_api_key, key_available, resolve_api_key, resolved_key, Call, DEFAULT_MAX_ATTEMPTS,
    DEFAULT_TIMEOUT_SEC,
};

verus! {

/// One structured input item.
#[derive(Clone, Debug)]
pub struct InputItem {
    pub role: String,
    pub content: String,
}

/// The `input` of a Responses-style body.
#[derive(Clone, Debug)]
pub enum InputContent {
    /// No input yet; written as an empty list.
    Empty,
    /// A single string.
    Text(String),
    /// A list of structured items.
    Items(Vec<InputItem>),
}

/// What a Responses-style body is made of.
#[derive(Clone, Debug)]
pub struct ResponseRequest {
    pub model: String,
    pub input: InputContent,
    pub options: SamplingOptions,
}

/// A builder for one Responses-style call, with its key and retry policy.
#[derive(Clone, Debug)]
pub struct ResponseOpenAI {
    pub api_key: String,
    pub request: ResponseRequest,
    pub timeout_sec: u64,
    pub max_retries: u32,
    /// Messages about settings that were refused.
    pub diagnostics: Vec<String>,
}

pub open spec fn item_json(it: InputItem) -> Seq<char> {
    "{\"role\":"@ + json_quoted(it.role@) + ",\"content\":"@ + json_quoted(it.content@) + "}"@
}

pub open spec fn input_json(i: InputContent) -> Seq<char> {
    match i {
        InputContent::Empty => "[]"@,
        InputContent::Text(s) => json_quoted(s@),
        InputContent::Items(v) => json_list(v@.map_values(|it: InputItem| item_json(it))),
    }
}

/// The JSON body of a Responses-style request.
pub open spec fn response_body(r: ResponseRequest) -> Seq<char> {
    "{\"model\":"@ + json_quoted(r.model@) + ",\"input\":"@ + input_json(r.input)
        + optional_fields(",\"max_output_tokens\":"@, r.options) + "}"@
}

/// The endpoint of Responses-style calls.
pub open spec fn responses_url() -> Seq<char> {
    "https://api.openai.com/v1/responses"@
}

fn item_text(it: &InputItem) -> (r: String)
    ensures
        r@ == item_json(*it),
{
    let mut r = String::from_str("{\"role\":");
    let q = quote_json(it.role.as_str());
    r.append(q.as_str());
    r.append(",\"content\":");
    let q = quote_json(it.content.as_str());
    r.append(q.as_str());
    r.append("}");
    assert(r@ =~= item_json(*it));
    r
}

fn push_input(out: &mut String, input: &InputContent)
    ensures
        final(out)@ == old(out)@ + input_json(*input),
{
    match input {
        InputContent::Empty => out.append("[]"),
        InputContent::Text(s) => {
            let q = quote_json(s.as_str());
            out.append(q.as_str());
        },
        InputContent::Items(v) => {
            let mut parts: Vec<String> = Vec::new();
            let mut i: usize = 0;
            while i < v.len()
                invariant
                    i <= v@.len(),
                    parts@.len() == i,
                    forall|j: int| 0 <= j < i ==> #[trigger] parts@[j]@ == item_json(v@[j]),
                decreases v@.len() - i,
            {
                parts.push(item_text(&v[i]));
                i = i + 1;
            }
            push_join(out, &parts);
            assert(parts@.map_values(|s: String| s@) =~= v@.map_values(
                |it: InputItem| item_json(it),
            ));
        },
    }
}

impl ResponseOpenAI {
    /// A builder with no input, no options, the default retry policy, and
    /// the given key (a placeholder where it is absent or empty).
    pub fn new(model: &str, api_key: Option<&str>) -> (r: Self)
        ensures
            r.api_key@ == resolved_key(
                match api_key {
                    Some(k) => Some(k@),
                    None => None,
                },
            ),
            r.request.model@ == model@,
            r.request.input is Empty,
            r.request.options.is_unset(),
            r.timeout_sec == DEFAULT_TIMEOUT_SEC,
            r.max_retries == DEFAULT_MAX_ATTEMPTS,
            r.diagnostics@.len() == 0,
    {
        ResponseOpenAI {
            api_key: resolve_api_key(api_key),
            request: ResponseRequest {
                model: String::from_str(model),
                input: InputContent::Empty,
                options: SamplingOptions::new(),
            },
            timeout_sec: DEFAULT_TIMEOUT_SEC,
            max_retries: DEFAULT_MAX_ATTEMPTS,
            diagnostics: Vec::new(),
        }
    }

    /// Sets the input to a single string.
    pub fn with_prompt(self, prompt: &str) -> (r: Self)
        ensures
            r.request.input is Text,
            r.request.input->Text_0@ == prompt@,
            r.request.model == self.request.model,
            r.request.options == self.request.options,
            r.api_key == self.api_key,
            r.timeout_sec == self.timeout_sec,
            r.max_retries == self.max_retries,
            r.diagnostics == self.diagnostics,
    {
        let mut s = self;
        s.request.input = InputContent::Text(String::from_str(prompt));
        s
    }

    /// Sets the temperature, in thousandths, if it lies in [0.0, 2.0];
    /// otherwise keeps the request as it was and records a diagnostic.
    pub fn with_temperature(self, temperature_milli: i64) -> (r: Self)
        ensures
            temperature_ok(temperature_milli as int) ==> r.request.options == (SamplingOptions {
                temperature_milli: Some(temperature_milli as u32),
                ..self.request.options
            }) && r.diagnostics == self.diagnostics,
            !temperature_ok(temperature_milli as int) ==> r.request == self.request
                && r.diagnostics@ == self.diagnostics@.push(r.diagnostics@.last())
                && r.diagnostics@.last()@ == temperature_note(),
            r.request.model == self.request.model,
            r.request.input == self.request.input,
            r.api_key == self.api_key,
            r.timeout_sec == self.timeout_sec,
            r.max_retries == self.max_retries,
    {
        let mut s = self;
        if !s.request.options.set_temperature(temperature_milli) {
            s.diagnostics.push(temperature_rejected_note());
        }
        s
    }

    /// Sets the limit on output tokens.
    pub fn with_max_tokens(self, max_tokens: u32) -> (r: Self)
        ensures
            r.request.options == (SamplingOptions {
                max_tokens: Some(max_tokens),
                ..self.request.options
            }),
            r.request.model == self.request.model,
            r.request.input == self.request.input,
            r.api_key == self.api_key,
            r.timeout_sec == self.timeout_sec,
            r.max_retries == self.max_retries,
            r.diagnostics == self.diagnostics,
    {
        let mut s = self;
        s.request.options.max_tokens = Some(max_tokens);
        s
    }

    /// Sets the time limit of each attempt, in seconds.
    pub fn with_timeout_sec(self, timeout: u64) -> (r: Self)
        ensures
            r.timeout_sec == timeout,
            r.request == self.request,
            r.api_key == self.api_key,
            r.max_retries == self.max_retries,
            r.diagnostics == self.diagnostics,
    {
        let mut s = self;
        s.timeout_sec = timeout;
        s
    }

    /// Declares the tools the model may call.
    pub fn with_tools(self, tools_data: Vec<serde_json::Value>) -> (r: Self)
        ensures
            r.request.options.tools is Some,
            r.request.options.tools->Some_0@.len() == tools_data@.len(),
            r.request.options.temperature_milli == self.request.options.temperature_milli,
            r.request.options.max_tokens == self.request.options.max_tokens,
            r.request.options.tool_choice == self.request.options.tool_choice,
            r.request.model == self.request.model,
            r.request.input == self.request.input,
            r.api_key == self.api_key,
            r.timeout_sec == self.timeout_sec,
            r.max_retries == self.max_retries,
            r.diagnostics == self.diagnostics,
    {
        let mut s = self;
        s.request.options.tools = Some(tool_texts(&tools_data));
        s
    }

    /// Sets the tool-choice policy.
    pub fn with_tool_choice(self, tool_choice: ToolChoice) -> (r: Self)
        ensures
            r.request.options == (SamplingOptions {
                tool_choice: Some(tool_choice),
                ..self.request.options
            }),
            r.request.model == self.request.model,
            r.request.input == self.request.input,
            r.api_key == self.api_key,
            r.timeout_sec == self.timeout_sec,
            r.max_retries == self.max_retries,
            r.diagnostics == self.diagnostics,
    {
        let mut s = self;
        s.request.options.tool_choice = Some(tool_choice);
        s
    }

    /// The JSON body of the request; unset options are left out.
    pub fn body(&self) -> (r: String)
        ensures
            r@ == response_body(self.request),
    {
        let mut out = String::from_str("{\"model\":");
        let q = quote_json(self.request.model.as_str());
        out.append(q.as_str());
        out.append(",\"input\":");
        push_input(&mut out, &self.request.input);
        push_optional_fields(&mut out, ",\"max_output_tokens\":", &self.request.options);
        out.append("}");
        assert(out@ =~= response_body(self.request));
        out
    }

    /// The call to make: fails with a configuration error, before any
    /// network work, where no key is available.
    pub fn prepare(&self) -> (r: Result<Call, LlmError>)
        ensures
            !key_available(self.api_key@) ==> r is Err && r->Err_0 is MissingApiKey,
            key_available(self.api_key@) ==> r is Ok && r->Ok_0.url@ == responses_url()
                && r->Ok_0.api_key@ == self.api_key@ && r->Ok_0.body@ == response_body(
                self.request,
            ) && r->Ok_0.timeout_sec == self.timeout_sec && r->Ok_0.max_attempts
                == self.max_retries,
    {
        if !has_api_key(self.api_key.as_str()) {
            return Err(LlmError::MissingApiKey);
        }
        Ok(
            Call {
                url: String::from_str("https://api.openai.com/v1/responses"),
                api_key: self.api_key.clone(),
                body: self.body(),
                timeout_sec: self.timeout_sec,
                max_attempts: self.max_retries,
            },
        )
    }
}

/// A body with only a model and a string input set holds exactly those two
/// fields: every unset option is absent.
pub proof fn lemma_minimal_response_body(r: ResponseRequest)
    requires
        r.input is Text,
        r.options.is_unset(),
    ensures
        response_body(r) == "{\"model\":"@ + json_quoted(r.model@) + ",\"input\":"@
            + json_quoted(r.input->Text_0@) + "}"@,
{
    assert(optional_fields(",\"max_output_tokens\":"@, r.options) =~= Seq::empty());
    assert(response_body(r) =~= "{\"model\":"@ + json_quoted(r.model@) + ",\"input\":"@
        + json_quoted(r.input->Text_0@) + "}"@);
}

} // verus!
