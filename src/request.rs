//! What the two request shapes share: sampling options, tool declarations
//! and the tool-choice policy, and how they are written into a JSON body.
use vstd::prelude::*;
use vstd::string::*;
use crate::text::{decimal, digit_char, digit_str, json_quoted, push_decimal, quote_json};

verus! {

/// A tool declaration as the service receives it.
#[verifier::external_type_specification]
#[verifier::external_body]
pub struct ExValue(serde_json::Value);

/// Which tool, if any, the model must call.
#[derive(Clone, Debug)]
pub enum ToolChoice {
    /// The model calls no tool (`"none"`).
    Disabled,
    Auto,
    Required,
    /// The function tool of this name.
    Function(String),
}

/// Options that both request shapes carry, each left out of the body when
/// unset.
#[derive(Clone, Debug)]
pub struct SamplingOptions {
    /// Sampling temperature in thousandths (0 to 2000 for 0.0 to 2.0).
    pub temperature_milli: Option<u32>,
    pub max_tokens: Option<u32>,
    pub tool_choice: Option<ToolChoice>,
    /// The JSON text of each tool declaration.
    pub tools: Option<Vec<String>>,
}

/// The largest temperature accepted, in thousandths.
pub const MAX_TEMPERATURE_MILLI: i64 = 2000;

/// Whether a temperature in thousandths lies in [0.0, 2.0].
pub open spec fn temperature_ok(t: int) -> bool {
    0 <= t && t <= MAX_TEMPERATURE_MILLI
}

/// The views of a list of texts.
pub open spec fn texts(v: Seq<String>) -> Seq<Seq<char>> {
    v.map_values(|s: String| s@)
}

/// Parts separated by commas.
pub open spec fn join(parts: Seq<Seq<char>>) -> Seq<char>
    decreases parts.len(),
{
    if parts.len() == 0 {
        Seq::empty()
    } else if parts.len() == 1 {
        parts[0]
    } else {
        join(parts.drop_last()) + ","@ + parts.last()
    }
}

/// A JSON array of already rendered values.
pub open spec fn json_list(parts: Seq<Seq<char>>) -> Seq<char> {
    "["@ + join(parts) + "]"@
}

/// A temperature in thousandths, as a JSON number with three decimals.
pub open spec fn temperature_json(t: nat) -> Seq<char> {
    decimal(t / 1000) + "."@ + seq![
        digit_char(((t / 100) % 10) as int),
        digit_char(((t / 10) % 10) as int),
        digit_char((t % 10) as int),
    ]
}

pub open spec fn tool_choice_json(c: ToolChoice) -> Seq<char> {
    match c {
        ToolChoice::Disabled => "\"none\""@,
        ToolChoice::Auto => "\"auto\""@,
        ToolChoice::Required => "\"required\""@,
        ToolChoice::Function(n) => "{\"type\":\"function\",\"name\":"@ + json_quoted(n@) + "}"@,
    }
}

pub open spec fn max_tokens_field(max_key: Seq<char>, o: SamplingOptions) -> Seq<char> {
    match o.max_tokens {
        Some(n) => max_key + decimal(n as nat),
        None => Seq::empty(),
    }
}

pub open spec fn temperature_field(o: SamplingOptions) -> Seq<char> {
    match o.temperature_milli {
        Some(t) => ",\"temperature\":"@ + temperature_json(t as nat),
        None => Seq::empty(),
    }
}

pub open spec fn tool_choice_field(o: SamplingOptions) -> Seq<char> {
    match o.tool_choice {
        Some(c) => ",\"tool_choice\":"@ + tool_choice_json(c),
        None => Seq::empty(),
    }
}

pub open spec fn tools_field(o: SamplingOptions) -> Seq<char> {
    match o.tools {
        Some(v) => ",\"tools\":"@ + json_list(texts(v@)),
        None => Seq::empty(),
    }
}

/// The optional fields of a body, each with its leading comma, in a fixed
/// order; `max_key` is the text that introduces the token limit.
pub open spec fn optional_fields(max_key: Seq<char>, o: SamplingOptions) -> Seq<char> {
    max_tokens_field(max_key, o) + temperature_field(o) + tool_choice_field(o) + tools_field(o)
}

impl SamplingOptions {
    pub open spec fn wf(&self) -> bool {
        match self.temperature_milli {
            Some(t) => temperature_ok(t as int),
            None => true,
        }
    }

    pub open spec fn is_unset(&self) -> bool {
        &&& self.temperature_milli is None
        &&& self.max_tokens is None
        &&& self.tool_choice is None
        &&& self.tools is None
    }

    /// No option set.
    pub fn new() -> (r: SamplingOptions)
        ensures
            r.is_unset(),
            r.wf(),
    {
        SamplingOptions { temperature_milli: None, max_tokens: None, tool_choice: None, tools: None }
    }

    /// Sets the temperature if it lies in [0.0, 2.0]; otherwise leaves
    /// everything as it was and answers false.
    pub fn set_temperature(&mut self, temperature_milli: i64) -> (applied: bool)
        ensures
            applied == temperature_ok(temperature_milli as int),
            applied ==> *final(self) == (SamplingOptions {
                temperature_milli: Some(temperature_milli as u32),
                ..*old(self)
            }),
            !applied ==> *final(self) == *old(self),
            old(self).wf() ==> final(self).wf(),
    {
        if 0 <= temperature_milli && temperature_milli <= MAX_TEMPERATURE_MILLI {
            self.temperature_milli = Some(temperature_milli as u32);
            true
        } else {
            false
        }
    }
}

pub(crate) fn push_join(out: &mut String, parts: &Vec<String>)
    ensures
        final(out)@ == old(out)@ + json_list(texts(parts@)),
{
    let ghost start = out@;
    let ghost all = texts(parts@);
    out.append("[");
    let mut i: usize = 0;
    while i < parts.len()
        invariant
            i <= parts@.len(),
            all == texts(parts@),
            out@ == start + "["@ + join(all.take(i as int)),
        decreases parts@.len() - i,
    {
        let ghost before = out@;
        if i > 0 {
            out.append(",");
        }
        out.append(parts[i].as_str());
        proof {
            let t = all.take(i + 1);
            assert(t.drop_last() =~= all.take(i as int));
            assert(t.last() == parts@[i as int]@);
            if i == 0 {
                assert(t.len() == 1);
                assert(out@ =~= start + "["@ + join(t));
            } else {
                assert(out@ =~= start + "["@ + join(t));
            }
        }
        i = i + 1;
    }
    assert(all.take(parts@.len() as int) =~= all);
    out.append("]");
    assert(final(out)@ =~= old(out)@ + json_list(texts(parts@)));
}

fn push_temperature(out: &mut String, t: u32)
    ensures
        final(out)@ == old(out)@ + temperature_json(t as nat),
{
    push_decimal(out, (t / 1000) as u64);
    out.append(".");
    out.append(digit_str(((t / 100) % 10) as u64));
    out.append(digit_str(((t / 10) % 10) as u64));
    out.append(digit_str((t % 10) as u64));
    assert(final(out)@ =~= old(out)@ + temperature_json(t as nat));
}

fn push_tool_choice(out: &mut String, c: &ToolChoice)
    ensures
        final(out)@ == old(out)@ + tool_choice_json(*c),
{
    match c {
        ToolChoice::Disabled => out.append("\"none\""),
        ToolChoice::Auto => out.append("\"auto\""),
        ToolChoice::Required => out.append("\"required\""),
        ToolChoice::Function(n) => {
            out.append("{\"type\":\"function\",\"name\":");
            let q = quote_json(n.as_str());
            out.append(q.as_str());
            out.append("}");
            assert(final(out)@ =~= old(out)@ + tool_choice_json(*c));
        },
    }
}

/// Appends the fields of `o` that are set, each after a comma.
pub fn push_optional_fields(out: &mut String, max_key: &str, o: &SamplingOptions)
    ensures
        final(out)@ == old(out)@ + optional_fields(max_key@, *o),
{
    let ghost start = out@;
    match o.max_tokens {
        Some(n) => {
            out.append(max_key);
            push_decimal(out, n as u64);
        },
        None => {},
    }
    assert(out@ =~= start + max_tokens_field(max_key@, *o));
    let ghost a = out@;
    match o.temperature_milli {
        Some(t) => {
            out.append(",\"temperature\":");
            push_temperature(out, t);
        },
        None => {},
    }
    assert(out@ =~= a + temperature_field(*o));
    let ghost b = out@;
    match &o.tool_choice {
        Some(c) => {
            out.append(",\"tool_choice\":");
            push_tool_choice(out, c);
        },
        None => {},
    }
    assert(out@ =~= b + tool_choice_field(*o));
    let ghost c = out@;
    match &o.tools {
        Some(v) => {
            out.append(",\"tools\":");
            push_join(out, v);
        },
        None => {},
    }
    assert(out@ =~= c + tools_field(*o));
    assert(final(out)@ =~= old(out)@ + optional_fields(max_key@, *o));
}

} // verus!

verus! {

/// Relies on serde_json's `Display` for `Value`: it writes the value as
/// compact JSON text.
#[verifier::external_body]
fn value_text(v: &serde_json::Value) -> (r: String) {
    v.to_string()
}

/// The JSON text of each tool declaration, in order.
pub fn tool_texts(tools: &Vec<serde_json::Value>) -> (r: Vec<String>)
    ensures
        r@.len() == tools@.len(),
{
    let mut r: Vec<String> = Vec::new();
    let mut i: usize = 0;
    while i < tools.len()
        invariant
            i <= tools@.len(),
            r@.len() == i,
        decreases tools@.len() - i,
    {
        r.push(value_text(&tools[i]));
        i = i + 1;
    }
    r
}

/// The message kept when a temperature outside [0.0, 2.0] is refused.
pub open spec fn temperature_note() -> Seq<char> {
    "Temperature must be between 0.0 and 2.0; the previous value is kept."@
}

pub fn temperature_rejected_note() -> (r: String)
    ensures
        r@ == temperature_note(),
{
    String::from_str("Temperature must be between 0.0 and 2.0; the previous value is kept.")
}

} // verus!
