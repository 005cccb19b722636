use master_home::chat::ChatOpenAI;
use master_home::error::LlmError;
use master_home::request::ToolChoice;
use master_home::responses::{InputContent, InputItem, ResponseOpenAI};

#[test]
fn new_has_defaults() {
    let r = ResponseOpenAI::new("gpt-4o", Some("sk-test"));
    assert_eq!(r.api_key, "sk-test");
    assert_eq!(r.request.model, "gpt-4o");
    assert!(matches!(r.request.input, InputContent::Empty));
    assert_eq!(r.timeout_sec, 300);
    assert_eq!(r.max_retries, 3);
    assert!(r.request.options.temperature_milli.is_none());
}

#[test]
fn missing_or_empty_key_becomes_placeholder() {
    assert_eq!(ResponseOpenAI::new("m", None).api_key, "not_key");
    assert_eq!(ResponseOpenAI::new("m", Some("")).api_key, "not_key");
    assert_eq!(ChatOpenAI::new("m", None).api_key, "not_key");
}

#[test]
fn temperature_in_range_applies() {
    for t in [0i64, 700, 1000, 2000] {
        let r = ResponseOpenAI::new("m", Some("k")).with_temperature(t);
        assert_eq!(r.request.options.temperature_milli, Some(t as u32));
        assert!(r.diagnostics.is_empty());
        let c = ChatOpenAI::new("m", Some("k")).with_temperature(t);
        assert_eq!(c.request.options.temperature_milli, Some(t as u32));
    }
}

#[test]
fn temperature_out_of_range_is_refused() {
    for t in [-1i64, 2001, 5000, i64::MIN] {
        let r = ResponseOpenAI::new("m", Some("k")).with_temperature(500).with_temperature(t);
        assert_eq!(r.request.options.temperature_milli, Some(500));
        assert_eq!(r.diagnostics.len(), 1);
        assert_eq!(
            r.diagnostics[0],
            "Temperature must be between 0.0 and 2.0; the previous value is kept."
        );
        let c = ChatOpenAI::new("m", Some("k")).with_temperature(t);
        assert_eq!(c.request.options.temperature_milli, None);
        assert_eq!(c.diagnostics.len(), 1);
    }
}

#[test]
fn minimal_body_has_model_and_input_only() {
    let r = ResponseOpenAI::new("gpt-4o", Some("k")).with_prompt("Describe this image");
    assert_eq!(r.body(), "{\"model\":\"gpt-4o\",\"input\":\"Describe this image\"}");
}

#[test]
fn empty_input_is_an_empty_list() {
    let r = ResponseOpenAI::new("gpt-4o", Some("k"));
    assert_eq!(r.body(), "{\"model\":\"gpt-4o\",\"input\":[]}");
}

#[test]
fn prompt_is_escaped() {
    let r = ResponseOpenAI::new("m", Some("k")).with_prompt("say \"hi\"\n");
    assert_eq!(r.body(), "{\"model\":\"m\",\"input\":\"say \\\"hi\\\"\\n\"}");
}

#[test]
fn options_are_written_when_set() {
    let r = ResponseOpenAI::new("m", Some("k"))
        .with_prompt("p")
        .with_max_tokens(256)
        .with_temperature(750)
        .with_tool_choice(ToolChoice::Auto);
    assert_eq!(
        r.body(),
        "{\"model\":\"m\",\"input\":\"p\",\"max_output_tokens\":256,\"temperature\":0.750,\"tool_choice\":\"auto\"}"
    );
}

#[test]
fn temperature_two_is_written_exactly() {
    let r = ResponseOpenAI::new("m", Some("k")).with_temperature(2000);
    assert_eq!(r.body(), "{\"model\":\"m\",\"input\":[],\"temperature\":2.000}");
}

#[test]
fn function_tool_choice_and_tools() {
    let mut tool = serde_json::Map::new();
    tool.insert("type".to_string(), serde_json::Value::String("function".to_string()));
    let r = ResponseOpenAI::new("m", Some("k"))
        .with_tools(vec![serde_json::Value::Object(tool.clone()), serde_json::Value::Object(tool)])
        .with_tool_choice(ToolChoice::Function("lookup".to_string()));
    assert_eq!(
        r.body(),
        "{\"model\":\"m\",\"input\":[],\"tool_choice\":{\"type\":\"function\",\"name\":\"lookup\"},\"tools\":[{\"type\":\"function\"},{\"type\":\"function\"}]}"
    );
}

#[test]
fn structured_input_items() {
    let mut r = ResponseOpenAI::new("m", Some("k"));
    r.request.input = InputContent::Items(vec![
        InputItem { role: "user".to_string(), content: "a".to_string() },
        InputItem { role: "assistant".to_string(), content: "b".to_string() },
    ]);
    assert_eq!(
        r.body(),
        "{\"model\":\"m\",\"input\":[{\"role\":\"user\",\"content\":\"a\"},{\"role\":\"assistant\",\"content\":\"b\"}]}"
    );
}

#[test]
fn timeout_is_configurable() {
    let r = ResponseOpenAI::new("m", Some("k")).with_timeout_sec(30);
    assert_eq!(r.timeout_sec, 30);
    let c = ChatOpenAI::new("m", Some("k")).with_timeout_sec(45);
    assert_eq!(c.timeout_sec, 45);
}

#[test]
fn prepare_without_key_fails_before_sending() {
    let r = ResponseOpenAI::new("m", None).with_prompt("p");
    assert!(matches!(r.prepare(), Err(LlmError::MissingApiKey)));
    let c = ChatOpenAI::new("m", Some(""));
    assert!(matches!(c.prepare("p"), Err(LlmError::MissingApiKey)));
}

#[test]
fn prepare_with_key_targets_endpoint() {
    let r = ResponseOpenAI::new("m", Some("sk")).with_prompt("p").with_timeout_sec(10);
    let call = r.prepare().unwrap();
    assert_eq!(call.url, "https://api.openai.com/v1/responses");
    assert_eq!(call.api_key, "sk");
    assert_eq!(call.body, "{\"model\":\"m\",\"input\":\"p\"}");
    assert_eq!(call.timeout_sec, 10);
    assert_eq!(call.max_attempts, 3);
    let c = ChatOpenAI::new("m", Some("sk")).prepare("q").unwrap();
    assert_eq!(c.url, "https://api.openai.com/v1/chat/completions");
}

#[test]
fn chat_body_without_image() {
    let c = ChatOpenAI::new("gpt-4o", Some("k")).with_max_tokens(100);
    assert_eq!(
        c.body("hello"),
        "{\"model\":\"gpt-4o\",\"messages\":[{\"role\":\"user\",\"content\":[{\"type\":\"text\",\"text\":\"hello\"}]}],\"max_tokens\":100}"
    );
}
