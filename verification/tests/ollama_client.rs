use openruscli::error::AppError;
use openruscli::json::Json;
use openruscli::model::{FunctionCall, FunctionDefinition, Message, Role, Tool, ToolCall};
use openruscli::ollama::{
    answer_is_readable, api_error, build_request_messages, extract_tool_calls_from_text, is_qwen_model,
    message_from_response, parse_tool_call_from_value, response_from_choices, stream_events,
    OllamaAdapter, OllamaFunctionCall, OllamaMessage, OllamaToolCall,
};
use openruscli::qwen::{build_qwen_prompt, build_qwen_tools_block};
use serde_json::Value;

/// The library's form of a codec value.
fn json(v: &Value) -> Json {
    match v {
        Value::Null => Json::Null,
        Value::Bool(b) => Json::Bool(*b),
        Value::Number(n) => Json::Number(n.to_string()),
        Value::String(s) => Json::Str(s.clone()),
        Value::Array(a) => Json::Array(a.iter().map(json).collect()),
        Value::Object(m) => Json::Object(m.iter().map(|(k, x)| (k.clone(), json(x))).collect()),
    }
}

/// The codec's form of a library document.
fn value(j: &Json) -> Value {
    match j {
        Json::Null => Value::Null,
        Json::Bool(b) => Value::Bool(*b),
        Json::Number(n) => Value::Number(n.parse().expect("a number")),
        Json::Str(s) => Value::String(s.clone()),
        Json::Array(a) => Value::Array(a.iter().map(value).collect()),
        Json::Object(m) => Value::Object(m.iter().map(|(k, x)| (k.clone(), value(x))).collect()),
    }
}

fn parse(text: &str) -> Json {
    json(&serde_json::from_str::<Value>(text).expect("valid JSON"))
}

fn json_text(j: &Json) -> String {
    value(j).to_string()
}

fn is_call_id(id: &str) -> bool {
    id.len() == 31
        && id.starts_with("call_")
        && id[5..].chars().all(|c| "0123456789ABCDEFGHJKMNPQRSTVWXYZ".contains(c))
}

fn message(role: Role, content: &str) -> Message {
    Message { role, content: content.to_string(), tool_calls: None, tool_call_id: None }
}

fn empty_message() -> OllamaMessage {
    OllamaMessage { role: "assistant".to_string(), content: None, tool_calls: None, tool_call: None, function_call: None }
}

#[test]
fn nested_function_call_becomes_a_domain_call() {
    let call = OllamaToolCall {
        function: Some(OllamaFunctionCall { name: "read_file".to_string(), arguments: parse("{\"path\": \"a\"}") }),
        name: None,
        arguments: None,
    };
    let c = call.into_domain().expect("a call");
    assert_eq!(c.function.name, "read_file");
    assert_eq!(c.function.arguments, "{\"path\":\"a\"}");
    assert_eq!(c.tool_type, "function");
    assert!(is_call_id(&c.id));
}

#[test]
fn top_level_name_needs_arguments() {
    let with_args = OllamaToolCall { function: None, name: Some("f".to_string()), arguments: Some(Json::Str("raw".to_string())) };
    let c = with_args.into_domain().expect("a call");
    assert_eq!(c.function.arguments, "raw");
    let without = OllamaToolCall { function: None, name: Some("f".to_string()), arguments: None };
    assert!(without.into_domain().is_none());
}

#[test]
fn documents_that_name_a_function() {
    let c = parse_tool_call_from_value(&parse("{\"name\": \"g\", \"arguments\": {\"x\": 1}, \"extra\": 0}")).unwrap();
    assert_eq!((c.function.name.as_str(), c.function.arguments.as_str()), ("g", "{\"x\":1}"));
    let pair = parse_tool_call_from_value(&parse("[\"h\", \"args\"]")).unwrap();
    assert_eq!((pair.function.name.as_str(), pair.function.arguments.as_str()), ("h", "args"));
    assert!(parse_tool_call_from_value(&parse("{\"name\": \"g\"}")).is_none());
    assert!(parse_tool_call_from_value(&parse("{\"name\": 3, \"arguments\": {}}")).is_none());
    assert!(parse_tool_call_from_value(&parse("[\"h\", 1, 2]")).is_none());
    assert!(parse_tool_call_from_value(&parse("\"text\"")).is_none());
}

#[test]
fn calls_between_tags_as_array_single_or_lines() {
    let arr = extract_tool_calls_from_text(
        "x <tool_call>[{\"name\":\"a\",\"arguments\":{}},{\"bad\":1},{\"name\":\"b\",\"arguments\":\"q\"}]</tool_call> y",
    )
    .unwrap();
    let names: Vec<&str> = arr.iter().map(|c| c.function.name.as_str()).collect();
    assert_eq!(names, vec!["a", "b"]);
    let single = extract_tool_calls_from_text("<tool_call>\n{\"name\": \"s\", \"arguments\": {}}\n</tool_call>").unwrap();
    assert_eq!(single.len(), 1);
    let lines = extract_tool_calls_from_text(
        "<tool_call>\n{\"name\": \"l1\", \"arguments\": {}}\n\nnot json\n{\"name\": \"l2\", \"arguments\": {}}\n</tool_call>",
    )
    .unwrap();
    let names: Vec<&str> = lines.iter().map(|c| c.function.name.as_str()).collect();
    assert_eq!(names, vec!["l1", "l2"]);
    assert!(extract_tool_calls_from_text("no tags here").is_none());
    assert!(extract_tool_calls_from_text("<tool_call>[]</tool_call>").is_none());
}

#[test]
fn structured_calls_win_and_clear_the_text() {
    let mut m = empty_message();
    m.content = Some("ignored".to_string());
    m.tool_calls = Some(vec![OllamaToolCall {
        function: Some(OllamaFunctionCall { name: "t".to_string(), arguments: parse("{}") }),
        name: None,
        arguments: None,
    }]);
    let r = message_from_response(m);
    assert_eq!(r.role, Role::Assistant);
    assert_eq!(r.content, "");
    assert_eq!(r.tool_calls.unwrap()[0].function.name, "t");
    assert!(r.tool_call_id.is_none());
}

#[test]
fn empty_call_list_falls_back_to_the_text() {
    let mut m = empty_message();
    m.tool_calls = Some(vec![]);
    m.function_call = Some(OllamaFunctionCall { name: "ignored".to_string(), arguments: parse("{}") });
    m.content = Some("plain answer".to_string());
    let r = message_from_response(m);
    assert_eq!(r.content, "plain answer");
    assert!(r.tool_calls.is_none());
}

#[test]
fn single_tool_call_field_then_function_call_field() {
    let mut m = empty_message();
    m.tool_call = Some(OllamaToolCall { function: None, name: None, arguments: None });
    m.function_call = Some(OllamaFunctionCall { name: "fc".to_string(), arguments: Json::Str("a".to_string()) });
    let r = message_from_response(m);
    assert_eq!(r.tool_calls.unwrap()[0].function.name, "fc");
}

#[test]
fn fenced_json_answer_is_a_call() {
    let mut m = empty_message();
    m.content = Some("```json\n{\"name\": \"fenced\", \"arguments\": {\"a\": 1}}\n```".to_string());
    let r = message_from_response(m);
    let calls = r.tool_calls.unwrap();
    assert_eq!(calls[0].function.name, "fenced");
    assert_eq!(calls[0].function.arguments, "{\"a\":1}");
    assert_eq!(r.content, "");
}

#[test]
fn no_choice_is_an_error_and_bad_status_reports_the_body() {
    match response_from_choices(vec![]) {
        Err(AppError::LlmProviderError(m)) => assert_eq!(m, "API returned no choices"),
        other => panic!("unexpected {:?}", other),
    }
    match api_error("boom") {
        AppError::LlmProviderError(m) => assert_eq!(m, "API Error: boom"),
        other => panic!("unexpected {:?}", other),
    }
}

#[test]
fn request_messages_and_request() {
    let msgs = vec![message(Role::System, "s"), message(Role::User, "u"), message(Role::Assistant, "a"), message(Role::Tool, "t")];
    let r = build_request_messages(&msgs);
    let roles: Vec<&str> = r.iter().map(|m| m.role.as_str()).collect();
    assert_eq!(roles, vec!["system", "user", "assistant", "tool"]);
    assert_eq!(r[1].content, "u");
    let adapter = OllamaAdapter::new("m".to_string(), "http://h/api".to_string());
    assert_eq!(adapter.chat_url(), "http://h/api/chat/completions");
    let req = adapter.build_request(&msgs, &[], true);
    assert!(req.tools.is_none());
    assert!(req.stream);
    assert_eq!(req.model, "m");
}

#[test]
fn qwen_models_are_recognised_in_any_case() {
    assert!(is_qwen_model("QWEN2.5-coder:7b"));
    assert!(is_qwen_model("my-Qwen"));
    assert!(!is_qwen_model("llama3"));
}

#[test]
fn stream_lines_yield_fragments_and_errors() {
    let chunk = b"data: {\"choices\":[{\"delta\":{\"content\":\"Hel\"}}]}\n\ndata: [DONE]\ndata:   \nignored\ndata: {bad\ndata: {\"choices\":[]}\n";
    let events = stream_events(chunk);
    assert_eq!(events.len(), 2);
    assert_eq!(events[0].as_ref().unwrap(), "Hel");
    match &events[1] {
        Err(AppError::LlmProviderError(m)) => {
            assert!(m.starts_with("Failed to parse stream chunk: "));
            assert!(m.ends_with(" | Chunk: '{bad'"));
        }
        other => panic!("unexpected {:?}", other),
    }
}

#[test]
fn stream_decodes_invalid_bytes_with_replacement() {
    let mut chunk = b"data: {\"choices\":[{\"delta\":{\"content\":\"a".to_vec();
    chunk.push(0xff);
    chunk.extend_from_slice(b"\"}}]}\n");
    let events = stream_events(&chunk);
    assert_eq!(events[0].as_ref().unwrap(), "a\u{fffd}");
}

fn tool(name: &str, desc: Option<&str>) -> Tool {
    Tool {
        tool_type: "function".to_string(),
        function: FunctionDefinition { name: name.to_string(), description: desc.map(|d| d.to_string()), parameters: parse("{\"type\":\"object\"}") },
    }
}

#[test]
fn tools_block_declares_each_tool() {
    assert_eq!(build_qwen_tools_block(&[]), "");
    let block = build_qwen_tools_block(&[tool("a", Some("d")), tool("b", None)]);
    assert!(block.starts_with("# Tools\nYou may call one or more functions"));
    assert!(block.contains("<tools>\n{\"function\":{\"description\":\"d\",\"name\":\"a\",\"parameters\":{\"type\":\"object\"}},\"type\":\"function\"}\n"));
    assert!(block.contains("{\"function\":{\"description\":null,\"name\":\"b\""));
    assert!(block.ends_with("<tool_call>\n{\"name\": <function-name>, \"arguments\": <args-json-object>}\n\n</tool_call>\n"));
}

#[test]
fn qwen_prompt_turns() {
    let call = ToolCall {
        id: "call_1".to_string(),
        tool_type: "function".to_string(),
        function: FunctionCall { name: "f".to_string(), arguments: "not json".to_string() },
    };
    let mut asst = message(Role::Assistant, "");
    asst.tool_calls = Some(vec![call]);
    let msgs = vec![message(Role::System, "sys"), message(Role::User, "hi"), asst, message(Role::Tool, "out")];
    let p = build_qwen_prompt(&msgs, &[]);
    assert_eq!(
        p,
        "<|im_start|>system\nsys\n<|im_end|>\n<|im_start|>user\nhi\n<|im_end|>\n<|im_start|>assistant\n<tool_call>\n{\"name\": \"f\", \"arguments\": {}}\n</tool_call>\n<|im_end|>\n<|im_start|>user\n<tool_response>\nout\n</tool_response>\n<|im_end|>\n<|im_start|>assistant\n"
    );
    let last_assistant = vec![message(Role::User, "q"), message(Role::Assistant, "a")];
    assert_eq!(
        build_qwen_prompt(&last_assistant, &[]),
        "<|im_start|>user\nq\n<|im_end|>\n<|im_start|>assistant\na\n<|im_end|>\n"
    );
    assert_eq!(build_qwen_prompt(&[], &[]), "");
}

#[test]
fn misordered_tags_make_an_answer_unreadable_unless_structured_calls_exist() {
    let misordered = "</tool_call> then <tool_call>".to_string();
    let mut m = empty_message();
    m.content = Some(misordered.clone());
    assert!(!answer_is_readable(&m));

    m.content = Some("<tool_call></tool_call>".to_string());
    assert!(answer_is_readable(&m));

    // An empty list, or a list whose calls name no function, does not count.
    let mut n = empty_message();
    n.content = Some(misordered.clone());
    n.tool_calls = Some(Vec::new());
    assert!(!answer_is_readable(&n));
    n.tool_calls = Some(vec![OllamaToolCall { function: None, name: Some("g".to_string()), arguments: None }]);
    assert!(!answer_is_readable(&n));
    n.tool_calls = Some(vec![OllamaToolCall { function: None, name: Some("g".to_string()), arguments: Some(parse("{}")) }]);
    assert!(answer_is_readable(&n));

    let mut f = empty_message();
    f.content = Some(misordered);
    f.function_call = Some(OllamaFunctionCall { name: "f".to_string(), arguments: parse("{}") });
    assert!(answer_is_readable(&f));

    assert!(answer_is_readable(&empty_message()));
}
