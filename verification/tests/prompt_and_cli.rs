use openruscli::cli::{cli_step, find_existing_session_id, record_reply, session_status, session_stem_of, CliAction, ReadOutcome, SessionFile};
use openruscli::config::Config;
use openruscli::error::AppError;
use openruscli::json::Json;
use openruscli::model::{FunctionCall, FunctionDefinition, Message, Role, Session, SessionId, Tool, ToolCall};
use openruscli::openrouter::{
    first_choice, stream_event, stream_payloads, OpenRouterAdapter, OpenRouterStreamChoice, OpenRouterStreamChunk,
};
use openruscli::process_prompt::{PromptTurn, ToolRegistry, TurnAction};
use openruscli::session_repository::FileSystemSessionRepository;
use serde_json::Value;

/// The library's form of a codec value.
fn json(v: &Value) -> Json {
    match v {
        Value::Null => Json::Null,
        Value::Bool(b) => Json::Bool(*b),
        Value::Number(n) => Json::Number(n.to_string()),
        Value::String(s) => Json::Str(s.clone()),
        Value::Array(a) => Json::Array(a.iter().map(json).collect()),
        Value::Object(m) => Json::Object(m.iter().map(|(k, x)| (k.clone(), json(x))).collect()),
    }
}

/// The codec's form of a library document.
fn value(j: &Json) -> Value {
    match j {
        Json::Null => Value::Null,
        Json::Bool(b) => Value::Bool(*b),
        Json::Number(n) => Value::Number(n.parse().expect("a number")),
        Json::Str(s) => Value::String(s.clone()),
        Json::Array(a) => Value::Array(a.iter().map(value).collect()),
        Json::Object(m) => Value::Object(m.iter().map(|(k, x)| (k.clone(), value(x))).collect()),
    }
}

fn parse(text: &str) -> Json {
    json(&serde_json::from_str::<Value>(text).expect("valid JSON"))
}

fn json_text(j: &Json) -> String {
    value(j).to_string()
}

fn tool(name: &str, desc: &str) -> Tool {
    Tool {
        tool_type: "function".to_string(),
        function: FunctionDefinition { name: name.to_string(), description: Some(desc.to_string()), parameters: Json::Null },
    }
}

fn call(id: &str, name: &str, args: &str) -> ToolCall {
    ToolCall {
        id: id.to_string(),
        tool_type: "function".to_string(),
        function: FunctionCall { name: name.to_string(), arguments: args.to_string() },
    }
}

fn assistant(calls: Option<Vec<ToolCall>>, content: &str) -> Message {
    Message { role: Role::Assistant, content: content.to_string(), tool_calls: calls, tool_call_id: None }
}

#[test]
fn later_registration_of_a_name_wins() {
    let mut reg = ToolRegistry::new();
    reg.register(0, vec![tool("a", "first"), tool("b", "b")]);
    reg.register(1, vec![tool("a", "second")]);
    assert_eq!(reg.lookup("a"), Some(1));
    assert_eq!(reg.lookup("b"), Some(0));
    assert_eq!(reg.lookup("c"), None);
    let tools = reg.tools();
    assert_eq!(tools.len(), 2);
    assert_eq!(tools[0].function.description.as_deref(), Some("second"));
}

#[test]
fn each_name_is_routed_to_the_last_provider_that_declares_it() {
    let lists = vec![
        vec![tool("a", "a0"), tool("b", "b0")],
        vec![tool("c", "c1")],
        vec![tool("a", "a2"), tool("c", "c2-first"), tool("c", "c2-last")],
        Vec::new(),
    ];
    let reg = ToolRegistry::from_providers(&lists);
    assert_eq!(reg.lookup("a"), Some(2));
    assert_eq!(reg.lookup("b"), Some(0));
    assert_eq!(reg.lookup("c"), Some(2));
    assert_eq!(reg.lookup("d"), None);
    let offered: Vec<_> = reg.tools().into_iter().map(|t| t.function.description.unwrap()).collect();
    assert_eq!(offered, vec!["a2", "b0", "c2-last"]);
    let (turn, _) = PromptTurn::start(&reg, SessionId::from_str("s"), "go", None);
    let (_, action) = turn.on_response(&reg, assistant(Some(vec![call("k", "d", "{}")]), ""));
    match action {
        TurnAction::Fail(AppError::LlmProviderError(m)) => assert_eq!(m, "Tool 'd' not found."),
        other => panic!("{:?}", other),
    }
}

#[test]
fn a_prompt_runs_each_call_then_streams() {
    let mut reg = ToolRegistry::new();
    reg.register(3, vec![tool("t", "d")]);
    let (turn, action) = PromptTurn::start(&reg, SessionId::from_str("s"), "hello", None);
    assert!(matches!(action, TurnAction::Generate));
    assert_eq!(turn.session.messages.len(), 1);
    assert_eq!(turn.session.messages[0].content, "hello");
    let answer = assistant(Some(vec![call("c1", "t", "{\"x\": 1}"), call("c2", "t", "{}")]), "");
    let (turn, action) = turn.on_response(&reg, answer);
    match &action {
        TurnAction::RunTool { provider, tool_name, arguments } => {
            assert_eq!((*provider, tool_name.as_str()), (3, "t"));
            assert_eq!(json_text(arguments), "{\"x\":1}");
        }
        other => panic!("{:?}", other),
    }
    let (turn, action) = turn.on_tool_result(&reg, Ok(parse("{\"ok\": true}")));
    assert!(matches!(action, TurnAction::RunTool { .. }));
    let (turn, action) = turn.on_tool_result(&reg, Ok(Json::Str("done".to_string())));
    assert!(matches!(action, TurnAction::Generate));
    let m = &turn.session.messages;
    assert_eq!(m.len(), 4);
    assert_eq!(m[2].role, Role::Tool);
    assert_eq!(m[2].content, "{\"ok\":true}");
    assert_eq!(m[2].tool_call_id.as_deref(), Some("c1"));
    assert_eq!(m[3].content, "\"done\"");
    assert_eq!(m[3].tool_call_id.as_deref(), Some("c2"));
    let (turn, action) = turn.on_response(&reg, assistant(None, "final"));
    assert!(matches!(action, TurnAction::Stream));
    assert_eq!(turn.session.messages.len(), 5);
}

#[test]
fn unknown_tools_and_bad_arguments_fail_the_prompt() {
    let mut reg = ToolRegistry::new();
    reg.register(0, vec![tool("t", "d")]);
    let mut stored = Session::new_with_id(SessionId::from_str("old"));
    stored.messages.push(assistant(None, "earlier"));
    let (turn, _) = PromptTurn::start(&reg, SessionId::from_str("ignored"), "p", Some(stored));
    assert_eq!(turn.session.id.value, "old");
    assert_eq!(turn.session.messages.len(), 2);
    let (_, action) = turn.on_response(&reg, assistant(Some(vec![call("c", "missing", "{}")]), ""));
    match action {
        TurnAction::Fail(AppError::LlmProviderError(m)) => assert_eq!(m, "Tool 'missing' not found."),
        other => panic!("{:?}", other),
    }
    let (turn, _) = PromptTurn::start(&reg, SessionId::from_str("s"), "p", None);
    let (turn, action) = turn.on_response(&reg, assistant(Some(vec![call("c", "t", "{oops")]), ""));
    assert!(matches!(action, TurnAction::Fail(AppError::SerializationError(_))));
    let (_, action) = turn.on_tool_result(&reg, Err(AppError::Unknown("x".to_string())));
    assert!(matches!(action, TurnAction::Fail(AppError::Unknown(_))));
}

#[test]
fn latest_session_file_is_resumed() {
    let files = vec![
        SessionFile { file_name: "a.json".to_string(), modified: 10 },
        SessionFile { file_name: "b.JSON".to_string(), modified: 30 },
        SessionFile { file_name: "c.txt".to_string(), modified: 99 },
        SessionFile { file_name: "d.json".to_string(), modified: 30 },
        SessionFile { file_name: ".json".to_string(), modified: 100 },
    ];
    assert_eq!(find_existing_session_id(&files).map(|s| s.value), Some("d".to_string()));
    assert!(find_existing_session_id(&vec![SessionFile { file_name: "x.md".to_string(), modified: 1 }]).is_none());
    assert!(find_existing_session_id(&vec![]).is_none());
}

#[test]
fn a_saved_session_is_found_again_by_its_file_name() {
    let repo = FileSystemSessionRepository::new("sessions".to_string());
    let id = SessionId::from_str("01J.v2");
    assert_eq!(repo.get_path(&id), "sessions/01J.v2.json");
    assert_eq!(session_stem_of("01J.v2.json").as_deref(), Some("01J.v2"));
    let fresh = SessionId::new();
    assert_eq!(fresh.value.len(), 26);
    assert_eq!(session_stem_of(&format!("{}.json", fresh.value)), Some(fresh.value.clone()));
}

#[test]
fn the_loop_decides_on_what_was_read() {
    assert!(matches!(cli_step(ReadOutcome::Line("  .exit \n".to_string())), CliAction::Exit(None)));
    assert!(matches!(cli_step(ReadOutcome::Line("   ".to_string())), CliAction::Skip));
    match cli_step(ReadOutcome::Line(" hi ".to_string())) {
        CliAction::Prompt(p) => assert_eq!(p, " hi "),
        other => panic!("{:?}", other),
    }
    assert!(matches!(cli_step(ReadOutcome::Interrupted), CliAction::Exit(Some("CTRL-C"))));
    assert!(matches!(cli_step(ReadOutcome::Eof), CliAction::Exit(Some("CTRL-D"))));
    assert!(matches!(cli_step(ReadOutcome::Failed("e".to_string())), CliAction::Fail(AppError::CliError(_))));
    assert_eq!(session_status(true), "retomada");
    assert_eq!(session_status(false), "iniciada");
    let s = record_reply(Session::new_with_id(SessionId::from_str("s")), "reply".to_string());
    assert_eq!(s.messages[0].role, Role::Assistant);
    assert_eq!(s.messages[0].content, "reply");
}

#[test]
fn configuration_defaults() {
    let c = Config::from_env(None, None);
    assert_eq!(c.ollama_api_url, "http://localhost:11434/api/chat");
    assert_eq!(c.ollama_model, "qwen2.5-coder:7b");
    let c = Config::from_env(Some("u".to_string()), Some("m".to_string()));
    assert_eq!((c.ollama_api_url.as_str(), c.ollama_model.as_str()), ("u", "m"));
}

#[test]
fn openrouter_framing() {
    let a = OpenRouterAdapter::new("k".to_string(), "m".to_string());
    assert_eq!(a.api_url(), "https://openrouter.ai/api/v1/chat/completions");
    let payloads = stream_payloads(b"data: one\r\n: comment\ndata: [DONE]\ndata: after\n");
    assert_eq!(payloads, vec!["one".to_string()]);
    match first_choice(vec![]) {
        Err(AppError::LlmProviderError(m)) => assert_eq!(m, "No response choices from API"),
        other => panic!("{:?}", other),
    }
    match stream_event(Err("bad".to_string())) {
        Some(Err(AppError::LlmProviderError(m))) => assert_eq!(m, "Stream parse error: bad"),
        other => panic!("{:?}", other),
    }
    assert!(stream_event(Ok(OpenRouterStreamChunk { choices: Vec::new() })).is_none());
    let chunk = |first: Option<&str>| OpenRouterStreamChunk {
        choices: vec![
            OpenRouterStreamChoice { content: first.map(|c| c.to_string()) },
            OpenRouterStreamChoice { content: Some("second".to_string()) },
        ],
    };
    assert!(stream_event(Ok(chunk(None))).is_none());
    match stream_event(Ok(chunk(Some("first")))) {
        Some(Ok(c)) => assert_eq!(c, "first"),
        other => panic!("{:?}", other),
    }
}
