use arcee_code::api_errors::ApiError;
use arcee_code::hooks::{HookDecision, HookEvent};
use arcee_code::messages::ChatMessage;
use arcee_code::session::{is_session_file, pick_latest, session_path, SessionFile};
use arcee_code::streaming::{
    auth_value, chunk_notices, error_for_status, request_messages, ChatCompletionResponse, Choice,
    ErrorBody, FunctionCallDelta, ResponseDelta, StreamAccumulator, StreamNotice, ToolCallDelta,
};
use arcee_code::messages::StopReason;
use arcee_code::tool_input::{ArgField, ArgValue, ToolInput};
use arcee_code::tools::registry::{default_tool_names, ToolNames};

#[test]
fn http_errors_by_status() {
    match error_for_status(401, "401 Unauthorized", "no", None) {
        ApiError::Auth(m) => assert_eq!(m, "Authentication failed (HTTP 401 Unauthorized). Check your ARCEE_API_KEY.\nno"),
        _ => panic!("expected an auth error"),
    }
    match error_for_status(429, "429 Too Many Requests", "{}", Some(ErrorBody { retry_after: Some(3), error: None })) {
        ApiError::RateLimit { retry_after_secs } => assert_eq!(retry_after_secs, Some(3)),
        _ => panic!("expected a rate limit"),
    }
    match error_for_status(503, "503 Service Unavailable", "down", None) {
        ApiError::Server(m) => assert_eq!(m, "HTTP 503 Service Unavailable: down"),
        _ => panic!("expected a server error"),
    }
    match error_for_status(400, "400 Bad Request", "b", Some(ErrorBody { retry_after: None, error: Some(Some("bad model".into())) })) {
        ApiError::ApiResponse { error_type, message } => {
            assert_eq!(error_type, "api_error");
            assert_eq!(message, "bad model");
        }
        _ => panic!("expected an API error"),
    }
    match error_for_status(400, "400 Bad Request", "b", Some(ErrorBody { retry_after: None, error: Some(None) })) {
        ApiError::ApiResponse { message, .. } => assert_eq!(message, "b"),
        _ => panic!("expected an API error"),
    }
}

#[test]
fn auth_header_values() {
    assert_eq!(auth_value("sk-123").ok().unwrap(), "Bearer sk-123");
    assert!(auth_value("bad\nkey").is_err());
    assert!(auth_value("ключ").is_ok());
}

#[test]
fn request_starts_with_system_prompt() {
    let ms = request_messages("sys", vec![ChatMessage::user("hi")]);
    assert_eq!(ms.len(), 2);
    assert_eq!(ms[0].role, "system");
    assert_eq!(ms[0].content.as_deref(), Some("sys"));
    assert_eq!(ms[1].role, "user");
}

fn delta_chunk(content: Option<&str>, calls: Vec<(usize, Option<&str>, Option<&str>)>) -> ChatCompletionResponse {
    ChatCompletionResponse {
        id: String::new(),
        object: String::new(),
        created: 0,
        model: String::new(),
        choices: vec![Choice {
            index: 0,
            message: None,
            delta: Some(ResponseDelta {
                role: None,
                content: content.map(|s| s.to_string()),
                tool_calls: Some(
                    calls
                        .into_iter()
                        .map(|(i, id, name)| ToolCallDelta {
                            index: i,
                            id: id.map(|s| s.to_string()),
                            call_type: None,
                            function: Some(FunctionCallDelta { name: name.map(|s| s.to_string()), arguments: None }),
                        })
                        .collect(),
                ),
                reasoning: None,
            }),
            finish_reason: None,
        }],
        usage: None,
    }
}

#[test]
fn stream_notices_announce_each_call_once() {
    let mut seen = Vec::new();
    let n = chunk_notices(&delta_chunk(Some("Hi"), vec![(0, Some("c1"), Some("Read")), (0, None, Some("Read"))]), &mut seen);
    assert_eq!(n.len(), 2);
    assert!(matches!(&n[0], StreamNotice::Text(t) if t == "Hi"));
    assert!(matches!(&n[1], StreamNotice::ToolStart { id, name } if id == "c1" && name == "Read"));
    let n = chunk_notices(&delta_chunk(None, vec![(0, None, Some("Read")), (1, None, Some("Grep"))]), &mut seen);
    assert_eq!(n.len(), 1);
    assert!(matches!(&n[0], StreamNotice::ToolStart { id, name } if id.is_empty() && name == "Grep"));
    let acc = StreamAccumulator::new();
    assert_eq!(acc.stop_reason(), StopReason::EndTurn);
}

#[test]
fn sessions_files() {
    assert_eq!(session_path("/h/s", "abc"), "/h/s/abc.json");
    assert!(is_session_file("a.json"));
    assert!(!is_session_file(".json"));
    assert!(!is_session_file("a.json.tmp"));
    let files = vec![
        SessionFile { name: "a.json".into(), modified: 5 },
        SessionFile { name: "b.tmp".into(), modified: 9 },
        SessionFile { name: "c.json".into(), modified: 7 },
        SessionFile { name: "d.json".into(), modified: 7 },
    ];
    assert_eq!(pick_latest(&files), Some(2));
    assert_eq!(pick_latest(&vec![]), None);
}

#[test]
fn registry_names_sorted_once() {
    let mut names = ToolNames::new();
    for n in default_tool_names() {
        names.register(&n);
    }
    names.register("Bash");
    let v = names.names();
    assert_eq!(v.len(), 22);
    let mut sorted = v.clone();
    sorted.sort();
    assert_eq!(*v, sorted);
    assert!(names.contains("LSP"));
    assert!(!names.contains("Nope"));
}

#[test]
fn hook_events_by_name() {
    let data = ToolInput {
        fields: Some(vec![
            ArgField { key: "reason".into(), value: ArgValue::Str("done".into()), rendered: String::new() },
            ArgField { key: "turn".into(), value: ArgValue::Number(Some(4)), rendered: String::new() },
        ]),
        rendered: String::new(),
    };
    match HookEvent::from_name("Stop", &data) {
        Some(HookEvent::Stop { reason, turn }) => {
            assert_eq!(reason, "done");
            assert_eq!(turn, 4);
        }
        _ => panic!("expected a stop event"),
    }
    assert!(HookEvent::from_name("Nope", &data).is_none());
    assert!(HookDecision::Block("x".into()).ends_chain());
    assert_eq!(HookDecision::AppendContext("ctx".into()).context_text(), "ctx");
    assert_eq!(HookDecision::Block("why".into()).block_reason().as_deref(), Some("why"));
}
