use arcee_code::api_errors::{ApiError, RetryConfig, RetryStep};
use arcee_code::context::{
    build_subagent_system_prompt, build_system_prompt, environment_context, git_info, load_memory,
    Environment, MemoryFile, EXPLORE_AGENT_PROMPT,
};
use arcee_code::permissions::{permission_granted, summarize_input};
use arcee_code::tool_input::{ArgField, ArgValue, ToolInput};
use arcee_code::tools::lsp::{
    header_line, parse_count_exec, HeaderLine, LspSession, LspTool, ParsedCount, ReplyHead, ReplyStep,
};

fn input(fields: Vec<(&str, ArgValue)>, rendered: &str) -> ToolInput {
    ToolInput {
        fields: Some(
            fields
                .into_iter()
                .map(|(k, v)| ArgField { key: k.to_string(), value: v, rendered: String::new() })
                .collect(),
        ),
        rendered: rendered.to_string(),
    }
}

#[test]
fn retry_decisions() {
    let c = RetryConfig::default_config();
    assert!(matches!(c.after_failure(1, &ApiError::Server("x".into())), RetryStep::Backoff(1000)));
    assert!(matches!(c.after_failure(2, &ApiError::Server("x".into())), RetryStep::Backoff(2000)));
    assert!(matches!(c.after_failure(3, &ApiError::Server("x".into())), RetryStep::GiveUp));
    assert!(matches!(c.after_failure(1, &ApiError::RateLimit { retry_after_secs: Some(7) }), RetryStep::WaitSecs(7)));
    assert!(matches!(c.after_failure(1, &ApiError::Auth("no".into())), RetryStep::GiveUp));
    assert_eq!(c.cap_delay(45_000), 30_000);
    assert_eq!(c.cap_delay(1_200), 1_200);
    let big = RetryConfig { max_retries: 200, base_delay_ms: 1000, max_delay_ms: 5 };
    assert!(matches!(big.after_failure(100, &ApiError::Server("x".into())), RetryStep::Backoff(u64::MAX)));
}

#[test]
fn permission_prompt_summaries() {
    let i = input(vec![("file_path", ArgValue::Str("/a".into())), ("content", ArgValue::Str("héllo".into()))], "{}");
    assert_eq!(summarize_input("Write", &i), "/a (6 bytes)");
    let g = input(vec![("pattern", ArgValue::Str("fn".into()))], "{}");
    assert_eq!(summarize_input("Grep", &g), "fn in .");
    let other = input(vec![], "{\"x\":1}");
    assert_eq!(summarize_input("Custom", &other), "{\"x\":1}");
    assert!(permission_granted(" Y\n"));
    assert!(!permission_granted("yes"));
}

#[test]
fn lsp_headers_and_replies() {
    assert!(matches!(header_line("Content-Length: 42\r\n"), HeaderLine::Length(ParsedCount::Value(42))));
    assert!(matches!(header_line("\r\n"), HeaderLine::End));
    assert!(matches!(header_line("Content-Type: x"), HeaderLine::Other));
    assert!(matches!(parse_count_exec("+7"), ParsedCount::Value(7)));
    assert!(matches!(parse_count_exec("+"), ParsedCount::InvalidDigit));
    assert!(matches!(parse_count_exec(""), ParsedCount::Empty));
    assert!(matches!(parse_count_exec("99999999999999999999999x"), ParsedCount::Overflow));
    assert!(matches!(parse_count_exec("12a"), ParsedCount::InvalidDigit));
    let head = ReplyHead { id: Some(3), error: Some(None) };
    match LspTool::reply_step(&head, 3) {
        ReplyStep::Fail(m) => assert_eq!(m, "LSP error: Unknown LSP error"),
        _ => panic!("expected a failure"),
    }
    assert!(matches!(LspTool::reply_step(&head, 4), ReplyStep::Skip));
    assert!(matches!(LspTool::reply_step(&ReplyHead { id: Some(4), error: None }, 4), ReplyStep::Take));
    assert!(LspTool::body_length(0).is_err());
}

#[test]
fn lsp_session_bookkeeping() {
    let mut s = LspSession::new();
    assert_eq!(s.take_id(), 1);
    assert_eq!(s.take_id(), 2);
    assert!(s.open_document("file:///a"));
    assert!(!s.open_document("file:///a"));
    assert!(s.open_document("file:///b"));
    assert!(!s.is_initialized());
    s.set_initialized();
    assert!(s.is_initialized());
}

#[test]
fn prompts_and_environment() {
    let env = Environment { cwd: "/w".into(), os: "linux".into(), arch: "x86_64".into(), shell: None, git: git_info(true, Some(" main\n".into())) };
    let e = environment_context(&env);
    assert_eq!(e, "- Working directory: /w\n- Platform: linux/x86_64\n- Shell: bash\n- Git: branch=main");
    assert_eq!(git_info(true, None).as_deref(), Some("branch=detached"));
    assert_eq!(git_info(false, None), None);
    let mem = load_memory(
        Some("rules"),
        &vec![
            MemoryFile { name: "a.md".into(), content: Some("A".into()) },
            MemoryFile { name: "b.txt".into(), content: Some("B".into()) },
            MemoryFile { name: "c.md".into(), content: None },
        ],
    );
    assert_eq!(mem, "## ARCEE.md\nrules\n\n## a.md\nA\n");
    let p = build_system_prompt(&e, &mem, "m1");
    assert!(p.starts_with("You are Arcee Code"));
    assert!(p.ends_with("\n\n# Project Memory\n## ARCEE.md\nrules\n\n## a.md\nA\n\n\nYou are powered by m1.\n"));
    let s = build_subagent_system_prompt("explore", "ENV", "", "m2");
    assert_eq!(s, format!("{EXPLORE_AGENT_PROMPT}\n\n# Environment\nENV\n\nYou are powered by m2.\n"));
}
