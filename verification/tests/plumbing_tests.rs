use arcee_code::background_tasks::{BackgroundTaskStatus, BackgroundTaskStore};
use arcee_code::config::{CliSettings, Config, ConfigSources};
use arcee_code::hooks::{combine_decisions, CmdResult, HookDecision, HookEvent, HookOutput, ShellHook};
use arcee_code::messages::{normalize_for_api, AssistantMessage, ContentBlock, Message, StopReason, Usage};
use arcee_code::model_router::Intensity;
use arcee_code::permissions::{PermissionMode, PermissionStrictness};
use arcee_code::streaming::{
    take_payloads, ChatCompletionResponse, Choice, FunctionCallDelta, ResponseDelta, StreamAccumulator,
    ToolCallDelta,
};

fn hook(command: &str) -> ShellHook {
    ShellHook { event_name: "PreToolUse".into(), matcher: Some("Bash | Write".into()), command: command.into(), timeout_secs: 5 }
}

fn ran(code: i32, stdout: &str, stderr: &str) -> CmdResult {
    CmdResult { exit_code: code, stdout: stdout.into(), stderr: stderr.into(), timed_out: false }
}

fn text_of(d: &HookDecision) -> String {
    match d {
        HookDecision::Continue => "continue".to_string(),
        HookDecision::Block(r) => format!("block: {r}"),
        HookDecision::AppendContext(t) => format!("append: {t}"),
    }
}

#[test]
fn shell_hook_decisions() {
    let h = hook("lint.sh");
    assert_eq!(text_of(&h.decide(&ran(2, "", "  denied \n"), None)), "block: denied");
    assert_eq!(text_of(&h.decide(&ran(2, "", ""), None)), "block: Hook returned blocking exit code 2");
    let timed = CmdResult { exit_code: -1, stdout: String::new(), stderr: String::new(), timed_out: true };
    assert_eq!(text_of(&h.decide(&timed, None)), "block: Hook timed out: lint.sh");
    let stop = HookOutput { should_continue: false, additional_context: None, decision: None };
    assert_eq!(text_of(&h.decide(&ran(0, "{\"continue\":false}", ""), Some(stop))), "block: Hook blocked execution");
    let add = HookOutput { should_continue: true, additional_context: Some("lint ok".into()), decision: None };
    assert_eq!(text_of(&h.decide(&ran(0, "{}", ""), Some(add))), "append: lint ok");
    assert_eq!(text_of(&h.decide(&ran(0, " plain words \n", ""), None)), "append: plain words");
    assert_eq!(text_of(&h.decide(&ran(1, "", "ignored"), None)), "continue");
}

#[test]
fn hook_chain_combination_and_matching() {
    let combined = combine_decisions(vec![
        HookDecision::AppendContext("a".into()),
        HookDecision::Continue,
        HookDecision::AppendContext("b".into()),
    ]);
    assert_eq!(text_of(&combined), "append: a\nb");
    let blocked = combine_decisions(vec![
        HookDecision::AppendContext("a".into()),
        HookDecision::Block("no".into()),
        HookDecision::Block("later".into()),
    ]);
    assert_eq!(text_of(&blocked), "block: no");
    assert_eq!(text_of(&combine_decisions(vec![])), "continue");
    let h = hook("x");
    let bash = HookEvent::PreToolUse { tool: "Bash".into(), input: "{\"command\":\"ls\"}".into() };
    let read = HookEvent::PreToolUse { tool: "Read".into(), input: "{}".into() };
    assert!(h.applies(&bash));
    assert!(!h.applies(&read));
    assert_eq!(
        h.payload(&bash, "/p"),
        "{\"hook_event_name\":\"PreToolUse\",\"tool_name\":\"Bash\",\"tool_input\":{\"command\":\"ls\"},\"cwd\":\"/p\"}"
    );
}

fn no_sources() -> ConfigSources {
    ConfigSources {
        user_file: None,
        user_api_key: None,
        project_mode: None,
        project_strictness: None,
        project_hooks: None,
        env_api_key: None,
        env_base_url: None,
        env_model: None,
        env_strictness: None,
    }
}

fn no_flags() -> CliSettings {
    CliSettings {
        model: None,
        permission_mode: None,
        permission_strictness: None,
        max_turns: None,
        no_auto_route: false,
        verbose: false,
    }
}

#[test]
fn configuration_defaults() {
    let c = Config::load("/home/u/.arcee".into(), "/work".into(), no_sources(), no_flags());
    assert_eq!(c.model, "trinity-large-thinking");
    assert_eq!(c.base_url, "https://api.arcee.ai");
    assert_eq!(c.api_key, "");
    assert_eq!(c.max_turns, 200);
    assert_eq!(c.max_tokens, 16384);
    assert!(c.auto_model_routing);
    assert_eq!(c.intensity, Intensity::Medium);
    assert_eq!(c.permission_mode, PermissionMode::Default);
    assert_eq!(c.permission_strictness, PermissionStrictness::Medium);
    assert_eq!(c.cwd, "/work");
}

#[test]
fn configuration_layers() {
    let mut src = no_sources();
    src.user_api_key = Some("file-key".into());
    src.env_model = Some("env-model".into());
    src.env_strictness = Some("LOW".into());
    src.project_mode = Some("plan".into());
    let mut cli = no_flags();
    cli.model = Some("cli-model".into());
    cli.max_turns = Some(0);
    cli.no_auto_route = true;
    let c = Config::load("/c".into(), "/w".into(), src, cli);
    assert_eq!(c.model, "cli-model");
    assert_eq!(c.api_key, "file-key");
    assert_eq!(c.permission_strictness, PermissionStrictness::Low);
    assert_eq!(c.permission_mode, PermissionMode::Plan);
    assert_eq!(c.max_turns, 1);
    assert!(!c.auto_model_routing);
    let mut src = no_sources();
    src.user_api_key = Some("file-key".into());
    src.env_api_key = Some("env-key".into());
    src.project_mode = Some("sideways".into());
    let mut cli = no_flags();
    cli.permission_mode = Some(PermissionMode::Bypass);
    let c = Config::load("/c".into(), "/w".into(), src, cli);
    assert_eq!(c.api_key, "env-key");
    assert_eq!(c.permission_mode, PermissionMode::Bypass);
}

fn delta_chunk(content: Option<&str>, calls: Option<Vec<ToolCallDelta>>, finish: Option<&str>) -> ChatCompletionResponse {
    ChatCompletionResponse {
        id: "r1".into(),
        object: "chunk".into(),
        created: 0,
        model: "m".into(),
        choices: vec![Choice {
            index: 0,
            message: None,
            delta: Some(ResponseDelta {
                role: None,
                content: content.map(|s| s.to_string()),
                tool_calls: calls,
                reasoning: None,
            }),
            finish_reason: finish.map(|s| s.to_string()),
        }],
        usage: None,
    }
}

fn call_delta(index: usize, id: Option<&str>, name: Option<&str>, args: Option<&str>) -> ToolCallDelta {
    ToolCallDelta {
        index,
        id: id.map(|s| s.to_string()),
        call_type: None,
        function: Some(FunctionCallDelta {
            name: name.map(|s| s.to_string()),
            arguments: args.map(|s| s.to_string()),
        }),
    }
}

#[test]
fn streamed_reply_is_assembled() {
    let mut acc = StreamAccumulator::new();
    acc.process_chunk(&delta_chunk(Some("Hel"), None, None));
    acc.process_chunk(&delta_chunk(Some("lo"), Some(vec![call_delta(0, Some("t1"), Some("Read"), Some("{\"file_"))]), None));
    acc.process_chunk(&delta_chunk(None, Some(vec![call_delta(0, None, None, Some("path\": \"/a\"}"))]), None));
    acc.process_chunk(&delta_chunk(None, Some(vec![call_delta(1, Some("t2"), Some("Glob"), Some("not json"))]), Some("tool_calls")));
    assert_eq!(acc.text, "Hello");
    assert_eq!(acc.message_id, "r1");
    assert_eq!(acc.stop_reason(), StopReason::ToolUse);
    let blocks = acc.into_content_blocks();
    assert_eq!(blocks.len(), 3);
    match &blocks[0] {
        ContentBlock::Text { text } => assert_eq!(text, "Hello"),
        _ => panic!("expected text"),
    }
    match &blocks[1] {
        ContentBlock::ToolUse { id, name, input } => {
            assert_eq!((id.as_str(), name.as_str(), input.as_str()), ("t1", "Read", "{\"file_path\":\"/a\"}"))
        }
        _ => panic!("expected a tool call"),
    }
    match &blocks[2] {
        ContentBlock::ToolUse { input, .. } => assert_eq!(input, "{}"),
        _ => panic!("expected a tool call"),
    }
}

#[test]
fn fragments_of_one_call_accumulate_at_its_position() {
    let mut acc = StreamAccumulator::new();
    acc.process_chunk(&delta_chunk(None, Some(vec![call_delta(2, Some("c1"), Some("Read"), Some("{\"a\""))]), None));
    acc.process_chunk(&delta_chunk(None, Some(vec![call_delta(2, None, None, Some(":1"))]), None));
    acc.process_chunk(&delta_chunk(None, Some(vec![call_delta(2, Some("c2"), None, Some("}"))]), None));
    assert_eq!(acc.tool_calls.len(), 3);
    for k in 0..2 {
        assert_eq!(acc.tool_calls[k].id, "");
        assert_eq!(acc.tool_calls[k].name, "");
        assert_eq!(acc.tool_calls[k].arguments, "");
    }
    assert_eq!(acc.tool_calls[2].id, "c2");
    assert_eq!(acc.tool_calls[2].name, "Read");
    assert_eq!(acc.tool_calls[2].arguments, "{\"a\":1}");
}

#[test]
fn event_lines_split_into_payloads() {
    let (payloads, rest) = take_payloads("data: {\"a\":1}\r\n: keep-alive\n\ndata: [DONE]\n{\"b\":2}\ndata: {\"c\"");
    assert_eq!(payloads, vec!["{\"a\":1}".to_string(), "{\"b\":2}".to_string()]);
    assert_eq!(rest, "data: {\"c\"");
}

#[test]
fn conversation_on_the_wire() {
    let messages = vec![
        Message::user_text("hi"),
        Message::Assistant(AssistantMessage {
            content: vec![
                ContentBlock::Thinking { thinking: "t".into() },
                ContentBlock::Text { text: "a".into() },
                ContentBlock::ToolUse { id: "t1".into(), name: "Read".into(), input: "{}".into() },
            ],
            stop_reason: StopReason::ToolUse,
            usage: Usage { input_tokens: 1, output_tokens: 1, cache_creation_input_tokens: None, cache_read_input_tokens: None },
        }),
        Message::tool_results(vec![("t1".into(), "res".into(), false)]),
    ];
    let chats = normalize_for_api(&messages);
    assert_eq!(chats.len(), 3);
    assert_eq!((chats[0].role.as_str(), chats[0].content.as_deref()), ("user", Some("hi")));
    assert_eq!(chats[1].role, "assistant");
    assert_eq!(chats[1].content.as_deref(), Some("<thinking>\nt\n</thinking>\na"));
    let calls = chats[1].tool_calls.as_ref().unwrap();
    assert_eq!((calls[0].id.as_str(), calls[0].call_type.as_str(), calls[0].function.name.as_str()), ("t1", "function", "Read"));
    assert_eq!((chats[2].role.as_str(), chats[2].tool_call_id.as_deref(), chats[2].content.as_deref()), ("tool", Some("t1"), Some("res")));
}

#[test]
fn background_task_bookkeeping() {
    let mut store = BackgroundTaskStore::new();
    let a = store.register("build".into(), "bash".into(), 10);
    let b = store.register("test".into(), "bash".into(), 20);
    assert_eq!((a.as_str(), b.as_str()), ("1", "2"));
    store.complete(&a, "ok".into(), 30);
    store.fail(&b, "boom".into(), 40);
    store.complete("99", "nobody".into(), 50);
    assert_eq!(store.get(&a).unwrap().status, BackgroundTaskStatus::Completed);
    assert_eq!(store.get(&b).unwrap().result.as_deref(), Some("boom"));
    assert_eq!(store.get(&a).unwrap().elapsed_nanos(1000), 20);
    let done = store.drain_completed();
    assert_eq!(done.iter().map(|t| t.id.clone()).collect::<Vec<_>>(), vec!["1".to_string(), "2".to_string()]);
    assert!(store.drain_completed().is_empty());
    assert_eq!(store.list().len(), 2);
}
