use arcee_code::api_errors::ApiError;
use arcee_code::commands::{handle_command, CommandResult, CommandStep};
use arcee_code::compact::{compact_messages, estimate_tokens, summary_from_reply, summary_request, tokens_for};
use arcee_code::engine::{
    after_api_error, cap_tool_result, CallStop, long_result_note, notification_message, reply_contents, result_preview,
    should_auto_compact, tool_result_line, tool_uses, validate_tool_input, with_hook_output, ApiStep,
    LoopState, PropSpec, ReplyKind, ToolKind, ToolSchema,
};
use arcee_code::background_tasks::{BackgroundTask, BackgroundTaskStatus};
use arcee_code::events::StatusLevel;
use arcee_code::messages::{ContentBlock, Message, StopReason, SystemMessageType};
use arcee_code::model_router::{pick_model, Intensity};
use arcee_code::permissions::PermissionStrictness;
use arcee_code::tool_input::{ArgField, ArgValue, ToolInput};

fn texts(ns: &[arcee_code::engine::Notice]) -> Vec<String> {
    ns.iter().map(|n| n.text.clone()).collect()
}

#[test]
fn three_empty_replies_end_the_loop() {
    let msgs: Vec<Message> = Vec::new();
    let mut st = LoopState::new();
    st.turns = 1;
    let s1 = st.after_reply(StopReason::EndTurn, false, false, "custom", &msgs, false, Intensity::Medium);
    assert_eq!(s1.kind, ReplyKind::FirstEmptyNudge);
    assert_eq!(
        s1.prompt.as_deref(),
        Some("You returned an empty response. Please continue your analysis based on the tool results above. Summarize what you found and proceed with the next step.")
    );
    assert_eq!(texts(&s1.notices), vec!["[warning: empty end_turn (attempt 1/3), injecting nudge]"]);
    assert_eq!(st.turns, 2);
    let s2 = st.after_reply(StopReason::EndTurn, false, false, "custom", &msgs, false, Intensity::Medium);
    assert_eq!(s2.kind, ReplyKind::SecondEmptyNudge);
    assert_eq!(
        texts(&s2.notices),
        vec!["[warning: empty end_turn (attempt 2/3), switching to 'trinity-large-thinking']"]
    );
    assert_eq!(st.next_model("custom", &msgs, false, Intensity::Medium), "trinity-large-thinking");
    assert_eq!(st.next_model("custom", &msgs, false, Intensity::Medium), "custom");
    let s3 = st.after_reply(StopReason::EndTurn, false, false, "custom", &msgs, false, Intensity::Medium);
    assert_eq!(s3.kind, ReplyKind::EmptyExhausted);
    assert_eq!(s3.prompt, None);
    assert_eq!(
        texts(&s3.notices),
        vec!["[loop exit: empty end_turn 3 times at turn 3, recovery exhausted]"]
    );
}

#[test]
fn second_empty_reply_on_heavy_model_keeps_it() {
    let msgs: Vec<Message> = Vec::new();
    let mut st = LoopState::new();
    st.turns = 4;
    st.after_reply(StopReason::EndTurn, false, false, "trinity-large-thinking", &msgs, false, Intensity::Medium);
    let s2 = st.after_reply(StopReason::EndTurn, false, false, "trinity-large-thinking", &msgs, false, Intensity::Medium);
    assert_eq!(texts(&s2.notices), vec!["[warning: empty end_turn (attempt 2/3), retrying with nudge]"]);
}

#[test]
fn end_turn_with_text_or_on_first_turn_finishes() {
    let msgs: Vec<Message> = Vec::new();
    let mut st = LoopState::new();
    let s = st.after_reply(StopReason::EndTurn, false, false, "custom", &msgs, false, Intensity::Medium);
    assert_eq!(s.kind, ReplyKind::Finished);
    assert_eq!(texts(&s.notices), vec!["[loop exit: model returned end_turn at turn 0]"]);
    let mut st = LoopState::new();
    st.turns = 7;
    let s = st.after_reply(StopReason::EndTurn, true, false, "custom", &msgs, false, Intensity::Medium);
    assert_eq!(s.kind, ReplyKind::Finished);
    assert_eq!(st.turns, 7);
}

#[test]
fn max_tokens_is_continued_three_times() {
    let msgs: Vec<Message> = Vec::new();
    let mut st = LoopState::new();
    for k in 1..=3 {
        let s = st.after_reply(StopReason::MaxTokens, true, false, "custom", &msgs, false, Intensity::Medium);
        assert_eq!(s.kind, ReplyKind::ContinueNudge);
        assert_eq!(s.prompt.as_deref(), Some("Continue from where you left off. Do not repeat what you already said."));
        assert_eq!(texts(&s.notices), vec![format!("[max_tokens hit, recovery attempt {k}/3]")]);
        assert!(s.notices[0].verbose_only);
    }
    let s = st.after_reply(StopReason::MaxTokens, true, false, "custom", &msgs, false, Intensity::Medium);
    assert_eq!(s.kind, ReplyKind::MaxTokensExhausted);
    assert_eq!(
        texts(&s.notices),
        vec![
            "[loop exit: max_tokens hit 3 times, unrecoverable at turn 3]".to_string(),
            "(max tokens reached, could not recover)".to_string()
        ]
    );
    assert_eq!(s.notices[0].level, StatusLevel::Error);
}

#[test]
fn tool_use_and_other_stops() {
    let msgs: Vec<Message> = Vec::new();
    let mut st = LoopState::new();
    let s = st.after_reply(StopReason::ToolUse, false, true, "custom", &msgs, false, Intensity::Medium);
    assert_eq!(s.kind, ReplyKind::RunTools);
    assert!(s.notices.is_empty());
    let s = st.after_reply(StopReason::StopSequence, true, false, "custom", &msgs, false, Intensity::Medium);
    assert_eq!(s.kind, ReplyKind::NoTools);
}

fn call(id: &str, name: &str, input: &str) -> (String, String, String) {
    (id.to_string(), name.to_string(), input.to_string())
}

#[test]
fn repeated_tool_calls_are_warned_then_stopped() {
    let calls = vec![call("c1", "Read", "{\"file_path\":\"/a\"}")];
    let mut st = LoopState::new();
    assert_eq!(st.after_tool_calls(&calls).kind, ToolKind::Execute);
    assert_eq!(st.after_tool_calls(&calls).kind, ToolKind::Execute);
    let w = st.after_tool_calls(&calls);
    assert_eq!(w.kind, ToolKind::WarnRepeated);
    assert_eq!(texts(&w.notices), vec!["[stuck-loop detected: same tool call repeated 3 times, injecting warning]"]);
    assert_eq!(w.results.len(), 1);
    assert_eq!(w.results[0].0, "c1");
    assert!(w.results[0].2);
    assert!(w.results[0].1.starts_with(
        "STOP: You have called the exact same tool(s) (Read) with the exact same arguments 3 times in a row"
    ));
    assert_eq!(st.turns, 1);
    assert_eq!(st.after_tool_calls(&calls).kind, ToolKind::WarnRepeated);
    let f = st.after_tool_calls(&calls);
    assert_eq!(f.kind, ToolKind::ForceStop);
    let abort = "The AI got stuck calling Read repeatedly with the same arguments and could not recover. Please try rephrasing your request.";
    assert_eq!(
        texts(&f.notices),
        vec!["[stuck-loop: model ignored warnings, force-stopping after 5 repeats]".to_string(), abort.to_string()]
    );
    assert_eq!(f.results[0].1, abort);
}

#[test]
fn batch_order_does_not_matter_but_new_calls_reset() {
    let ab = vec![call("1", "Read", "{\"a\":1}"), call("2", "Grep", "{\"b\":2}")];
    let ba = vec![call("3", "Grep", "{\"b\":2}"), call("4", "Read", "{\"a\":1}")];
    let other = vec![call("5", "Read", "{\"a\":2}")];
    let mut st = LoopState::new();
    st.after_tool_calls(&ab);
    st.after_tool_calls(&ba);
    assert_eq!(st.after_tool_calls(&ab).kind, ToolKind::WarnRepeated);
    assert_eq!(st.after_tool_calls(&other).kind, ToolKind::Execute);
    assert_eq!(st.repeated_tool_count, 1);
    assert_eq!(st.last_tool_names, vec!["Read".to_string()]);
}

#[test]
fn turn_limit_and_validation_escalation() {
    let msgs: Vec<Message> = Vec::new();
    let mut st = LoopState::new();
    let (stop, notices) = st.finish_turn(false, "trinity-mini", 2);
    assert!(!stop);
    assert!(notices.is_empty());
    let (stop, notices) = st.finish_turn(true, "trinity-mini", 2);
    assert!(stop);
    assert_eq!(
        texts(&notices),
        vec![
            "[validation failure on light model, escalating to heavy]".to_string(),
            "[loop exit: max turns limit (2) reached]".to_string(),
            "Max turns (2) reached.".to_string()
        ]
    );
    assert_eq!(st.turns, 2);
    assert_eq!(st.next_model("trinity-mini", &msgs, true, Intensity::Low), "trinity-large-thinking");
}

#[test]
fn api_errors_compact_retry_or_fail() {
    let (step, n, notice) = after_api_error(&ApiError::ContextTooLong("big".into()), 0);
    assert_eq!(step, ApiStep::Compact);
    assert_eq!(n, 0);
    assert_eq!(notice.text, "[context too long, compacting...]");
    let (step, n, notice) = after_api_error(&ApiError::Server("boom".into()), 0);
    assert_eq!(step, ApiStep::Retry { delay_secs: 2 });
    assert_eq!(n, 1);
    assert_eq!(notice.text, "[transient API error: Server error: boom — retrying in 2s (1/3)]");
    let (step, n, _) = after_api_error(&ApiError::Server("boom".into()), 2);
    assert_eq!(step, ApiStep::Retry { delay_secs: 8 });
    assert_eq!(n, 3);
    let (step, n, notice) = after_api_error(&ApiError::Server("boom".into()), 3);
    assert_eq!(step, ApiStep::Fail);
    assert_eq!(n, 3);
    assert_eq!(notice.text, "[query_loop exiting: API error after 3 retries: Server error: boom]");
    let (step, _, notice) = after_api_error(&ApiError::RateLimit { retry_after_secs: Some(7) }, 1);
    assert_eq!(step, ApiStep::Retry { delay_secs: 7 });
    assert_eq!(notice.text, "[transient API error: Rate limited: retry after Some(7)s — retrying in 7s (2/3)]");
    let (step, _, notice) = after_api_error(&ApiError::Auth("bad key".into()), 0);
    assert_eq!(step, ApiStep::Fail);
    assert_eq!(notice.text, "[query_loop exiting: API error after 0 retries: Authentication error: bad key]");
}

#[test]
fn compaction_trigger() {
    assert!(should_auto_compact(80_001, 13));
    assert!(!should_auto_compact(80_000, 13));
    assert!(!should_auto_compact(90_000, 12));
}

#[test]
fn tool_results_capped_previewed_and_annotated() {
    let long = "a".repeat(50_001);
    let capped = cap_tool_result(long.clone());
    assert_eq!(capped, format!("{}\n\n... (truncated, 50001 total chars)", "a".repeat(50_000)));
    assert_eq!(cap_tool_result("short".into()), "short");
    assert_eq!(result_preview("first line\nsecond"), "first line");
    assert_eq!(result_preview(&"é".repeat(600)).chars().count(), 500);
    assert_eq!(tool_result_line("ok", false), (StatusLevel::Dim, "  ok".to_string()));
    assert_eq!(tool_result_line("no", true), (StatusLevel::Error, "  Error: no".to_string()));
    assert_eq!(long_result_note(&"x".repeat(501)), Some("  ... (501 total chars)".to_string()));
    assert_eq!(long_result_note(&"x".repeat(500)), None);
    assert_eq!(with_hook_output("out".into(), ""), "out");
    assert_eq!(with_hook_output("out".into(), "note"), "out\n\n--- Hook Output ---\nnote");
}

fn field(key: &str, value: ArgValue, rendered: &str) -> ArgField {
    ArgField { key: key.to_string(), value, rendered: rendered.to_string() }
}

#[test]
fn tool_input_validation_messages() {
    let schema = ToolSchema {
        required: vec!["command".to_string()],
        properties: Some(vec![
            PropSpec {
                name: "command".to_string(),
                json_type: Some("string".to_string()),
                description: Some("The command to execute".to_string()),
            },
            PropSpec { name: "timeout".to_string(), json_type: Some("number".to_string()), description: None },
        ]),
    };
    let empty = ToolInput { fields: Some(vec![]), rendered: "{}".to_string() };
    let err = validate_tool_input(&schema, &empty).unwrap();
    assert!(err.starts_with(
        "Missing required parameter(s): command. You MUST provide these parameters.\n  - command (string): The command to execute"
    ));
    assert!(err.contains("Your tool call had NO arguments at all."));
    let wrong = ToolInput {
        fields: Some(vec![
            field("command", ArgValue::Str("ls".into()), "\"ls\""),
            field("timeout", ArgValue::Str("soon".into()), "\"soon\""),
        ]),
        rendered: String::new(),
    };
    assert_eq!(
        validate_tool_input(&schema, &wrong),
        Some("Parameter 'timeout' must be type 'number', got: \"soon\"".to_string())
    );
    let fine = ToolInput {
        fields: Some(vec![field("command", ArgValue::Str("ls".into()), "\"ls\"")]),
        rendered: String::new(),
    };
    assert_eq!(validate_tool_input(&schema, &fine), None);
}

#[test]
fn tool_calls_of_a_reply() {
    let blocks = vec![
        ContentBlock::Text { text: "hi".into() },
        ContentBlock::ToolUse { id: "t1".into(), name: "Read".into(), input: "{}".into() },
    ];
    assert_eq!(tool_uses(&blocks), vec![call("t1", "Read", "{}")]);
    assert_eq!(reply_contents(&blocks), (true, true));
}

#[test]
fn background_notifications() {
    let task = BackgroundTask {
        id: "1".into(),
        description: "build".into(),
        agent_type: "bash".into(),
        status: BackgroundTaskStatus::Completed,
        result: Some("done".into()),
        started_at: 0,
        completed_at: Some(5),
    };
    let m = notification_message(&vec![task.duplicate()], &vec!["2.5".to_string()]).unwrap();
    assert_eq!(
        m,
        "<task_notification>\n<task_id>1</task_id>\n<status>completed</status>\n<description>build</description>\n<duration>2.5s</duration>\n<result>\ndone\n</result>\n</task_notification>"
    );
    assert_eq!(notification_message(&vec![], &vec![]), None);
}

fn user(text: &str) -> Message {
    Message::user_text(text)
}

#[test]
fn model_routing_by_turn_and_intensity() {
    let short = vec![user("ok")];
    let long = vec![user(&"x".repeat(200))];
    let none: Vec<String> = Vec::new();
    let reads = vec!["Read".to_string()];
    let edits = vec!["Edit".to_string()];
    assert_eq!(pick_model("trinity-large-thinking", &short, &none, 0, true, Intensity::Medium), "trinity-large-thinking");
    assert_eq!(pick_model("trinity-large-thinking", &short, &reads, 3, true, Intensity::Medium), "trinity-mini");
    assert_eq!(pick_model("trinity-large-thinking", &short, &edits, 3, true, Intensity::Medium), "trinity-large-thinking");
    assert_eq!(pick_model("trinity-large-thinking", &short, &none, 3, true, Intensity::Medium), "trinity-mini");
    assert_eq!(pick_model("trinity-large-thinking", &long, &none, 3, true, Intensity::Medium), "trinity-large-thinking");
    assert_eq!(pick_model("trinity-mini", &short, &reads, 3, true, Intensity::High), "trinity-large-thinking");
    assert_eq!(pick_model("trinity-large-thinking", &long, &none, 3, true, Intensity::Low), "trinity-mini");
    assert_eq!(pick_model("trinity-mini", &short, &edits, 3, false, Intensity::High), "trinity-mini");
    assert_eq!(pick_model("other-model", &short, &edits, 3, true, Intensity::High), "other-model");
}

#[test]
fn token_estimates_and_compaction() {
    assert_eq!(tokens_for(38), 10);
    assert_eq!(tokens_for(3), 0);
    let msgs: Vec<Message> = (0..5).map(|i| user(&format!("message {i} {}", "y".repeat(28)))).collect();
    assert_eq!(estimate_tokens(&msgs), 5 * 38 * 5 / 19);
    let kept = compact_messages(&msgs, 2);
    assert_eq!(kept.len(), 3);
    match &kept[0] {
        Message::System(s) => assert_eq!(s.message_type, SystemMessageType::CompactBoundary),
        _ => panic!("expected the summary first"),
    }
    let request = summary_request(&msgs[..3]);
    assert!(request.starts_with("Summarize this conversation (3 messages, ~30 tokens):\n\n"));
    let summary = summary_from_reply(&msgs[..3], Some("  the gist  "));
    assert_eq!(summary, "[Context compacted — 3 earlier messages summarized by AI]\n\nthe gist");
    assert_eq!(compact_messages(&msgs, 10).len(), 5);
}

#[test]
fn slash_commands() {
    let mut msgs = vec![user("a"), user("b")];
    let mut strictness = PermissionStrictness::Medium;
    let mut intensity = Intensity::Medium;
    match handle_command("/strictness LOW", &mut msgs, "m", &mut strictness, &mut intensity) {
        CommandStep::Done(CommandResult::Output(t)) => assert_eq!(t, "Permission strictness set to: LOW."),
        _ => panic!("expected output"),
    }
    assert_eq!(strictness, PermissionStrictness::Low);
    match handle_command("/intensity high", &mut msgs, "m", &mut strictness, &mut intensity) {
        CommandStep::Done(CommandResult::Output(t)) => {
            assert_eq!(t, "Intensity set to: high — always use large-thinking model (expensive, best quality)")
        }
        _ => panic!("expected output"),
    }
    assert_eq!(intensity, Intensity::High);
    match handle_command("/model", &mut msgs, "trinity-mini", &mut strictness, &mut intensity) {
        CommandStep::Done(CommandResult::Output(t)) => assert_eq!(
            t,
            "Current model: trinity-mini\nAvailable: trinity-mini, trinity-large-thinking\nUsage: /model <name>"
        ),
        _ => panic!("expected output"),
    }
    assert!(matches!(handle_command("/compact", &mut msgs, "m", &mut strictness, &mut intensity), CommandStep::Compact));
    assert!(matches!(handle_command("/cost", &mut msgs, "m", &mut strictness, &mut intensity), CommandStep::Cost));
    assert!(matches!(
        handle_command("/quit", &mut msgs, "m", &mut strictness, &mut intensity),
        CommandStep::Done(CommandResult::Exit)
    ));
    match handle_command("/frobnicate now", &mut msgs, "m", &mut strictness, &mut intensity) {
        CommandStep::Done(CommandResult::Unknown(t)) => {
            assert_eq!(t, "Unknown command: /frobnicate. Type /help for available commands.")
        }
        _ => panic!("expected unknown"),
    }
    assert_eq!(msgs.len(), 2);
    match handle_command("/clear", &mut msgs, "m", &mut strictness, &mut intensity) {
        CommandStep::Done(CommandResult::Output(t)) => assert_eq!(t, "Conversation cleared."),
        _ => panic!("expected output"),
    }
    assert!(msgs.is_empty());
}

#[test]
fn stopped_calls_are_answered_and_noticed() {
    assert_eq!(CallStop::UnknownTool("Fly".into()).result_text(), "Unknown tool: Fly");
    assert_eq!(CallStop::Denied("rule".into()).result_text(), "Permission denied: rule");
    assert_eq!(CallStop::UserDenied.result_text(), "User denied permission");
    assert_eq!(CallStop::PromptFailed("eof".into()).result_text(), "Permission prompt error: eof");
    assert_eq!(CallStop::BlockedByHook("no".into()).result_text(), "Blocked by hook: no");
    assert_eq!(CallStop::ExecutionFailed("boom".into()).result_text(), "Tool execution error: boom");
    assert_eq!(CallStop::Interrupted.result_text(), "Interrupted by user");
    assert_eq!(CallStop::InvalidInput("Missing x".into()).result_text(), "Missing x");
    assert_eq!(
        CallStop::Interrupted.notice("Bash", 4),
        Some("[interrupted by user during tool execution at turn 4]".to_string())
    );
    assert_eq!(
        CallStop::InvalidInput("Missing x".into()).notice("Read", 1),
        Some("[tool 'Read' input validation failed: Missing x]".to_string())
    );
    assert_eq!(CallStop::BlockedByHook("no".into()).notice("Bash", 1), Some("[hook blocked Bash: no]".to_string()));
    assert_eq!(CallStop::UserDenied.notice("Bash", 1), None);
}
