use arcee_code::messages::{AssistantMessage, ContentBlock, Message, StopReason, Usage};
use arcee_code::permissions::PermissionMode;
use arcee_code::tool_input::{ArgField, ArgValue, ToolInput};
use arcee_code::tools::agent::{extract_final_text, last_reply_text, AgentTool};
use arcee_code::tools::ask_user::{AskUserTool, Question, QuestionOption};
use arcee_code::tools::bash::{combine_output, int_string, BashRequest, BashTool};
use arcee_code::tools::glob::{GlobRequest, GlobTool};
use arcee_code::tools::plan_mode::{EnterPlanModeTool, ExitPlanModeTool};
use arcee_code::tools::worktree::{EnterWorktreeTool, ExitStep, ExitWorktreeTool};
use arcee_code::tools::write::{WriteRequest, WriteTool};
use arcee_code::tools::{Early, PermissionClass};

fn input(fields: Vec<(&str, ArgValue)>) -> ToolInput {
    ToolInput {
        fields: Some(
            fields
                .into_iter()
                .map(|(k, v)| ArgField { key: k.to_string(), value: v, rendered: String::new() })
                .collect(),
        ),
        rendered: String::new(),
    }
}

fn s(v: &str) -> ArgValue {
    ArgValue::Str(v.to_string())
}

#[test]
fn bash_request_clamps_timeout() {
    let q = BashTool::request(&input(vec![("command", s("ls")), ("timeout", ArgValue::Number(Some(5)))])).ok().unwrap();
    assert_eq!(q.timeout_ms, 1000);
    assert_eq!(q.description, "ls");
    let q = BashTool::request(&input(vec![("command", s("ls")), ("timeout", ArgValue::Number(Some(9_999_999)))])).ok().unwrap();
    assert_eq!(q.timeout_ms, 600_000);
    let q = BashTool::request(&input(vec![("command", s("ls"))])).ok().unwrap();
    assert_eq!(q.timeout_ms, 120_000);
    match BashTool::request(&input(vec![("command", s("   "))])) {
        Err(Early::Output(o)) => assert_eq!(o.render(), "Command cannot be empty"),
        _ => panic!("expected an error output"),
    }
}

#[test]
fn bash_output_shaping() {
    assert_eq!(combine_output("", ""), "(no output)");
    assert_eq!(combine_output("a", "b"), "a\nb");
    assert_eq!(combine_output("", "b"), "b");
    assert_eq!(int_string(-1), "-1");
    let req = BashRequest { command: "x".into(), timeout_ms: 1000, run_in_background: false, full: false, description: "x".into() };
    let ok = BashTool::finished(&req, "out", "", 0, 12);
    assert_eq!(ok.render(), "exit=0, 12 ms\n\nout");
    let bad = BashTool::finished(&req, "", "err", 2, 5);
    assert!(bad.is_error);
    assert_eq!(bad.render(), "err");
    assert_eq!(BashTool::timed_out(&req).render(), "Command timed out after 1000ms");
    assert_eq!(BashTool::background_outcome("", "oops", 3), (true, "Exit code 3\noops".to_string()));
    assert_eq!(BashTool::pick_shell(Some("/bin/zsh".into())), "/bin/zsh");
    assert_eq!(BashTool::pick_shell(Some("/bin/fish".into())), "bash");
}

#[test]
fn glob_listing_and_table() {
    assert_eq!(GlobTool::rg_files("a.rs\n\nsub/b.rs\n", "/p"), vec!["/p/sub/b.rs".to_string(), "/p/a.rs".to_string()]);
    let req = GlobTool::request(&input(vec![("pattern", s("*.rs")), ("path", s("src"))]), "/p").ok().unwrap();
    assert_eq!(req.base, "/p/src");
    let files = vec!["/p/src/a.rs".to_string(), "/q/b.rs".to_string()];
    let o = GlobTool::shape(&req, "/p", &files, &vec![("1.0K".to_string(), "2024-01-01".to_string())]);
    assert_eq!(
        o.render(),
        "2 file(s) matched \"*.rs\"\n\nfiles [2]:\n  path | size | modified\n  src/a.rs | 1.0K | 2024-01-01\n  /q/b.rs | ? | ?\n\nNext:\n - Use Read on individual files or Grep to search their content"
    );
    let none = GlobTool::shape(&GlobRequest { pattern: "x".into(), base: "/p".into(), full: false }, "/p", &vec![], &vec![]);
    assert_eq!(
        none.render(),
        "0 files matched\n\n0 results. Pattern \"x\" did not match any files.\n\nNext:\n - Try a broader pattern or verify the path; use Grep for content search"
    );
}

#[test]
fn write_outputs() {
    let req = WriteRequest { file_path: "a".into(), content: "x".into() };
    assert!(!WriteTool::too_large(&req));
    assert_eq!(
        WriteTool::written("/t/a.txt", true, "one\ntwo\n").render(),
        "Created /t/a.txt (2 lines, 8 bytes)\n\nFile /t/a.txt was created.\n\nNext:\n - Use Read to verify the new contents if needed"
    );
    assert!(WriteTool::written("/t/b", false, "").render().starts_with("Updated /t/b (1 lines, 0 bytes)"));
    assert!(matches!(WriteTool::request(&input(vec![("file_path", s("a"))])), Err(Early::Fail(_))));
}

#[test]
fn ask_user_questions() {
    let qs = vec![
        Question {
            question: Some("Pick one".into()),
            options: Some(vec![
                QuestionOption { label: Some("A".into()), description: Some("first".into()) },
                QuestionOption { label: None, description: None },
            ]),
        },
        Question { question: None, options: None },
    ];
    assert_eq!(AskUserTool::question(&Some(qs), None).unwrap(), "Pick one\n  1. A — first\n  2. ? — \n\n(no question)");
    assert_eq!(AskUserTool::question(&None, Some("Why?")).unwrap(), "Why?");
    assert_eq!(AskUserTool::question(&None, None).err().unwrap(), "Missing 'questions' parameter");
    assert_eq!(AskUserTool::answered("  yes \n").render(), "User replied with 3 chars\n\nyes");
    assert_eq!(AskUserTool::answered("  ").render(), "0 results. (no response from user)");
}

#[test]
fn plan_mode_round_trip() {
    let mut mode = PermissionMode::Default;
    let (path, o) = EnterPlanModeTool::enter(&mut mode, "/w");
    assert_eq!(mode, PermissionMode::Plan);
    assert_eq!(path.as_deref(), Some("/w/.arcee/plan.md"));
    assert!(o.render().contains("Write your plan to: /w/.arcee/plan.md"));
    let (again, o) = EnterPlanModeTool::enter(&mut mode, "/w");
    assert!(again.is_none());
    assert_eq!(o.render(), "Already in plan mode.");
    let o = ExitPlanModeTool::exit(&mut mode, Some("/w/.arcee/plan.md"), Some("1. do it"));
    assert_eq!(mode, PermissionMode::Default);
    assert!(o.render().contains("## Plan:\n1. do it"));
    let o = ExitPlanModeTool::exit(&mut mode, None, None);
    assert_eq!(o.render(), "Not currently in plan mode.");
}

#[test]
fn worktree_names_and_steps() {
    let n = EnterWorktreeTool::name(&input(vec![]));
    assert!(n.starts_with("arcee-"));
    assert_eq!(n.len(), 14);
    let p = EnterWorktreeTool::plan("feat_1".into(), "/r").ok().unwrap();
    assert_eq!(p.dir, "/r/.arcee/worktrees/feat_1");
    assert_eq!(p.branch, "arcee-worktree-feat_1");
    assert_eq!(EnterWorktreeTool::add_args(&p), vec!["worktree", "add", "-b", "arcee-worktree-feat_1", "/r/.arcee/worktrees/feat_1", "HEAD"]);
    assert!(EnterWorktreeTool::plan("bad name".into(), "/r").is_err());
    assert!(matches!(ExitWorktreeTool::after_status("/x", "  \n"), ExitStep::Remove));
    assert!(matches!(ExitWorktreeTool::after_status("/x", " M a.rs"), ExitStep::Done(_)));
    assert_eq!(ExitWorktreeTool::removed("/x", true, "").render(), "Removed worktree at /x\n\nWorktree /x removed.");
}

#[test]
fn agent_requests_and_answers() {
    assert_eq!(AgentTool::permission(&input(vec![])), PermissionClass::ReadOnly);
    assert_eq!(AgentTool::permission(&input(vec![("subagent_type", s("general"))])), PermissionClass::Ask);
    let q = AgentTool::request(&input(vec![("prompt", s("do")), ("subagent_type", s("general-purpose"))])).ok().unwrap();
    assert_eq!(q.agent_type, "general");
    assert_eq!(q.description, "sub-agent task");
    assert_eq!(AgentTool::tool_names("general").len(), 15);
    assert_eq!(AgentTool::tool_names("explore").len(), 9);
    let msgs = vec![
        Message::Assistant(AssistantMessage {
            content: vec![ContentBlock::Text { text: "first".into() }, ContentBlock::Text { text: "second".into() }],
            stop_reason: StopReason::EndTurn,
            usage: Usage::default(),
        }),
        Message::Assistant(AssistantMessage {
            content: vec![ContentBlock::ToolUse { id: "1".into(), name: "Read".into(), input: "{}".into() }],
            stop_reason: StopReason::ToolUse,
            usage: Usage::default(),
        }),
    ];
    assert_eq!(extract_final_text(&msgs), "first\nsecond");
    assert_eq!(extract_final_text(&vec![]), "(no response from sub-agent)");
    assert_eq!(last_reply_text(&msgs), Some("first\nsecond".to_string()));
    assert_eq!(last_reply_text(&vec![]), None);
}
