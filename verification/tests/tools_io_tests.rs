use arcee_code::tool_input::{ArgField, ArgValue, ToolInput};
use arcee_code::tools::edit::{success_output, EditPlan, EditRequest, EditTool};
use arcee_code::tools::grep::{GrepTool, RgOutcome};
use arcee_code::tools::lsp::{LspCall, LspLocation, LspResult, LspTool};
use arcee_code::tools::read::{ReadRequest, ReadTool};
use arcee_code::tools::Early;

fn input(fields: Vec<(&str, ArgValue)>) -> ToolInput {
    ToolInput {
        fields: Some(
            fields
                .into_iter()
                .map(|(k, v)| ArgField { key: k.to_string(), value: v, rendered: String::new() })
                .collect(),
        ),
        rendered: String::new(),
    }
}

fn s(v: &str) -> ArgValue {
    ArgValue::Str(v.to_string())
}

fn read_req(offset: Option<u64>, limit: Option<u64>, full: bool) -> ReadRequest {
    ReadRequest { file_path: "f.txt".into(), full, offset, limit }
}

#[test]
fn read_windows_of_a_file() {
    let o = ReadTool::render_window("/p/f.txt", "a\nb\nc\n", 6, "0.0", &read_req(None, Some(2), false));
    let text = o.render();
    assert!(text.starts_with("/p/f.txt: 3 lines (0.0 KB)\n\n    1→a\n    2→b\n"));
    assert!(text.contains("[truncated: shown 2/3 lines. call Read again with offset=3, or full=true for the whole file]"));
    assert!(text.ends_with("Next:\n - Read more with offset=3 limit=2000"));
    let all = ReadTool::render_window("/p/f.txt", "a\nb\nc\n", 6, "0.0", &read_req(Some(2), Some(2), true));
    assert_eq!(all.render(), "/p/f.txt: 3 lines (0.0 KB)\n\n    2→b\n    3→c\n");
    let empty = ReadTool::render_window("/p/e.txt", "", 0, "0.0", &read_req(None, None, false));
    assert_eq!(empty.render(), "/p/e.txt: empty file\n\n0 results. /p/e.txt is empty (0 lines, 0 bytes).");
    let past = ReadTool::render_window("/p/f.txt", "a\n", 2, "0.0", &read_req(Some(5), None, false));
    assert!(past.is_error);
    assert_eq!(past.render(), "Offset 5 exceeds file length (1 lines).");
    match ReadTool::request(&input(vec![("full", ArgValue::Bool(true))])) {
        Err(Early::Fail(m)) => assert_eq!(m, "Missing 'file_path' parameter"),
        _ => panic!("expected a failed call"),
    }
}

fn edit_req(old: &str, new: &str, all: bool) -> EditRequest {
    EditRequest { file_path: "/f".into(), old_string: old.into(), new_string: new.into(), replace_all: all }
}

fn written(p: EditPlan) -> (String, usize) {
    match p {
        EditPlan::Write { content, replacements } => (content, replacements),
        EditPlan::Refuse(o) => panic!("refused: {}", o.render()),
    }
}

fn refused(p: EditPlan) -> String {
    match p {
        EditPlan::Refuse(o) => o.render(),
        EditPlan::Write { .. } => panic!("expected a refusal"),
    }
}

#[test]
fn edits_replace_exactly_what_was_asked() {
    assert_eq!(written(EditTool::plan("/f", "a = 1; b = 2;", &edit_req("a = 1", "a = 3", false))), ("a = 3; b = 2;".to_string(), 1));
    assert_eq!(
        refused(EditTool::plan("/f", "x; x;", &edit_req("x", "y", false))),
        "old_string found 2 times in /f. Use replace_all: true or add more context."
    );
    assert_eq!(written(EditTool::plan("/f", "x; x;", &edit_req("x", "y", true))), ("y; y;".to_string(), 2));
    assert_eq!(
        written(EditTool::plan("/f", "say \u{2018}hi\u{2019} now", &edit_req("say 'hi'", "bye", false))),
        ("bye now".to_string(), 1)
    );
    assert_eq!(
        refused(EditTool::plan("/f", "abc", &edit_req("zzz", "y", false))),
        "old_string not found in /f. Make sure it matches exactly. The file may have been modified since you last read it."
    );
    assert_eq!(
        success_output("/f", 2).render(),
        "2 replacements in /f\n\nThe file /f has been updated successfully.\n\nNext:\n - Use Read to verify the edit applied as expected"
    );
    assert!(success_output("/f", 1).render().starts_with("1 replacement in /f\n\n"));
    let same = input(vec![("file_path", s("/f")), ("old_string", s("a")), ("new_string", s("a"))]);
    match EditTool::request(&same) {
        Err(Early::Output(o)) => assert_eq!(o.render(), "old_string and new_string are identical"),
        _ => panic!("expected an error output"),
    }
    let blank = input(vec![("file_path", s("/f")), ("old_string", s("")), ("new_string", s("a"))]);
    match EditTool::request(&blank) {
        Err(Early::Output(o)) => assert_eq!(o.render(), "old_string cannot be empty"),
        _ => panic!("expected an error output"),
    }
}

#[test]
fn grep_command_lines() {
    let req = GrepTool::request(&input(vec![("pattern", s("foo")), ("path", s("src"))]), "/p").ok().unwrap();
    assert_eq!(req.search_path, "/p/src");
    assert_eq!(req.head_limit, 250);
    assert_eq!(
        GrepTool::rg_args(&req),
        vec!["--no-heading", "--max-columns", "500", "--max-columns-preview", "--files-with-matches", "--sort=modified", "foo", "/p/src"]
    );
    let req = GrepTool::request(
        &input(vec![
            ("pattern", s("-x")),
            ("output_mode", s("content")),
            ("-i", ArgValue::Bool(true)),
            ("-C", ArgValue::Number(Some(2))),
            ("glob", s("*.rs")),
        ]),
        "/p",
    )
    .ok()
    .unwrap();
    assert_eq!(
        GrepTool::rg_args(&req),
        vec![
            "--no-heading", "--max-columns", "500", "--max-columns-preview", "--line-number", "-C", "2", "-i",
            "--glob", "*.rs", "-e", "-x", "/p"
        ]
    );
    match GrepTool::request(&input(vec![("pattern", s(""))]), "/p") {
        Err(Early::Output(o)) => assert_eq!(o.render(), "Pattern cannot be empty"),
        _ => panic!("expected an error output"),
    }
}

#[test]
fn grep_outcomes() {
    let req = GrepTool::request(&input(vec![("pattern", s("foo"))]), "/p").ok().unwrap();
    let none = RgOutcome::Exited { code: Some(1), success: false, stdout: String::new(), stderr: String::new() };
    assert_eq!(
        GrepTool::interpret(&req, none, "/p").render(),
        "0 matches for \"foo\"\n\n0 results. No matches for \"foo\"\n\nNext:\n - Broaden the regex, try case-insensitive (-i), or search a wider path"
    );
    let bad = RgOutcome::Exited { code: Some(2), success: false, stdout: String::new(), stderr: " bad regex \n".into() };
    assert_eq!(GrepTool::interpret(&req, bad, "/p").render(), "Search failed: bad regex");
    assert_eq!(
        GrepTool::interpret(&req, RgOutcome::SpawnFailed("nope".into()), "/p").render(),
        "Search command failed: nope. Is ripgrep (rg) installed?"
    );
    assert_eq!(
        GrepTool::interpret(&req, RgOutcome::TimedOut, "/p").render(),
        "Search timed out after 30s. Try a more specific pattern or path."
    );
    let found = RgOutcome::Exited { code: Some(0), success: true, stdout: "/p/a.rs\n/p/b.rs\n".into(), stderr: String::new() };
    assert_eq!(
        GrepTool::interpret(&req, found, "/p").render(),
        "2 file(s) with matches\n\nfiles [2]:\n  path\n  a.rs\n  b.rs"
    );
}

#[test]
fn lsp_requests_and_results() {
    let req = LspTool::request(
        &input(vec![
            ("operation", s("hover")),
            ("filePath", s("src/a.rs")),
            ("line", ArgValue::Number(Some(3))),
            ("character", ArgValue::Number(Some(5))),
        ]),
        "/p",
    )
    .ok()
    .unwrap();
    assert_eq!(req.file_path, "/p/src/a.rs");
    match LspTool::plan_call(&req, "file:///p/src/a.rs") {
        Ok(LspCall::Single { method, params }) => {
            assert_eq!(method, "textDocument/hover");
            assert_eq!(params, "{\"position\":{\"character\":4,\"line\":2},\"textDocument\":{\"uri\":\"file:///p/src/a.rs\"}}");
        }
        _ => panic!("expected one request"),
    }
    let mut calls = req;
    calls.operation = "incomingCalls".into();
    match LspTool::plan_call(&calls, "file:///a") {
        Ok(LspCall::Hierarchy { method, .. }) => assert_eq!(method, "callHierarchy/incomingCalls"),
        _ => panic!("expected a hierarchy call"),
    }
    calls.operation = "rename".into();
    match LspTool::plan_call(&calls, "file:///a") {
        Err(o) => assert!(o.render().starts_with("Unknown LSP operation 'rename'. Supported: goToDefinition")),
        _ => panic!("expected an error"),
    }
    let hover = LspResult {
        is_null: false,
        hover_value: Some("fn a()".into()),
        hover_text: None,
        pretty: "{}".into(),
        locations: vec![],
    };
    assert_eq!(LspTool::result_output("hover", &hover).render(), "LSP hover\n\nHover info:\nfn a()");
    let found = LspResult {
        is_null: false,
        hover_value: None,
        hover_text: None,
        pretty: String::new(),
        locations: vec![
            LspLocation { uri: Some("file:///p/a.rs".into()), target_uri: None, range_start: Some((Some(4), Some(0))), target_range_start: None },
            LspLocation { uri: None, target_uri: Some("/q/b.rs".into()), range_start: None, target_range_start: Some((Some(9), None)) },
        ],
    };
    assert_eq!(LspTool::format_result("goToDefinition", &found), "/p/a.rs:5:1\n/q/b.rs:10:1\n");
    let nothing = LspResult { is_null: true, hover_value: None, hover_text: None, pretty: "null".into(), locations: vec![] };
    assert_eq!(LspTool::format_result("findReferences", &nothing), "findReferences: No results found.");
}

#[test]
fn read_and_edit_refusals_before_reading() {
    assert!(ReadTool::too_large(268_435_457));
    assert!(!ReadTool::too_large(268_435_456));
    assert_eq!(
        ReadTool::too_large_output("300.0").render(),
        "File too large (300.0 MB). Use offset/limit or Bash with 'head'/'tail'."
    );
    assert_eq!(ReadTool::not_found("/p/a").render(), "File not found: /p/a");
    assert!(ReadTool::is_directory("/p").render().contains("/p is a directory, not a file."));
    assert!(ReadTool::binary_file("/p/b").render().contains("/p/b appears to be a binary file"));
    assert_eq!(ReadTool::read_failed("/p/a", "denied").render(), "Failed to read /p/a: denied");
    assert!(EditTool::too_large(1_073_741_825));
    assert!(!EditTool::too_large(1_073_741_824));
    assert!(EditTool::too_large_output("2048.0").render().contains("Edit limited to files under 1 GB."));
    assert!(EditTool::not_found("/p/a").render().contains("Read it again before attempting to write it."));
}

#[test]
fn edit_and_lsp_failures_are_worded() {
    assert_eq!(EditTool::write_failed("/p/a", "full").render(), "Failed to write /p/a: full");
    assert_eq!(
        LspTool::no_server("zig").render(),
        "No LSP server available for .zig files. Supported: .rs (rust-analyzer), .ts/.js (typescript-language-server), .py (pylsp), .go (gopls)"
    );
    assert_eq!(LspTool::start_failed("rs", "missing").render(), "Failed to start LSP server for .rs: missing");
    assert_eq!(LspTool::open_failed("closed").render(), "Failed to open document in LSP server: closed");
    assert_eq!(LspTool::request_failed("timeout").render(), "LSP request failed: timeout");
    assert!(LspTool::request_failed("timeout").is_error);
}
