use arcee_code::tool_output::{ToolOutput, Truncation};

#[test]
fn success_with_text_renders() {
    let o = ToolOutput::success().with_text("hello world");
    assert_eq!(o.render(), "hello world");
}

#[test]
fn summary_body_truncation_next_steps_all_rendered() {
    let o = ToolOutput::success()
        .with_summary("42 matches in 7 files")
        .with_text("match 1\nmatch 2")
        .with_truncation(Truncation {
            shown: 2,
            total: 42,
            unit: "matches",
            how_to_see_more: "raise head_limit".into(),
        })
        .with_next_step("Use full=true for complete output");

    let rendered = o.render();
    assert!(rendered.starts_with("42 matches in 7 files"));
    assert!(rendered.contains("match 1\nmatch 2"));
    assert!(rendered.contains("[truncated: shown 2/42 matches. raise head_limit]"));
    assert!(rendered.contains("Next:\n - Use full=true for complete output"));
}

#[test]
fn full_flag_drops_truncation() {
    let o = ToolOutput::success()
        .with_text("body")
        .with_truncation(Truncation {
            shown: 1,
            total: 100,
            unit: "lines",
            how_to_see_more: "pass offset".into(),
        })
        .drop_truncation_if_full(true);
    let rendered = o.render();
    assert!(!rendered.contains("[truncated"));
}

#[test]
fn empty_body_renders_definitively() {
    let o = ToolOutput::empty("Pattern did not match any files");
    assert_eq!(o.render(), "0 results. Pattern did not match any files");
}

#[test]
fn error_output_marked_is_error() {
    let o = ToolOutput::error("boom");
    assert!(o.is_error);
    assert!(o.render().contains("boom"));
}

#[test]
fn render_exact_layout_of_all_sections() {
    let o = ToolOutput::success()
        .with_summary("S")
        .with_text("B")
        .with_truncation(Truncation { shown: 1, total: 3, unit: "lines", how_to_see_more: "more".into() })
        .with_next_step("one")
        .with_next_step("two");
    assert_eq!(
        o.render(),
        "S\n\nB\n\n[truncated: shown 1/3 lines. more]\n\nNext:\n - one\n - two"
    );
}

#[test]
fn truncation_kept_when_not_full() {
    let o = ToolOutput::success()
        .with_text("body")
        .with_truncation(Truncation { shown: 1, total: 100, unit: "lines", how_to_see_more: "pass offset".into() })
        .drop_truncation_if_full(false);
    assert!(o.render().contains("[truncated: shown 1/100 lines. pass offset]"));
}

#[test]
fn empty_success_renders_nothing() {
    assert_eq!(ToolOutput::success().render(), "");
}

#[test]
fn preview_takes_first_line_of_summary_capped() {
    let o = ToolOutput::success()
        .with_summary("3 matches\nsecond line")
        .with_text("body");
    assert_eq!(o.preview(), "3 matches");
    let long = "x".repeat(700);
    let o = ToolOutput::success().with_summary(&long);
    assert_eq!(o.preview().chars().count(), 500);
}

#[test]
fn preview_without_summary_uses_body_first_line() {
    let o = ToolOutput::success().with_text("alpha\nbeta");
    assert_eq!(o.preview(), "alpha");
}
