//! EnterPlanMode and ExitPlanMode: switching the session into and out of
//! plan mode, where the model explores and writes a plan before changing
//! code. This module decides the new mode and words the outcome; reading the
//! plan file is left to the caller.

use vstd::prelude::*;
use crate::path_safety::{join_path, joined_path};
use crate::permissions::PermissionMode;
use crate::text::{owned, push_str, views};
use crate::tool_output::{error_view, out_view, BodyV, OutV, ToolOutput};

verus! {

pub struct EnterPlanModeTool;

pub struct ExitPlanModeTool;

/// Where the plan is written: `.arcee/plan.md` under the working directory.
pub open spec fn plan_path(cwd: Seq<char>) -> Seq<char> {
    joined_path("plan.md"@, joined_path(".arcee"@, cwd))
}

/// What entering plan mode does from `mode`: the new mode, the plan path to
/// remember, and the output.
pub open spec fn enter_outcome(mode: PermissionMode, cwd: Seq<char>) -> (PermissionMode, Option<Seq<char>>, OutV) {
    if mode == PermissionMode::Plan {
        (mode, None, error_view("Already in plan mode."@))
    } else {
        (
            PermissionMode::Plan,
            Some(plan_path(cwd)),
            OutV {
                is_error: false,
                summary: Some("Entered plan mode"@),
                body: BodyV::Text(
                    "You are now in plan mode.\n\n- Use read-only tools (Read, Glob, Grep, WebFetch) to explore the codebase\n- Write your plan to: "@
                        + plan_path(cwd) + "\n- Do NOT make code changes until the plan is approved"@,
                ),
                truncation: None,
                steps: seq!["Use ExitPlanMode when your plan is ready for user review"@],
            },
        )
    }
}

/// The output of leaving plan mode: `plan` is the plan file's path when one
/// was set, and `content` its text when the file exists.
pub open spec fn exit_view(plan: Option<Seq<char>>, content: Option<Seq<char>>) -> OutV {
    match (plan, content) {
        (Some(p), Some(c)) => if c.len() == 0 {
            OutV {
                is_error: false,
                summary: Some("Exited plan mode (empty plan)"@),
                body: BodyV::Text("No plan file was written. Ready for implementation."@),
                truncation: None,
                steps: seq![],
            }
        } else {
            OutV {
                is_error: false,
                summary: Some("Exited plan mode — plan at "@ + p),
                body: BodyV::Text(
                    "Your plan has been saved to: "@ + p
                        + "\nYou can refer back to it during implementation.\n\n## Plan:\n"@ + c,
                ),
                truncation: None,
                steps: seq!["Create tasks with TaskCreate to track implementation progress"@],
            }
        },
        _ => OutV {
            is_error: false,
            summary: Some("Exited plan mode"@),
            body: BodyV::Text("Ready for implementation."@),
            truncation: None,
            steps: seq![],
        },
    }
}

impl EnterPlanModeTool {
    /// Enters plan mode unless already in it, and names the plan file.
    pub fn enter(mode: &mut PermissionMode, cwd: &str) -> (r: (Option<String>, ToolOutput))
        ensures
            ({
                let e = enter_outcome(*old(mode), cwd@);
                &&& *final(mode) == e.0
                &&& match r.0 {
                    Some(p) => e.1 == Some(p@),
                    None => e.1 is None,
                }
                &&& out_view(r.1) == e.2
            }),
    {
        if *mode == PermissionMode::Plan {
            let o = ToolOutput::error("Already in plan mode.");
            assert(views(o.next_steps@) =~= Seq::<Seq<char>>::empty());
            return (None, o);
        }
        *mode = PermissionMode::Plan;
        let dir = join_path(".arcee", cwd);
        let path = join_path("plan.md", dir.as_str());
        let mut text = owned(
            "You are now in plan mode.\n\n- Use read-only tools (Read, Glob, Grep, WebFetch) to explore the codebase\n- Write your plan to: ",
        );
        push_str(&mut text, path.as_str());
        push_str(&mut text, "\n- Do NOT make code changes until the plan is approved");
        let o = ToolOutput::success().with_summary("Entered plan mode").with_text(text.as_str())
            .with_next_step("Use ExitPlanMode when your plan is ready for user review");
        assert(views(o.next_steps@) =~= seq!["Use ExitPlanMode when your plan is ready for user review"@]);
        (Some(path), o)
    }
}

/// The mode after leaving plan mode from `mode`: the default mode, or
/// `mode` itself when it was not plan mode.
pub open spec fn exit_mode(mode: PermissionMode) -> PermissionMode {
    if mode == PermissionMode::Plan { PermissionMode::Default } else { mode }
}

/// Entering plan mode from any other mode and leaving it again ends in the
/// default mode (not the mode before); entering twice is refused and
/// changes nothing, and so is leaving twice.
pub proof fn law_plan_mode_round_trip(mode: PermissionMode, cwd: Seq<char>)
    requires
        mode != PermissionMode::Plan,
    ensures
        enter_outcome(mode, cwd).0 == PermissionMode::Plan,
        exit_mode(enter_outcome(mode, cwd).0) == PermissionMode::Default,
        enter_outcome(enter_outcome(mode, cwd).0, cwd).0 == PermissionMode::Plan,
        enter_outcome(enter_outcome(mode, cwd).0, cwd).2 == error_view("Already in plan mode."@),
        exit_mode(exit_mode(enter_outcome(mode, cwd).0)) == PermissionMode::Default,
{
}

impl ExitPlanModeTool {
    /// Leaves plan mode; an error when not in it. The output depends on the
    /// plan file: `plan` is its path when one was set, `content` its text
    /// when it exists.
    pub fn exit(mode: &mut PermissionMode, plan: Option<&str>, content: Option<&str>) -> (o: ToolOutput)
        ensures
            *final(mode) == exit_mode(*old(mode)),
            *old(mode) != PermissionMode::Plan ==> *final(mode) == *old(mode) && out_view(o) == error_view(
                "Not currently in plan mode."@,
            ),
            *old(mode) == PermissionMode::Plan ==> *final(mode) == PermissionMode::Default && out_view(o)
                == exit_view(
                match plan {
                    Some(p) => Some(p@),
                    None => None,
                },
                match content {
                    Some(c) => Some(c@),
                    None => None,
                },
            ),
    {
        if *mode != PermissionMode::Plan {
            let o = ToolOutput::error("Not currently in plan mode.");
            assert(views(o.next_steps@) =~= Seq::<Seq<char>>::empty());
            return o;
        }
        *mode = PermissionMode::Default;
        match (plan, content) {
            (Some(p), Some(c)) => {
                if c.is_empty() {
                    let o = ToolOutput::success().with_summary("Exited plan mode (empty plan)").with_text(
                        "No plan file was written. Ready for implementation.",
                    );
                    assert(views(o.next_steps@) =~= Seq::<Seq<char>>::empty());
                    o
                } else {
                    let mut summary = owned("Exited plan mode — plan at ");
                    push_str(&mut summary, p);
                    let mut text = owned("Your plan has been saved to: ");
                    push_str(&mut text, p);
                    push_str(&mut text, "\nYou can refer back to it during implementation.\n\n## Plan:\n");
                    push_str(&mut text, c);
                    let o = ToolOutput::success().with_summary(summary.as_str()).with_text(text.as_str())
                        .with_next_step("Create tasks with TaskCreate to track implementation progress");
                    assert(views(o.next_steps@) =~= seq![
                        "Create tasks with TaskCreate to track implementation progress"@,
                    ]);
                    o
                }
            },
            _ => {
                let o = ToolOutput::success().with_summary("Exited plan mode").with_text(
                    "Ready for implementation.",
                );
                assert(views(o.next_steps@) =~= Seq::<Seq<char>>::empty());
                o
            },
        }
    }
}

} // verus!
