//! Bash: a shell command. This module reads the call's arguments (with the
//! timeout clamped to its bounds), picks the shell, and shapes what the
//! command printed into the output, in the foreground or as the result of a
//! background task; running the process is left to the caller.

use vstd::prelude::*;
use super::Early;
use crate::path_safety::{cut_to_bytes, safe_truncate};
use crate::text::{
    blen, decimal, decimal_string, decimal_string_wide, ends_with, owned, push_str,
    str_ends_with, trim, trim_str, views,
};
use crate::tool_input::ToolInput;
use crate::tool_output::{error_view, out_view, BodyV, OutV, ToolOutput, Truncation};

verus! {

pub struct BashTool;

/// Most bytes of output a call returns without `full`.
pub const MAX_OUTPUT_SIZE: usize = 1_000_000;

/// Shortest timeout, in milliseconds.
pub const MIN_TIMEOUT_MS: u64 = 1000;

/// Longest timeout, in milliseconds.
pub const MAX_TIMEOUT_MS: u64 = 600_000;

/// Timeout when the call gives none, in milliseconds.
pub const DEFAULT_TIMEOUT_MS: u64 = 120_000;

/// What a Bash call asks for.
pub struct BashRequest {
    pub command: String,
    pub timeout_ms: u64,
    pub run_in_background: bool,
    pub full: bool,
    pub description: String,
}

/// `n` clamped to `[lo, hi]`.
pub open spec fn clamp(n: u64, lo: u64, hi: u64) -> u64 {
    if n < lo {
        lo
    } else if n > hi {
        hi
    } else {
        n
    }
}

/// The decimal text of an integer, with a `-` when negative.
pub open spec fn int_text(i: int) -> Seq<char> {
    if i < 0 {
        "-"@ + decimal((-i) as nat)
    } else {
        decimal(i as nat)
    }
}

/// What the command printed: its standard output, then its error output
/// after a newline when both are present; `(no output)` when it printed
/// nothing.
pub open spec fn combined_output(stdout: Seq<char>, stderr: Seq<char>) -> Seq<char> {
    let joined = if stderr.len() == 0 {
        stdout
    } else if stdout.len() == 0 {
        stderr
    } else {
        stdout + "\n"@ + stderr
    };
    if joined.len() == 0 {
        "(no output)"@
    } else {
        joined
    }
}

/// The output of a command that ran to its end.
pub open spec fn finished_view(
    full: bool,
    stdout: Seq<char>,
    stderr: Seq<char>,
    exit_code: i32,
    elapsed_ms: u128,
) -> OutV {
    let out = combined_output(stdout, stderr);
    let cut = !full && blen(out) > MAX_OUTPUT_SIZE;
    let status = "exit="@ + int_text(exit_code as int) + ", "@ + decimal(elapsed_ms as nat) + " ms"@;
    OutV {
        is_error: exit_code != 0,
        summary: if exit_code != 0 {
            None
        } else {
            Some(status)
        },
        body: BodyV::Text(
            if cut {
                cut_to_bytes(out, MAX_OUTPUT_SIZE as nat)
            } else {
                out
            },
        ),
        truncation: if cut {
            Some(
                (
                    MAX_OUTPUT_SIZE as nat,
                    blen(out),
                    "bytes"@,
                    "pass full=true or redirect to a file and Read it"@,
                ),
            )
        } else {
            None
        },
        steps: if cut {
            seq!["Pass full=true to return all bytes, or redirect stdout to a file and Read it"@]
        } else {
            seq![]
        },
    }
}

/// The result a background command leaves: whether it failed, and its text.
pub open spec fn background_result(stdout: Seq<char>, stderr: Seq<char>, exit_code: i32) -> (bool, Seq<char>) {
    let out = combined_output(stdout, stderr);
    let text = if blen(out) > MAX_OUTPUT_SIZE {
        cut_to_bytes(out, MAX_OUTPUT_SIZE as nat) + "\n\n... (truncated)"@
    } else {
        out
    };
    if exit_code != 0 {
        (true, "Exit code "@ + int_text(exit_code as int) + "\n"@ + text)
    } else {
        (false, text)
    }
}

/// The decimal text of an `i32`.
pub fn int_string(i: i32) -> (out: String)
    ensures
        out@ == int_text(i as int),
{
    if i < 0 {
        let m: u64 = (0i64 - (i as i64)) as u64;
        let mut out = owned("-");
        let d = decimal_string(m);
        push_str(&mut out, d.as_str());
        out
    } else {
        decimal_string(i as u64)
    }
}

/// What the command printed, joined.
pub fn combine_output(stdout: &str, stderr: &str) -> (out: String)
    ensures
        out@ == combined_output(stdout@, stderr@),
{
    let mut out = String::new();
    if !stdout.is_empty() {
        push_str(&mut out, stdout);
    }
    if !stderr.is_empty() {
        if !out.as_str().is_empty() {
            push_str(&mut out, "\n");
        }
        push_str(&mut out, stderr);
    }
    if out.as_str().is_empty() {
        out = owned("(no output)");
    }
    out
}

impl BashTool {
    /// Reads the call's arguments: a missing `command` fails the call and a
    /// blank one is answered with an error; the timeout defaults to two
    /// minutes and is clamped to between one second and ten minutes; the
    /// description defaults to the command.
    pub fn request(input: &ToolInput) -> (r: Result<BashRequest, Early>)
        ensures
            match input.str_arg("command"@) {
                None => r matches Err(Early::Fail(m)) && m@ == "Missing 'command' parameter"@,
                Some(c) => if trim(c).len() == 0 {
                    r matches Err(Early::Output(o)) && out_view(o) == error_view(
                        "Command cannot be empty"@,
                    )
                } else {
                    r matches Ok(q) && {
                        &&& q.command@ == c
                        &&& q.timeout_ms == clamp(
                            match input.u64_arg("timeout"@) {
                                Some(t) => t,
                                None => DEFAULT_TIMEOUT_MS,
                            },
                            MIN_TIMEOUT_MS,
                            MAX_TIMEOUT_MS,
                        )
                        &&& q.run_in_background == match input.bool_arg("run_in_background"@) {
                            Some(b) => b,
                            None => false,
                        }
                        &&& q.full == match input.bool_arg("full"@) {
                            Some(b) => b,
                            None => false,
                        }
                        &&& q.description@ == match input.str_arg("description"@) {
                            Some(d) => d,
                            None => c,
                        }
                    }
                },
            },
    {
        let command = match input.get_str("command") {
            Some(c) => c,
            None => {
                return Err(Early::Fail(owned("Missing 'command' parameter")));
            },
        };
        let t = trim_str(command);
        if t.as_str().is_empty() {
            let o = ToolOutput::error("Command cannot be empty");
            assert(views(o.next_steps@) =~= Seq::<Seq<char>>::empty());
            return Err(Early::Output(o));
        }
        let asked = match input.get_u64("timeout") {
            Some(t) => t,
            None => DEFAULT_TIMEOUT_MS,
        };
        let timeout_ms = if asked < MIN_TIMEOUT_MS {
            MIN_TIMEOUT_MS
        } else if asked > MAX_TIMEOUT_MS {
            MAX_TIMEOUT_MS
        } else {
            asked
        };
        let run_in_background = match input.get_bool("run_in_background") {
            Some(b) => b,
            None => false,
        };
        let full = match input.get_bool("full") {
            Some(b) => b,
            None => false,
        };
        let description = match input.get_str("description") {
            Some(d) => owned(d),
            None => owned(command),
        };
        Ok(BashRequest { command: owned(command), timeout_ms, run_in_background, full, description })
    }

    /// The shell to run: the user's `SHELL` when it is bash or zsh, else
    /// `bash`.
    pub fn pick_shell(env_shell: Option<String>) -> (s: String)
        ensures
            s@ == match env_shell {
                Some(e) => if ends_with(e@, "bash"@) || ends_with(e@, "zsh"@) {
                    e@
                } else {
                    "bash"@
                },
                None => "bash"@,
            },
    {
        match env_shell {
            Some(e) => {
                if str_ends_with(e.as_str(), "bash") || str_ends_with(e.as_str(), "zsh") {
                    e
                } else {
                    owned("bash")
                }
            },
            None => owned("bash"),
        }
    }

    /// The output of a command that ran to its end: a failure when its exit
    /// code is not zero, the output capped at 1 MB unless `full`.
    pub fn finished(req: &BashRequest, stdout: &str, stderr: &str, exit_code: i32, elapsed_ms: u128) -> (o: ToolOutput)
        ensures
            out_view(o) == finished_view(req.full, stdout@, stderr@, exit_code, elapsed_ms),
    {
        let output = combine_output(stdout, stderr);
        let total_bytes = output.as_str().len();
        let cut = !req.full && total_bytes > MAX_OUTPUT_SIZE;
        let mut status = owned("exit=");
        let e = int_string(exit_code);
        push_str(&mut status, e.as_str());
        push_str(&mut status, ", ");
        let ms = decimal_string_wide(elapsed_ms);
        push_str(&mut status, ms.as_str());
        push_str(&mut status, " ms");
        let body: &str = if cut {
            safe_truncate(output.as_str(), MAX_OUTPUT_SIZE)
        } else {
            output.as_str()
        };
        let base = if exit_code != 0 {
            ToolOutput::error(status.as_str()).with_text(body)
        } else {
            ToolOutput::success().with_summary(status.as_str()).with_text(body)
        };
        if cut {
            let o = base.with_truncation(
                Truncation {
                    shown: MAX_OUTPUT_SIZE,
                    total: total_bytes,
                    unit: "bytes",
                    how_to_see_more: owned("pass full=true or redirect to a file and Read it"),
                },
            ).with_next_step(
                "Pass full=true to return all bytes, or redirect stdout to a file and Read it",
            );
            assert(views(o.next_steps@) =~= seq![
                "Pass full=true to return all bytes, or redirect stdout to a file and Read it"@,
            ]);
            o
        } else {
            assert(views(base.next_steps@) =~= Seq::<Seq<char>>::empty());
            base
        }
    }

    /// The error for a command that could not be started.
    pub fn exec_failed(err: &str) -> (o: ToolOutput)
        ensures
            out_view(o) == error_view("Failed to execute command: "@ + err@),
    {
        let mut m = owned("Failed to execute command: ");
        push_str(&mut m, err);
        let o = ToolOutput::error(m.as_str());
        assert(views(o.next_steps@) =~= Seq::<Seq<char>>::empty());
        o
    }

    /// The error for a command that ran past its timeout.
    pub fn timed_out(req: &BashRequest) -> (o: ToolOutput)
        ensures
            out_view(o) == error_view("Command timed out after "@ + decimal(req.timeout_ms as nat) + "ms"@),
    {
        let mut m = owned("Command timed out after ");
        let t = decimal_string(req.timeout_ms);
        push_str(&mut m, t.as_str());
        push_str(&mut m, "ms");
        let o = ToolOutput::error(m.as_str());
        assert(views(o.next_steps@) =~= Seq::<Seq<char>>::empty());
        o
    }

    /// The answer to a call that started the command in the background as
    /// task `task_id`.
    pub fn launched(task_id: &str) -> (o: ToolOutput)
        ensures
            out_view(o) == (OutV {
                is_error: false,
                summary: Some("Launched background task #"@ + task_id@),
                body: BodyV::Text(
                    "Command launched in background as task #"@ + task_id@
                        + ". You will be automatically notified when it completes. Continue with other work — do NOT poll or check on it."@,
                ),
                truncation: None,
                steps: seq!["Call TaskOutput with task_id=\""@ + task_id@ + "\" after you are notified"@],
            }),
    {
        let mut summary = owned("Launched background task #");
        push_str(&mut summary, task_id);
        let mut text = owned("Command launched in background as task #");
        push_str(&mut text, task_id);
        push_str(
            &mut text,
            ". You will be automatically notified when it completes. Continue with other work — do NOT poll or check on it.",
        );
        let mut step = owned("Call TaskOutput with task_id=\"");
        push_str(&mut step, task_id);
        push_str(&mut step, "\" after you are notified");
        let o = ToolOutput::success().with_summary(summary.as_str()).with_text(text.as_str()).with_next_step(
            step.as_str(),
        );
        assert(views(o.next_steps@) =~= seq![step@]);
        o
    }

    /// What a background command leaves in its task: whether it failed, and
    /// the text to record.
    pub fn background_outcome(stdout: &str, stderr: &str, exit_code: i32) -> (r: (bool, String))
        ensures
            (r.0, r.1@) == background_result(stdout@, stderr@, exit_code),
    {
        let output = combine_output(stdout, stderr);
        let text = if output.as_str().len() > MAX_OUTPUT_SIZE {
            let cut = safe_truncate(output.as_str(), MAX_OUTPUT_SIZE);
            let mut t = owned(cut);
            push_str(&mut t, "\n\n... (truncated)");
            t
        } else {
            output
        };
        if exit_code != 0 {
            let mut m = owned("Exit code ");
            let e = int_string(exit_code);
            push_str(&mut m, e.as_str());
            push_str(&mut m, "\n");
            push_str(&mut m, text.as_str());
            (true, m)
        } else {
            (false, text)
        }
    }

    /// The text a background command that could not start leaves.
    pub fn background_failed(err: &str) -> (m: String)
        ensures
            m@ == "Command failed: "@ + err@,
    {
        let mut m = owned("Command failed: ");
        push_str(&mut m, err);
        m
    }
}

} // verus!
