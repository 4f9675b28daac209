//! Agent: a sub-agent that works on a task with its own conversation. This
//! module reads the call's arguments, decides how the call is gated, which
//! tools and settings the sub-agent gets, and words the outcome; running the
//! sub-agent's loop is left to the caller.

use vstd::prelude::*;
use super::{Early, PermissionClass};
use crate::config::Config;
use crate::messages::{ContentBlock, Message};
use crate::model_router::MODEL_HEAVY;
use crate::text::{decimal, decimal_string, join, owned, push_joined, push_str, str_eq, trim, trim_str, views};
use crate::tool_input::ToolInput;
use crate::tool_output::{error_view, out_view, BodyV, OutV, ToolOutput};

verus! {

pub struct AgentTool;

/// Most turns a sub-agent takes.
pub const MAX_SUBAGENT_TURNS: usize = 25;

/// What an Agent call asks for.
pub struct AgentRequest {
    pub prompt: String,
    pub agent_type: String,
    pub run_in_background: bool,
    pub description: String,
}

/// The agent type a call names, `explore` when it names none.
pub open spec fn raw_agent_type(input: ToolInput) -> Seq<char> {
    match input.str_arg("subagent_type"@) {
        Some(t) => t,
        None => "explore"@,
    }
}

/// The canonical name of an agent type.
pub open spec fn canonical_agent_type(t: Seq<char>) -> Seq<char> {
    if t == "general-purpose"@ || t == "general"@ {
        "general"@
    } else if t == "Explore"@ || t == "explore"@ {
        "explore"@
    } else if t == "Plan"@ || t == "plan"@ {
        "plan"@
    } else {
        t
    }
}

/// The tools every sub-agent has.
pub open spec fn read_only_tools() -> Seq<Seq<char>> {
    seq![
        "Read"@,
        "Glob"@,
        "Grep"@,
        "WebFetch"@,
        "AskUserQuestion"@,
        "TaskList"@,
        "TaskGet"@,
        "WebSearch"@,
        "LSP"@,
    ]
}

/// The tools a `general` sub-agent has besides.
pub open spec fn writing_tools() -> Seq<Seq<char>> {
    seq!["Bash"@, "Write"@, "Edit"@, "TaskCreate"@, "TaskUpdate"@, "NotebookEdit"@]
}

/// The text blocks of an assistant message.
pub open spec fn text_blocks(bs: Seq<ContentBlock>) -> Seq<Seq<char>>
    decreases bs.len(),
{
    if bs.len() == 0 {
        seq![]
    } else {
        let prev = text_blocks(bs.drop_last());
        match bs.last() {
            ContentBlock::Text { text } => prev.push(text@),
            _ => prev,
        }
    }
}

/// The text of the last assistant message that has any, its text blocks
/// joined by newlines; `None` when no assistant message has text.
pub open spec fn last_reply(ms: Seq<Message>) -> Option<Seq<char>>
    decreases ms.len(),
{
    if ms.len() == 0 {
        None
    } else {
        match ms.last() {
            Message::Assistant(a) => {
                let t = text_blocks(a.content@);
                if t.len() > 0 {
                    Some(join(t, "\n"@))
                } else {
                    last_reply(ms.drop_last())
                }
            },
            _ => last_reply(ms.drop_last()),
        }
    }
}

/// What the sub-agent answered: its last reply with text, or a note that
/// there was none.
pub open spec fn final_text(ms: Seq<Message>) -> Seq<char> {
    match last_reply(ms) {
        Some(t) => t,
        None => "(no response from sub-agent)"@,
    }
}

fn texts_of(bs: &Vec<ContentBlock>) -> (out: Vec<String>)
    ensures
        views(out@) == text_blocks(bs@),
{
    let mut out: Vec<String> = Vec::new();
    let mut i: usize = 0;
    assert(bs@.take(0) =~= Seq::<ContentBlock>::empty());
    while i < bs.len()
        invariant
            i <= bs@.len(),
            views(out@) == text_blocks(bs@.take(i as int)),
        decreases bs@.len() - i,
    {
        assert(bs@.take(i + 1).drop_last() =~= bs@.take(i as int));
        match &bs[i] {
            ContentBlock::Text { text } => {
                out.push(text.clone());
                assert(views(out@) =~= views(out@.drop_last()).push(text@));
            },
            _ => {},
        }
        i += 1;
    }
    assert(bs@.take(bs@.len() as int) =~= bs@);
    out
}

/// What the sub-agent answered in `messages`.
pub fn extract_final_text(messages: &Vec<Message>) -> (out: String)
    ensures
        out@ == final_text(messages@),
{
    match last_reply_text(messages) {
        Some(t) => t,
        None => owned("(no response from sub-agent)"),
    }
}

/// The last reply with text in `messages`, if there is one.
pub fn last_reply_text(messages: &Vec<Message>) -> (out: Option<String>)
    ensures
        match out {
            Some(t) => last_reply(messages@) == Some(t@),
            None => last_reply(messages@) is None,
        },
{
    let mut i = messages.len();
    assert(messages@.take(i as int) =~= messages@);
    while i > 0
        invariant
            i <= messages@.len(),
            last_reply(messages@) == last_reply(messages@.take(i as int)),
        decreases i,
    {
        let ghost t = messages@.take(i as int);
        assert(t.drop_last() =~= messages@.take(i - 1));
        assert(t.last() == messages@[i - 1]);
        match &messages[i - 1] {
            Message::Assistant(a) => {
                let texts = texts_of(&a.content);
                if texts.len() > 0 {
                    let mut out = String::new();
                    push_joined(&mut out, &texts, "\n");
                    return Some(out);
                }
            },
            _ => {},
        }
        i -= 1;
    }
    None
}

/// `raw` is one of the four names.
fn is_one_of(raw: &str, a: &str, b: &str, c: &str, d: &str) -> (r: bool)
    ensures
        r == (raw@ == a@ || raw@ == b@ || raw@ == c@ || raw@ == d@),
{
    str_eq(raw, a) || str_eq(raw, b) || str_eq(raw, c) || str_eq(raw, d)
}

impl AgentTool {
    /// Explore and plan agents only read; any other agent type needs
    /// confirmation.
    pub fn permission(input: &ToolInput) -> (c: PermissionClass)
        ensures
            c == if raw_agent_type(*input) == "explore"@ || raw_agent_type(*input) == "Explore"@
                || raw_agent_type(*input) == "plan"@ || raw_agent_type(*input) == "Plan"@ {
                PermissionClass::ReadOnly
            } else {
                PermissionClass::Ask
            },
    {
        let t = match input.get_str("subagent_type") {
            Some(t) => t,
            None => "explore",
        };
        if is_one_of(t, "explore", "Explore", "plan", "Plan") {
            PermissionClass::ReadOnly
        } else {
            PermissionClass::Ask
        }
    }

    /// The canonical name of an agent type.
    pub fn canonical_type(t: &str) -> (out: String)
        ensures
            out@ == canonical_agent_type(t@),
    {
        if str_eq(t, "general-purpose") || str_eq(t, "general") {
            owned("general")
        } else if str_eq(t, "Explore") || str_eq(t, "explore") {
            owned("explore")
        } else if str_eq(t, "Plan") || str_eq(t, "plan") {
            owned("plan")
        } else {
            owned(t)
        }
    }

    /// Reads the call's arguments: a missing `prompt` fails the call and a
    /// blank one is answered with an error.
    pub fn request(input: &ToolInput) -> (r: Result<AgentRequest, Early>)
        ensures
            match input.str_arg("prompt"@) {
                None => r matches Err(Early::Fail(m)) && m@ == "Missing 'prompt' parameter"@,
                Some(p) => if trim(p).len() == 0 {
                    r matches Err(Early::Output(o)) && out_view(o) == error_view("Prompt cannot be empty"@)
                } else {
                    r matches Ok(q) && q.prompt@ == p && q.agent_type@ == canonical_agent_type(
                        raw_agent_type(*input),
                    ) && q.run_in_background == match input.bool_arg("run_in_background"@) {
                        Some(b) => b,
                        None => false,
                    } && q.description@ == match input.str_arg("description"@) {
                        Some(d) => d,
                        None => "sub-agent task"@,
                    }
                },
            },
    {
        let prompt = match input.get_str("prompt") {
            Some(p) => p,
            None => {
                return Err(Early::Fail(owned("Missing 'prompt' parameter")));
            },
        };
        let raw = match input.get_str("subagent_type") {
            Some(t) => t,
            None => "explore",
        };
        let agent_type = Self::canonical_type(raw);
        let run_in_background = match input.get_bool("run_in_background") {
            Some(b) => b,
            None => false,
        };
        let description = match input.get_str("description") {
            Some(d) => owned(d),
            None => owned("sub-agent task"),
        };
        let t = trim_str(prompt);
        if t.as_str().is_empty() {
            let o = ToolOutput::error("Prompt cannot be empty");
            assert(views(o.next_steps@) =~= Seq::<Seq<char>>::empty());
            return Err(Early::Output(o));
        }
        Ok(AgentRequest { prompt: owned(prompt), agent_type, run_in_background, description })
    }

    /// The names of the tools a sub-agent of `agent_type` gets: the
    /// read-only ones, and for `general` the writing ones too.
    pub fn tool_names(agent_type: &str) -> (names: Vec<String>)
        ensures
            views(names@) == if agent_type@ == "general"@ {
                read_only_tools() + writing_tools()
            } else {
                read_only_tools()
            },
    {
        let mut names = vec![
            owned("Read"),
            owned("Glob"),
            owned("Grep"),
            owned("WebFetch"),
            owned("AskUserQuestion"),
            owned("TaskList"),
            owned("TaskGet"),
            owned("WebSearch"),
            owned("LSP"),
        ];
        assert(views(names@) =~= read_only_tools());
        if str_eq(agent_type, "general") {
            names.push(owned("Bash"));
            names.push(owned("Write"));
            names.push(owned("Edit"));
            names.push(owned("TaskCreate"));
            names.push(owned("TaskUpdate"));
            names.push(owned("NotebookEdit"));
            assert(views(names@) =~= read_only_tools() + writing_tools());
        }
        names
    }

    /// The sub-agent's settings from the parent's: at most 25 turns, no
    /// model routing, the heavy model.
    pub fn limit_config(config: &mut Config)
        ensures
            final(config).max_turns == MAX_SUBAGENT_TURNS,
            !final(config).auto_model_routing,
            final(config).model@ == MODEL_HEAVY@,
            final(config).api_key == old(config).api_key,
            final(config).base_url == old(config).base_url,
            final(config).permission_mode == old(config).permission_mode,
            final(config).permission_strictness == old(config).permission_strictness,
            final(config).max_tokens == old(config).max_tokens,
            final(config).allow_rules == old(config).allow_rules,
            final(config).deny_rules == old(config).deny_rules,
            final(config).config_dir == old(config).config_dir,
            final(config).cwd == old(config).cwd,
            final(config).verbose == old(config).verbose,
            final(config).intensity == old(config).intensity,
            final(config).hooks == old(config).hooks,
    {
        config.max_turns = MAX_SUBAGENT_TURNS;
        config.auto_model_routing = false;
        config.model = owned(MODEL_HEAVY);
    }

    /// The output of a sub-agent that finished: its answer, with a summary
    /// of the tokens it used; `cost` is its estimated cost in dollars, as
    /// text.
    pub fn finished(agent_type: &str, answer: &str, input_tokens: u64, output_tokens: u64, cost: &str) -> (o: ToolOutput)
        ensures
            out_view(o) == (OutV {
                is_error: false,
                summary: Some(
                    "sub-agent "@ + agent_type@ + " — "@ + decimal(input_tokens as nat) + " in + "@ + decimal(
                        output_tokens as nat,
                    ) + " out tokens, $"@ + cost@,
                ),
                body: BodyV::Text(answer@),
                truncation: None,
                steps: seq![],
            }),
    {
        let mut summary = owned("sub-agent ");
        push_str(&mut summary, agent_type);
        push_str(&mut summary, " — ");
        let a = decimal_string(input_tokens);
        push_str(&mut summary, a.as_str());
        push_str(&mut summary, " in + ");
        let b = decimal_string(output_tokens);
        push_str(&mut summary, b.as_str());
        push_str(&mut summary, " out tokens, $");
        push_str(&mut summary, cost);
        let o = ToolOutput::success().with_summary(summary.as_str()).with_text(answer);
        assert(views(o.next_steps@) =~= Seq::<Seq<char>>::empty());
        o
    }

    /// The text a sub-agent's error leaves.
    pub fn agent_error(err: &str) -> (m: String)
        ensures
            m@ == "Sub-agent error: "@ + err@,
    {
        let mut m = owned("Sub-agent error: ");
        push_str(&mut m, err);
        m
    }

    /// The result a background sub-agent leaves in its task.
    pub fn background_report(answer: &str, input_tokens: u64, output_tokens: u64, cost: &str) -> (m: String)
        ensures
            m@ == answer@ + "\n\n[Sub-agent used "@ + decimal(input_tokens as nat) + " input + "@ + decimal(
                output_tokens as nat,
            ) + " output tokens, $"@ + cost@ + "]"@,
    {
        let mut m = owned(answer);
        push_str(&mut m, "\n\n[Sub-agent used ");
        let a = decimal_string(input_tokens);
        push_str(&mut m, a.as_str());
        push_str(&mut m, " input + ");
        let b = decimal_string(output_tokens);
        push_str(&mut m, b.as_str());
        push_str(&mut m, " output tokens, $");
        push_str(&mut m, cost);
        push_str(&mut m, "]");
        m
    }

    /// The answer to a call that started the sub-agent in the background as
    /// task `task_id`.
    pub fn launched(task_id: &str) -> (o: ToolOutput)
        ensures
            out_view(o) == (OutV {
                is_error: false,
                summary: Some("Launched sub-agent #"@ + task_id@ + " in background"@),
                body: BodyV::Text(
                    "Agent launched in background as task #"@ + task_id@
                        + ". You will be automatically notified when it completes. Continue with other work — do NOT poll or check on it."@,
                ),
                truncation: None,
                steps: seq!["Call TaskOutput with task_id=\""@ + task_id@ + "\" after you are notified"@],
            }),
    {
        let mut summary = owned("Launched sub-agent #");
        push_str(&mut summary, task_id);
        push_str(&mut summary, " in background");
        let mut text = owned("Agent launched in background as task #");
        push_str(&mut text, task_id);
        push_str(
            &mut text,
            ". You will be automatically notified when it completes. Continue with other work — do NOT poll or check on it.",
        );
        let mut step = owned("Call TaskOutput with task_id=\"");
        push_str(&mut step, task_id);
        push_str(&mut step, "\" after you are notified");
        let o = ToolOutput::success().with_summary(summary.as_str()).with_text(text.as_str()).with_next_step(
            step.as_str(),
        );
        assert(views(o.next_steps@) =~= seq![step@]);
        o
    }
}

} // verus!
