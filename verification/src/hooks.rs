//! Hooks: user commands run at points of the agent's life (before and after
//! tool calls, at session start and end, around compaction). This module
//! holds their configuration, which hooks apply to an event, the JSON a hook
//! receives, how a hook's outcome becomes a decision, and how the decisions
//! of a chain combine. Running the commands is left to the caller.

use vstd::prelude::*;
use crate::text::{
    decimal, decimal_string, join, json_quote, push_joined, push_json_quoted, push_str, split_char,
    split_on, str_eq, trim, trim_str, views,
};
use crate::tool_output::{render_output, renderable, ToolOutput};

verus! {

// ─── Configuration ─────────────────────────────────────────────────────────

/// One command of a hook group.
pub struct HookAction {
    /// Only `"command"` actions run.
    pub action_type: String,
    pub command: String,
    /// Seconds before the command is stopped (120 when unset).
    pub timeout: Option<u64>,
}

/// Commands that run for the tools a matcher selects.
pub struct HookGroup {
    /// Tool names separated by `|`; unset or empty selects every tool.
    pub matcher: Option<String>,
    pub hooks: Vec<HookAction>,
}

/// The hook groups of each event.
pub struct HooksConfig {
    pub pre_tool_use: Vec<HookGroup>,
    pub post_tool_use: Vec<HookGroup>,
    pub notification: Vec<HookGroup>,
    pub user_prompt_submit: Vec<HookGroup>,
    pub session_start: Vec<HookGroup>,
    pub session_end: Vec<HookGroup>,
    pub stop: Vec<HookGroup>,
    pub subagent_start: Vec<HookGroup>,
    pub subagent_stop: Vec<HookGroup>,
    pub pre_compact: Vec<HookGroup>,
    pub post_compact: Vec<HookGroup>,
}

/// The groups of every event, in the order events are listed.
pub open spec fn event_lists(c: HooksConfig) -> Seq<Seq<HookGroup>> {
    seq![
        c.pre_tool_use@,
        c.post_tool_use@,
        c.notification@,
        c.user_prompt_submit@,
        c.session_start@,
        c.session_end@,
        c.stop@,
        c.subagent_start@,
        c.subagent_stop@,
        c.pre_compact@,
        c.post_compact@,
    ]
}

/// The event names, in the same order.
pub open spec fn event_names() -> Seq<Seq<char>> {
    seq![
        "PreToolUse"@,
        "PostToolUse"@,
        "Notification"@,
        "UserPromptSubmit"@,
        "SessionStart"@,
        "SessionEnd"@,
        "Stop"@,
        "SubagentStart"@,
        "SubagentStop"@,
        "PreCompact"@,
        "PostCompact"@,
    ]
}

impl Default for HooksConfig {
    fn default() -> (c: HooksConfig)
        ensures
            forall|i: int| 0 <= i < 11 ==> (#[trigger] event_lists(c)[i]).len() == 0,
    {
        HooksConfig {
            pre_tool_use: Vec::new(),
            post_tool_use: Vec::new(),
            notification: Vec::new(),
            user_prompt_submit: Vec::new(),
            session_start: Vec::new(),
            session_end: Vec::new(),
            stop: Vec::new(),
            subagent_start: Vec::new(),
            subagent_stop: Vec::new(),
            pre_compact: Vec::new(),
            post_compact: Vec::new(),
        }
    }
}

/// Adds the project's hooks to the user's: each event keeps its groups and
/// gains the overlay's after them.
pub fn merge(base: &mut HooksConfig, overlay: HooksConfig)
    ensures
        forall|i: int| 0 <= i < 11 ==> #[trigger] event_lists(*final(base))[i] == event_lists(*old(base))[i]
            + event_lists(overlay)[i],
{
    let mut o = overlay;
    base.pre_tool_use.append(&mut o.pre_tool_use);
    base.post_tool_use.append(&mut o.post_tool_use);
    base.notification.append(&mut o.notification);
    base.user_prompt_submit.append(&mut o.user_prompt_submit);
    base.session_start.append(&mut o.session_start);
    base.session_end.append(&mut o.session_end);
    base.stop.append(&mut o.stop);
    base.subagent_start.append(&mut o.subagent_start);
    base.subagent_stop.append(&mut o.subagent_stop);
    base.pre_compact.append(&mut o.pre_compact);
    base.post_compact.append(&mut o.post_compact);
}

// ─── Events ────────────────────────────────────────────────────────────────

/// Something that happened that hooks may react to.
pub enum HookEvent {
    SessionStart,
    SessionEnd,
    UserPromptSubmit { text: String },
    /// A tool is about to run; `input` is the JSON text of its arguments.
    PreToolUse { tool: String, input: String },
    PostToolUse { tool: String, output: ToolOutput },
    PreCompact { tokens: u64, message_count: usize },
    PostCompact {
        tokens_before: u64,
        tokens_after: u64,
        message_count_before: usize,
        message_count_after: usize,
    },
    SubagentStart { description: String },
    SubagentStop { summary: String },
    Stop { reason: String, turn: u32 },
}

pub open spec fn event_name(e: HookEvent) -> Seq<char> {
    match e {
        HookEvent::SessionStart => "SessionStart"@,
        HookEvent::SessionEnd => "SessionEnd"@,
        HookEvent::UserPromptSubmit { .. } => "UserPromptSubmit"@,
        HookEvent::PreToolUse { .. } => "PreToolUse"@,
        HookEvent::PostToolUse { .. } => "PostToolUse"@,
        HookEvent::PreCompact { .. } => "PreCompact"@,
        HookEvent::PostCompact { .. } => "PostCompact"@,
        HookEvent::SubagentStart { .. } => "SubagentStart"@,
        HookEvent::SubagentStop { .. } => "SubagentStop"@,
        HookEvent::Stop { .. } => "Stop"@,
    }
}

pub open spec fn event_tool(e: HookEvent) -> Seq<char> {
    match e {
        HookEvent::PreToolUse { tool, .. } => tool@,
        HookEvent::PostToolUse { tool, .. } => tool@,
        _ => seq![],
    }
}

impl HookEvent {
    /// The event's name in the hook contract.
    pub fn name(&self) -> (s: &'static str)
        ensures
            s@ == event_name(*self),
    {
        match self {
            HookEvent::SessionStart => "SessionStart",
            HookEvent::SessionEnd => "SessionEnd",
            HookEvent::UserPromptSubmit { .. } => "UserPromptSubmit",
            HookEvent::PreToolUse { .. } => "PreToolUse",
            HookEvent::PostToolUse { .. } => "PostToolUse",
            HookEvent::PreCompact { .. } => "PreCompact",
            HookEvent::PostCompact { .. } => "PostCompact",
            HookEvent::SubagentStart { .. } => "SubagentStart",
            HookEvent::SubagentStop { .. } => "SubagentStop",
            HookEvent::Stop { .. } => "Stop",
        }
    }

    /// The tool of a tool event, else the empty string.
    pub fn tool_name(&self) -> (s: &str)
        ensures
            s@ == event_tool(*self),
    {
        match self {
            HookEvent::PreToolUse { tool, .. } => tool.as_str(),
            HookEvent::PostToolUse { tool, .. } => tool.as_str(),
            _ => {
                proof {
                    reveal_strlit("");
                }
                ""
            },
        }
    }
}

// ─── Decisions ─────────────────────────────────────────────────────────────

/// What a hook decides.
pub enum HookDecision {
    /// Go on.
    Continue,
    /// Abort the tool call; the reason goes back to the model.
    Block(String),
    /// Add this text to the tool result or the user message.
    AppendContext(String),
}

pub enum DecisionV {
    Continue,
    Block(Seq<char>),
    AppendContext(Seq<char>),
}

impl View for HookDecision {
    type V = DecisionV;

    open spec fn view(&self) -> DecisionV {
        match self {
            HookDecision::Continue => DecisionV::Continue,
            HookDecision::Block(r) => DecisionV::Block(r@),
            HookDecision::AppendContext(t) => DecisionV::AppendContext(t@),
        }
    }
}

pub open spec fn decision_views(ds: Seq<HookDecision>) -> Seq<DecisionV> {
    ds.map_values(|d: HookDecision| d@)
}

/// The reason of the first blocking decision.
pub open spec fn first_block(ds: Seq<DecisionV>) -> Option<Seq<char>>
    decreases ds.len(),
{
    if ds.len() == 0 {
        None
    } else {
        match ds[0] {
            DecisionV::Block(r) => Some(r),
            _ => first_block(ds.drop_first()),
        }
    }
}

/// The non-empty texts to append, in order.
pub open spec fn appended(ds: Seq<DecisionV>) -> Seq<Seq<char>>
    decreases ds.len(),
{
    if ds.len() == 0 {
        seq![]
    } else {
        let r = appended(ds.drop_last());
        match ds.last() {
            DecisionV::AppendContext(t) => if t.len() > 0 { r.push(t) } else { r },
            _ => r,
        }
    }
}

/// The decision of a chain: the first block, else the appended texts joined
/// by newlines, else continue.
pub open spec fn chain_decision(ds: Seq<DecisionV>) -> DecisionV {
    match first_block(ds) {
        Some(r) => DecisionV::Block(r),
        None => {
            let a = appended(ds);
            if a.len() == 0 { DecisionV::Continue } else { DecisionV::AppendContext(join(a, "\n"@)) }
        },
    }
}

/// Combines the decisions of the hooks of a chain, in order.
pub fn combine_decisions(ds: Vec<HookDecision>) -> (d: HookDecision)
    ensures
        d@ == chain_decision(decision_views(ds@)),
{
    let ghost dv = decision_views(ds@);
    let mut texts: Vec<String> = Vec::new();
    let mut i: usize = 0;
    assert(dv.skip(0) =~= dv);
    while i < ds.len()
        invariant
            i <= ds@.len(),
            dv == decision_views(ds@),
            first_block(dv) == first_block(dv.skip(i as int)),
            first_block(dv.take(i as int)) is None,
            views(texts@) == appended(dv.take(i as int)),
        decreases ds@.len() - i,
    {
        assert(dv.skip(i as int)[0] == ds@[i as int]@);
        assert(dv.skip(i as int).drop_first() =~= dv.skip(i + 1));
        assert(dv.take(i + 1).drop_last() =~= dv.take(i as int));
        assert(dv.take(i + 1).last() == ds@[i as int]@);
        match &ds[i] {
            HookDecision::Block(r) => {
                return HookDecision::Block(r.clone());
            },
            HookDecision::AppendContext(t) => {
                if !t.as_str().is_empty() {
                    texts.push(t.clone());
                    assert(views(texts@) =~= views(texts@.drop_last()).push(t@));
                }
            },
            HookDecision::Continue => {},
        }
        proof {
            lemma_first_block_extend(dv.take(i as int), dv[i as int]);
            assert(dv.take(i as int).push(dv[i as int]) =~= dv.take(i + 1));
        }
        i += 1;
    }
    assert(dv.skip(ds@.len() as int).len() == 0);
    assert(dv.take(ds@.len() as int) =~= dv);
    if texts.len() == 0 {
        HookDecision::Continue
    } else {
        let mut out = String::new();
        push_joined(&mut out, &texts, "\n");
        HookDecision::AppendContext(out)
    }
}

proof fn lemma_first_block_extend(ds: Seq<DecisionV>, d: DecisionV)
    requires
        first_block(ds) is None,
        !(d is Block),
    ensures
        first_block(ds.push(d)) is None,
    decreases ds.len(),
{
    if ds.len() > 0 {
        assert(!(ds[0] is Block));
        assert(first_block(ds.drop_first()) is None);
        assert(ds.push(d).drop_first() =~= ds.drop_first().push(d));
        assert(ds.push(d)[0] == ds[0]);
        lemma_first_block_extend(ds.drop_first(), d);
        assert(first_block(ds.push(d)) == first_block(ds.push(d).drop_first()));
    } else {
        assert(ds.push(d).drop_first() =~= Seq::<DecisionV>::empty());
        assert(ds.push(d)[0] == d);
    }
}

/// Hooks after a blocking one do not run: the decisions up to the first
/// block decide the same as all of them.
pub proof fn law_block_short_circuits(ds: Seq<DecisionV>, k: int)
    requires
        0 <= k < ds.len(),
        ds[k] is Block,
        first_block(ds.take(k)) is None,
    ensures
        chain_decision(ds) == chain_decision(ds.take(k + 1)),
        chain_decision(ds) == ds[k],
    decreases k,
{
    if k > 0 {
        assert(ds.take(k).drop_first() =~= ds.drop_first().take(k - 1));
        assert(ds.take(k + 1).drop_first() =~= ds.drop_first().take(k));
        assert(ds.take(k)[0] == ds[0]);
        law_block_short_circuits(ds.drop_first(), k - 1);
    }
}

// ─── Which hooks apply ─────────────────────────────────────────────────────

/// Whether a matcher selects `tool`: unset and empty matchers select every
/// tool; otherwise one of its `|`-separated names, trimmed, must equal it.
pub open spec fn matcher_selects(matcher: Option<String>, tool: Seq<char>) -> bool {
    match matcher {
        None => true,
        Some(m) => m@.len() == 0 || exists|i: int|
            0 <= i < split_char(m@, '|').len() && trim(#[trigger] split_char(m@, '|')[i]) == tool,
    }
}

pub fn matcher_allows(matcher: &Option<String>, tool_name: &str) -> (b: bool)
    ensures
        b == matcher_selects(*matcher, tool_name@),
{
    match matcher {
        None => true,
        Some(m) => {
            if m.as_str().is_empty() {
                return true;
            }
            let parts = split_on(m.as_str(), '|');
            let ghost pv = views(parts@);
            let mut i: usize = 0;
            while i < parts.len()
                invariant
                    i <= parts@.len(),
                    *matcher == Some(*m),
                    pv == views(parts@),
                    pv == split_char(m@, '|'),
                    forall|j: int| 0 <= j < i ==> trim(#[trigger] pv[j]) != tool_name@,
                decreases parts@.len() - i,
            {
                let t = trim_str(parts[i].as_str());
                if str_eq(t.as_str(), tool_name) {
                    assert(trim(split_char(m@, '|')[i as int]) == tool_name@);
                    return true;
                }
                i += 1;
            }
            false
        },
    }
}

/// A hook that runs a shell command, passing the event as JSON on stdin.
pub struct ShellHook {
    pub event_name: String,
    pub matcher: Option<String>,
    pub command: String,
    pub timeout_secs: u64,
}

/// Context shared by the hooks of a session.
pub struct HookContext {
    pub cwd: String,
}

impl HookContext {
    pub fn new(cwd: String) -> (c: HookContext)
        ensures
            c.cwd == cwd,
    {
        HookContext { cwd }
    }
}

/// What a hook command produced.
pub struct CmdResult {
    pub exit_code: i32,
    pub stdout: String,
    pub stderr: String,
    pub timed_out: bool,
}

/// The structured answer a hook may print: whether to continue, and text to
/// add.
pub struct HookOutput {
    pub should_continue: bool,
    pub additional_context: Option<String>,
    pub decision: Option<String>,
}

impl Default for HookOutput {
    fn default() -> (o: HookOutput)
        ensures
            o.should_continue,
            o.additional_context is None,
            o.decision is None,
    {
        HookOutput { should_continue: true, additional_context: None, decision: None }
    }
}

/// The JSON of the event's own data, as a hook receives it in `tool_input`.
pub open spec fn event_data(e: HookEvent) -> Seq<char> {
    match e {
        HookEvent::PreToolUse { input, .. } => input@,
        HookEvent::UserPromptSubmit { text } => "{\"text\":"@ + json_quote(text@) + "}"@,
        HookEvent::PreCompact { tokens, message_count } => "{\"message_count\":"@ + decimal(
            message_count as nat,
        ) + ",\"tokens\":"@ + decimal(tokens as nat) + "}"@,
        HookEvent::PostCompact {
            tokens_before,
            tokens_after,
            message_count_before,
            message_count_after,
        } => "{\"message_count_after\":"@ + decimal(message_count_after as nat)
            + ",\"message_count_before\":"@ + decimal(message_count_before as nat)
            + ",\"tokens_after\":"@ + decimal(tokens_after as nat) + ",\"tokens_before\":"@ + decimal(
            tokens_before as nat,
        ) + "}"@,
        HookEvent::SubagentStart { description } => "{\"description\":"@ + json_quote(description@)
            + "}"@,
        HookEvent::SubagentStop { summary } => "{\"summary\":"@ + json_quote(summary@) + "}"@,
        HookEvent::Stop { reason, turn } => "{\"reason\":"@ + json_quote(reason@) + ",\"turn\":"@
            + decimal(turn as nat) + "}"@,
        _ => "null"@,
    }
}

/// The JSON a shell hook receives on stdin.
pub open spec fn payload_text(e: HookEvent, cwd: Seq<char>) -> Seq<char> {
    "{\"hook_event_name\":"@ + json_quote(event_name(e)) + ",\"tool_name\":"@ + json_quote(
        event_tool(e),
    ) + ",\"tool_input\":"@ + event_data(e) + match e {
        HookEvent::PostToolUse { output, .. } => ",\"tool_response\":"@ + json_quote(render_output(output)),
        _ => seq![],
    } + ",\"cwd\":"@ + json_quote(cwd) + "}"@
}

/// The decision of a shell hook from what its command produced; `parsed` is
/// its trimmed output read as a `HookOutput`, when it is one.
pub open spec fn shell_decision(command: Seq<char>, r: CmdResult, parsed: Option<HookOutput>) -> DecisionV {
    if r.timed_out {
        DecisionV::Block("Hook timed out: "@ + command)
    } else if r.exit_code == 2 {
        DecisionV::Block(
            if r.stderr@.len() > 0 {
                trim(r.stderr@)
            } else if r.stdout@.len() > 0 {
                trim(r.stdout@)
            } else {
                "Hook returned blocking exit code 2"@
            },
        )
    } else if trim(r.stdout@).len() > 0 {
        match parsed {
            Some(o) => if !o.should_continue {
                DecisionV::Block(
                    match o.additional_context {
                        Some(c) => c@,
                        None => "Hook blocked execution"@,
                    },
                )
            } else {
                match o.additional_context {
                    Some(c) => if c@.len() > 0 { DecisionV::AppendContext(c@) } else { DecisionV::Continue },
                    None => DecisionV::Continue,
                }
            },
            None => DecisionV::AppendContext(trim(r.stdout@)),
        }
    } else {
        DecisionV::Continue
    }
}

fn push_u64(out: &mut String, n: u64)
    ensures
        final(out)@ == old(out)@ + decimal(n as nat),
{
    push_str(out, decimal_string(n).as_str());
}

impl ShellHook {
    pub fn name(&self) -> (s: &str)
        ensures
            s@ == self.event_name@,
    {
        self.event_name.as_str()
    }

    /// Whether the hook runs for `event`: same event name, and a matcher
    /// that selects the event's tool.
    pub fn applies(&self, event: &HookEvent) -> (b: bool)
        ensures
            b == (self.event_name@ == event_name(*event) && matcher_selects(self.matcher, event_tool(*event))),
    {
        str_eq(self.event_name.as_str(), event.name()) && matcher_allows(&self.matcher, event.tool_name())
    }

    /// The JSON passed on stdin for `event`.
    pub fn payload(&self, event: &HookEvent, cwd: &str) -> (out: String)
        requires
            event matches HookEvent::PostToolUse { output, .. } ==> renderable(*output),
        ensures
            out@ == payload_text(*event, cwd@),
    {
        let mut out = "{\"hook_event_name\":".to_owned();
        push_json_quoted(&mut out, event.name());
        push_str(&mut out, ",\"tool_name\":");
        push_json_quoted(&mut out, event.tool_name());
        push_str(&mut out, ",\"tool_input\":");
        match event {
            HookEvent::PreToolUse { input, .. } => push_str(&mut out, input.as_str()),
            HookEvent::UserPromptSubmit { text } => {
                push_str(&mut out, "{\"text\":");
                push_json_quoted(&mut out, text.as_str());
                push_str(&mut out, "}");
            },
            HookEvent::PreCompact { tokens, message_count } => {
                push_str(&mut out, "{\"message_count\":");
                push_u64(&mut out, *message_count as u64);
                push_str(&mut out, ",\"tokens\":");
                push_u64(&mut out, *tokens);
                push_str(&mut out, "}");
            },
            HookEvent::PostCompact {
                tokens_before,
                tokens_after,
                message_count_before,
                message_count_after,
            } => {
                push_str(&mut out, "{\"message_count_after\":");
                push_u64(&mut out, *message_count_after as u64);
                push_str(&mut out, ",\"message_count_before\":");
                push_u64(&mut out, *message_count_before as u64);
                push_str(&mut out, ",\"tokens_after\":");
                push_u64(&mut out, *tokens_after);
                push_str(&mut out, ",\"tokens_before\":");
                push_u64(&mut out, *tokens_before);
                push_str(&mut out, "}");
            },
            HookEvent::SubagentStart { description } => {
                push_str(&mut out, "{\"description\":");
                push_json_quoted(&mut out, description.as_str());
                push_str(&mut out, "}");
            },
            HookEvent::SubagentStop { summary } => {
                push_str(&mut out, "{\"summary\":");
                push_json_quoted(&mut out, summary.as_str());
                push_str(&mut out, "}");
            },
            HookEvent::Stop { reason, turn } => {
                push_str(&mut out, "{\"reason\":");
                push_json_quoted(&mut out, reason.as_str());
                push_str(&mut out, ",\"turn\":");
                push_u64(&mut out, *turn as u64);
                push_str(&mut out, "}");
            },
            _ => push_str(&mut out, "null"),
        }
        match event {
            HookEvent::PostToolUse { output, .. } => {
                push_str(&mut out, ",\"tool_response\":");
                let rendered = output.render();
                push_json_quoted(&mut out, rendered.as_str());
            },
            _ => {},
        }
        push_str(&mut out, ",\"cwd\":");
        push_json_quoted(&mut out, cwd);
        push_str(&mut out, "}");
        out
    }

    /// The hook's decision from what its command produced (see
    /// `shell_decision`).
    pub fn decide(&self, result: &CmdResult, parsed: Option<HookOutput>) -> (d: HookDecision)
        ensures
            d@ == shell_decision(self.command@, *result, parsed),
    {
        if result.timed_out {
            let mut r = "Hook timed out: ".to_owned();
            push_str(&mut r, self.command.as_str());
            return HookDecision::Block(r);
        }
        if result.exit_code == 2 {
            let reason = if !result.stderr.as_str().is_empty() {
                trim_str(result.stderr.as_str())
            } else if !result.stdout.as_str().is_empty() {
                trim_str(result.stdout.as_str())
            } else {
                "Hook returned blocking exit code 2".to_owned()
            };
            return HookDecision::Block(reason);
        }
        let out = trim_str(result.stdout.as_str());
        if !out.as_str().is_empty() {
            match parsed {
                Some(o) => {
                    if !o.should_continue {
                        let reason = match o.additional_context {
                            Some(c) => c,
                            None => "Hook blocked execution".to_owned(),
                        };
                        return HookDecision::Block(reason);
                    }
                    match o.additional_context {
                        Some(c) => {
                            if !c.as_str().is_empty() {
                                return HookDecision::AppendContext(c);
                            }
                        },
                        None => {},
                    }
                },
                None => {
                    return HookDecision::AppendContext(out);
                },
            }
        }
        HookDecision::Continue
    }
}

// ─── Chains ────────────────────────────────────────────────────────────────

/// The shell hooks of a configuration, event by event and group by group:
/// one per `command` action.
pub struct HookChain {
    pub hooks: Vec<ShellHook>,
}

/// A hook as values: event, matcher, command, timeout.
pub open spec fn hook_view(h: ShellHook) -> (Seq<char>, Option<Seq<char>>, Seq<char>, u64) {
    (
        h.event_name@,
        match h.matcher {
            Some(m) => Some(m@),
            None => None,
        },
        h.command@,
        h.timeout_secs,
    )
}

pub open spec fn hook_views(hs: Seq<ShellHook>) -> Seq<(Seq<char>, Option<Seq<char>>, Seq<char>, u64)> {
    hs.map_values(|h: ShellHook| hook_view(h))
}

/// The hooks of one group for `event`.
pub open spec fn group_hooks(g: HookGroup, event: Seq<char>) -> Seq<(Seq<char>, Option<Seq<char>>, Seq<char>, u64)>
    decreases g.hooks@.len(),
{
    actions_hooks(g.hooks@, g.matcher, event)
}

pub open spec fn actions_hooks(
    acts: Seq<HookAction>,
    matcher: Option<String>,
    event: Seq<char>,
) -> Seq<(Seq<char>, Option<Seq<char>>, Seq<char>, u64)>
    decreases acts.len(),
{
    if acts.len() == 0 {
        seq![]
    } else {
        let r = actions_hooks(acts.drop_last(), matcher, event);
        let a = acts.last();
        if a.action_type@ == "command"@ {
            r.push(
                (
                    event,
                    match matcher {
                        Some(m) => Some(m@),
                        None => None,
                    },
                    a.command@,
                    match a.timeout {
                        Some(t) => t,
                        None => 120,
                    },
                ),
            )
        } else {
            r
        }
    }
}

pub open spec fn groups_hooks(gs: Seq<HookGroup>, event: Seq<char>) -> Seq<(Seq<char>, Option<Seq<char>>, Seq<char>, u64)>
    decreases gs.len(),
{
    if gs.len() == 0 {
        seq![]
    } else {
        groups_hooks(gs.drop_last(), event) + group_hooks(gs.last(), event)
    }
}

/// The hooks of the first `n` events of a configuration.
pub open spec fn config_hooks(c: HooksConfig, n: nat) -> Seq<(Seq<char>, Option<Seq<char>>, Seq<char>, u64)>
    decreases n,
{
    if n == 0 {
        seq![]
    } else {
        config_hooks(c, (n - 1) as nat) + groups_hooks(event_lists(c)[n - 1], event_names()[n - 1])
    }
}

fn push_group_hooks(hooks: &mut Vec<ShellHook>, groups: &Vec<HookGroup>, event: &str)
    ensures
        hook_views(final(hooks)@) == hook_views(old(hooks)@) + groups_hooks(groups@, event@),
{
    let mut i: usize = 0;
    while i < groups.len()
        invariant
            i <= groups@.len(),
            hook_views(hooks@) == hook_views(old(hooks)@) + groups_hooks(groups@.take(i as int), event@),
        decreases groups@.len() - i,
    {
        let g = &groups[i];
        let ghost before = hook_views(hooks@);
        let mut j: usize = 0;
        while j < g.hooks.len()
            invariant
                j <= g.hooks@.len(),
                hook_views(hooks@) == before + actions_hooks(g.hooks@.take(j as int), g.matcher, event@),
            decreases g.hooks@.len() - j,
        {
            let a = &g.hooks[j];
            assert(g.hooks@.take(j + 1).drop_last() =~= g.hooks@.take(j as int));
            assert(g.hooks@.take(j + 1).last() == *a);
            if str_eq(a.action_type.as_str(), "command") {
                let matcher = match &g.matcher {
                    Some(m) => Some(m.clone()),
                    None => None,
                };
                let timeout_secs = match a.timeout {
                    Some(t) => t,
                    None => 120,
                };
                let ghost prev = hook_views(hooks@);
                hooks.push(
                    ShellHook {
                        event_name: event.to_owned(),
                        matcher,
                        command: a.command.clone(),
                        timeout_secs,
                    },
                );
                assert(hook_views(hooks@) =~= prev.push(hook_view(hooks@.last())));
            }
            j += 1;
        }
        assert(g.hooks@.take(g.hooks@.len() as int) =~= g.hooks@);
        assert(groups@.take(i + 1).drop_last() =~= groups@.take(i as int));
        assert(groups@.take(i + 1).last() == *g);
        i += 1;
    }
    assert(groups@.take(groups@.len() as int) =~= groups@);
}

impl HookChain {
    pub fn new() -> (c: HookChain)
        ensures
            c.hooks@.len() == 0,
    {
        HookChain { hooks: Vec::new() }
    }

    pub fn push(&mut self, hook: ShellHook)
        ensures
            final(self).hooks@ == old(self).hooks@.push(hook),
    {
        self.hooks.push(hook);
    }

    pub fn is_empty(&self) -> (b: bool)
        ensures
            b == (self.hooks@.len() == 0),
    {
        self.hooks.len() == 0
    }

    /// The chain of a configuration: for each event in turn, each group's
    /// `command` actions as shell hooks with the group's matcher (timeout
    /// 120 seconds when unset).
    pub fn from_config(config: &HooksConfig) -> (c: HookChain)
        ensures
            hook_views(c.hooks@) == config_hooks(*config, 11),
    {
        let mut hooks: Vec<ShellHook> = Vec::new();
        assert(hook_views(hooks@) =~= config_hooks(*config, 0));
        push_group_hooks(&mut hooks, &config.pre_tool_use, "PreToolUse");
        push_group_hooks(&mut hooks, &config.post_tool_use, "PostToolUse");
        push_group_hooks(&mut hooks, &config.notification, "Notification");
        push_group_hooks(&mut hooks, &config.user_prompt_submit, "UserPromptSubmit");
        push_group_hooks(&mut hooks, &config.session_start, "SessionStart");
        push_group_hooks(&mut hooks, &config.session_end, "SessionEnd");
        push_group_hooks(&mut hooks, &config.stop, "Stop");
        push_group_hooks(&mut hooks, &config.subagent_start, "SubagentStart");
        push_group_hooks(&mut hooks, &config.subagent_stop, "SubagentStop");
        push_group_hooks(&mut hooks, &config.pre_compact, "PreCompact");
        push_group_hooks(&mut hooks, &config.post_compact, "PostCompact");
        proof {
            reveal_with_fuel(config_hooks, 12);
        }
        HookChain { hooks }
    }
}

// ─── Entry points ───────────────────────────────────────────────────────────

impl HookDecision {
    /// Whether the chain stops at this decision (a block).
    pub fn ends_chain(&self) -> (b: bool)
        ensures
            b == (*self is Block),
    {
        matches!(self, HookDecision::Block(_))
    }

    /// What a pre-tool chain's decision means for the call: the reason when
    /// it is blocked.
    pub fn block_reason(self) -> (r: Option<String>)
        ensures
            match self {
                HookDecision::Block(t) => r == Some(t),
                _ => r is None,
            },
    {
        match self {
            HookDecision::Block(t) => Some(t),
            _ => None,
        }
    }

    /// What a chain's decision adds to the conversation: the appended
    /// text, or nothing.
    pub fn context_text(self) -> (s: String)
        ensures
            match self {
                HookDecision::AppendContext(t) => s@ == t@,
                _ => s@.len() == 0,
            },
    {
        match self {
            HookDecision::AppendContext(t) => t,
            _ => String::new(),
        }
    }
}

/// The string member `key` of an event's data, or `""`.
pub open spec fn data_str(data: crate::tool_input::ToolInput, key: Seq<char>) -> Seq<char> {
    match data.str_arg(key) {
        Some(s) => s,
        None => seq![],
    }
}

/// The count member `key` of an event's data, or 0.
pub open spec fn data_u64(data: crate::tool_input::ToolInput, key: Seq<char>) -> u64 {
    match data.u64_arg(key) {
        Some(n) => n,
        None => 0,
    }
}

/// The lifecycle event a name and its data stand for; `None` for a name
/// that is not one.
pub open spec fn named_event(name: Seq<char>, data: crate::tool_input::ToolInput) -> Option<DecisionEvent> {
    if name == "SessionStart"@ {
        Some(DecisionEvent::SessionStart)
    } else if name == "SessionEnd"@ {
        Some(DecisionEvent::SessionEnd)
    } else if name == "UserPromptSubmit"@ {
        Some(DecisionEvent::UserPromptSubmit(data_str(data, "text"@)))
    } else if name == "PreCompact"@ {
        Some(DecisionEvent::PreCompact(data_u64(data, "estimated_tokens"@), data_u64(data, "message_count"@) as usize))
    } else if name == "PostCompact"@ {
        Some(
            DecisionEvent::PostCompact(
                data_u64(data, "estimated_tokens"@),
                data_u64(data, "message_count_before"@) as usize,
                data_u64(data, "message_count_after"@) as usize,
            ),
        )
    } else if name == "Stop"@ {
        Some(DecisionEvent::Stop(data_str(data, "reason"@), data_u64(data, "turn"@) as u32))
    } else if name == "SubagentStart"@ {
        Some(DecisionEvent::SubagentStart(data_str(data, "description"@)))
    } else if name == "SubagentStop"@ {
        Some(DecisionEvent::SubagentStop(data_str(data, "summary"@)))
    } else {
        None
    }
}

/// A lifecycle event as values.
pub enum DecisionEvent {
    SessionStart,
    SessionEnd,
    UserPromptSubmit(Seq<char>),
    PreCompact(u64, usize),
    PostCompact(u64, usize, usize),
    Stop(Seq<char>, u32),
    SubagentStart(Seq<char>),
    SubagentStop(Seq<char>),
}

/// A lifecycle event as values (tool events are not lifecycle events).
pub open spec fn lifecycle_view(e: HookEvent) -> Option<DecisionEvent> {
    match e {
        HookEvent::SessionStart => Some(DecisionEvent::SessionStart),
        HookEvent::SessionEnd => Some(DecisionEvent::SessionEnd),
        HookEvent::UserPromptSubmit { text } => Some(DecisionEvent::UserPromptSubmit(text@)),
        HookEvent::PreCompact { tokens, message_count } => Some(DecisionEvent::PreCompact(tokens, message_count)),
        HookEvent::PostCompact { tokens_before, tokens_after, message_count_before, message_count_after } => if tokens_before == 0 {
            Some(DecisionEvent::PostCompact(tokens_after, message_count_before, message_count_after))
        } else {
            None
        },
        HookEvent::Stop { reason, turn } => Some(DecisionEvent::Stop(reason@, turn)),
        HookEvent::SubagentStart { description } => Some(DecisionEvent::SubagentStart(description@)),
        HookEvent::SubagentStop { summary } => Some(DecisionEvent::SubagentStop(summary@)),
        _ => None,
    }
}

fn data_string(data: &crate::tool_input::ToolInput, key: &str) -> (s: String)
    ensures
        s@ == data_str(*data, key@),
{
    match data.get_str(key) {
        Some(t) => t.to_owned(),
        None => String::new(),
    }
}

fn data_count(data: &crate::tool_input::ToolInput, key: &str) -> (n: u64)
    ensures
        n == data_u64(*data, key@),
{
    match data.get_u64(key) {
        Some(n) => n,
        None => 0,
    }
}

impl HookEvent {
    /// The lifecycle event named `name`, its fields read from the JSON
    /// object `data` (missing members read as empty or zero); `None` for a
    /// name that is not a lifecycle event.
    #[verifier::rlimit(40)]
    pub fn from_name(name: &str, data: &crate::tool_input::ToolInput) -> (r: Option<HookEvent>)
        ensures
            match r {
                Some(e) => named_event(name@, *data) == lifecycle_view(e),
                None => named_event(name@, *data) is None,
            },
    {
        if str_eq(name, "SessionStart") {
            Some(HookEvent::SessionStart)
        } else if str_eq(name, "SessionEnd") {
            Some(HookEvent::SessionEnd)
        } else if str_eq(name, "UserPromptSubmit") {
            Some(HookEvent::UserPromptSubmit { text: data_string(data, "text") })
        } else if str_eq(name, "PreCompact") {
            let t = data_count(data, "estimated_tokens");
            let m = data_count(data, "message_count");
            Some(HookEvent::PreCompact { tokens: t, message_count: #[verifier::truncate] (m as usize) })
        } else if str_eq(name, "PostCompact") {
            let t = data_count(data, "estimated_tokens");
            let b = data_count(data, "message_count_before");
            let a = data_count(data, "message_count_after");
            Some(
                HookEvent::PostCompact {
                    tokens_before: 0,
                    tokens_after: t,
                    message_count_before: #[verifier::truncate] (b as usize),
                    message_count_after: #[verifier::truncate] (a as usize),
                },
            )
        } else if str_eq(name, "Stop") {
            let reason = data_string(data, "reason");
            let turn = data_count(data, "turn");
            Some(HookEvent::Stop { reason, turn: #[verifier::truncate] (turn as u32) })
        } else if str_eq(name, "SubagentStart") {
            Some(HookEvent::SubagentStart { description: data_string(data, "description") })
        } else if str_eq(name, "SubagentStop") {
            Some(HookEvent::SubagentStop { summary: data_string(data, "summary") })
        } else {
            None
        }
    }
}

} // verus!
