//! The decisions of the agent loop: which model to call, what to do with a
//! reply (finish, nudge, recover, run tools), how to notice a model stuck on
//! the same tool calls, when to stop, and how tool input and results are
//! checked and shaped. The caller performs the calls and the I/O.

use vstd::prelude::*;
use crate::background_tasks::{bg_status_text, BackgroundTask};
use crate::events::StatusLevel;
use crate::messages::{block_views, message_views, BlockV, ContentBlock, Message, StopReason};
use crate::model_router::{heavy_name, light_name, pick_model, picked_model, Intensity, MODEL_HEAVY, MODEL_LIGHT};
use crate::text::{
    blen,     decimal, decimal_string, first_line, first_line_of, join, prefix, prefix_chars, push_joined,
    push_str, sort_strings, sort_texts, str_eq, trim, trim_str, views,
};
use crate::tool_input::{ArgValue, ToolInput};

verus! {

/// Largest tool result, in bytes, kept whole.
pub const MAX_TOOL_RESULT_CHARS: usize = 50000;

/// Estimated tokens above which the conversation is compacted.
pub const AUTO_COMPACT_TOKEN_THRESHOLD: u64 = 80000;

/// Messages kept when compacting automatically.
pub const AUTO_COMPACT_KEEP_RECENT: usize = 10;

/// Messages kept when compacting because the context was too long.
pub const OVERFLOW_KEEP_RECENT: usize = 6;

/// Consecutive `max_tokens` replies answered with a continuation nudge.
pub const MAX_OUTPUT_RECOVERY_ATTEMPTS: u32 = 3;

/// Retries of an API call after a transient error.
pub const MAX_API_RETRIES: u32 = 3;

/// Consecutive empty replies tolerated.
pub const MAX_EMPTY_END_TURN: u32 = 3;

/// Repeats of identical tool calls after which the model is warned.
pub const MAX_REPEATED_TOOL_CALLS: usize = 3;

// ─── State ─────────────────────────────────────────────────────────────────

/// What the loop remembers between turns.
pub struct LoopState {
    pub turns: usize,
    pub max_tokens_recoveries: u32,
    pub last_tool_names: Vec<String>,
    pub last_tool_signature: Option<String>,
    pub repeated_tool_count: usize,
    pub empty_end_turn_count: u32,
    pub empty_response_fallback_model: Option<String>,
    pub validation_failure_fallback_model: Option<String>,
}

/// The loop state as values.
pub struct LoopView {
    pub turns: nat,
    pub recoveries: nat,
    pub names: Seq<Seq<char>>,
    pub signature: Option<Seq<char>>,
    pub repeats: nat,
    pub empty_count: nat,
    pub empty_fallback: Option<Seq<char>>,
    pub validation_fallback: Option<Seq<char>>,
}

pub open spec fn opt_text(o: Option<String>) -> Option<Seq<char>> {
    match o {
        Some(s) => Some(s@),
        None => None,
    }
}

impl View for LoopState {
    type V = LoopView;

    open spec fn view(&self) -> LoopView {
        LoopView {
            turns: self.turns as nat,
            recoveries: self.max_tokens_recoveries as nat,
            names: views(self.last_tool_names@),
            signature: opt_text(self.last_tool_signature),
            repeats: self.repeated_tool_count as nat,
            empty_count: self.empty_end_turn_count as nat,
            empty_fallback: opt_text(self.empty_response_fallback_model),
            validation_fallback: opt_text(self.validation_failure_fallback_model),
        }
    }
}

/// The counters of a running loop stay below the limits that end it.
pub open spec fn loop_wf(v: LoopView) -> bool {
    &&& v.empty_count < 3
    &&& v.recoveries <= 3
    &&& v.repeats < 5
}

/// A status line for the user; `verbose_only` lines show in verbose mode.
pub struct Notice {
    pub level: StatusLevel,
    pub text: String,
    pub verbose_only: bool,
}

pub open spec fn notice_views(ns: Seq<Notice>) -> Seq<(StatusLevel, Seq<char>, bool)> {
    ns.map_values(|n: Notice| (n.level, n.text@, n.verbose_only))
}

fn notice(level: StatusLevel, text: String) -> (n: Notice)
    ensures
        n.level == level,
        n.text@ == text@,
        !n.verbose_only,
{
    Notice { level, text, verbose_only: false }
}

impl LoopState {
    pub fn new() -> (s: LoopState)
        ensures
            s@ == (LoopView {
                turns: 0,
                recoveries: 0,
                names: seq![],
                signature: None,
                repeats: 0,
                empty_count: 0,
                empty_fallback: None,
                validation_fallback: None,
            }),
            loop_wf(s@),
    {
        let s = LoopState {
            turns: 0,
            max_tokens_recoveries: 0,
            last_tool_names: Vec::new(),
            last_tool_signature: None,
            repeated_tool_count: 0,
            empty_end_turn_count: 0,
            empty_response_fallback_model: None,
            validation_failure_fallback_model: None,
        };
        assert(views(s.last_tool_names@) =~= Seq::<Seq<char>>::empty());
        s
    }
}

// ─── Choosing the model ────────────────────────────────────────────────────

/// The model for the next call and the state after the choice: a pending
/// fallback after a validation failure, else one after empty replies, else
/// the routed model `routed`. The fallback used is cleared.
pub open spec fn model_choice(v: LoopView, routed: Seq<char>) -> (LoopView, Seq<char>) {
    match v.validation_fallback {
        Some(m) => (LoopView { validation_fallback: None, ..v }, m),
        None => match v.empty_fallback {
            Some(m) => (LoopView { empty_fallback: None, ..v }, m),
            None => (v, routed),
        },
    }
}

impl LoopState {
    /// Chooses the model for the next call.
    pub fn next_model(
        &mut self,
        configured_model: &str,
        messages: &[Message],
        auto_route: bool,
        intensity: Intensity,
    ) -> (m: String)
        ensures
            ({
                let routed = picked_model(
                    configured_model@,
                    message_views(messages@),
                    old(self)@.names,
                    old(self)@.turns,
                    auto_route,
                    intensity,
                );
                &&& final(self)@ == model_choice(old(self)@, routed).0
                &&& m@ == model_choice(old(self)@, routed).1
            }),
    {
        match self.validation_failure_fallback_model.take() {
            Some(m) => m,
            None => match self.empty_response_fallback_model.take() {
                Some(m) => m,
                None => pick_model(
                    configured_model,
                    messages,
                    self.last_tool_names.as_slice(),
                    self.turns,
                    auto_route,
                    intensity,
                ),
            },
        }
    }
}

// ─── Handling a reply ──────────────────────────────────────────────────────

/// What the loop does with a reply.
#[derive(Debug, Clone, Copy, PartialEq, Eq, Structural)]
pub enum ReplyKind {
    /// First empty reply in a row: nudge the model.
    FirstEmptyNudge,
    /// Second empty reply in a row: nudge again, on the heavy model.
    SecondEmptyNudge,
    /// Third empty reply in a row: stop.
    EmptyExhausted,
    /// The model ended its turn: stop (after the `Stop` hooks).
    Finished,
    /// Output cut off by the token limit: ask the model to continue.
    ContinueNudge,
    /// Output cut off once more than the recoveries allow: stop.
    MaxTokensExhausted,
    /// The reply calls tools: run them.
    RunTools,
    /// Any other reply: the turn ends without tools.
    NoTools,
}

pub open spec fn reply_stops(k: ReplyKind) -> bool {
    k == ReplyKind::EmptyExhausted || k == ReplyKind::Finished || k == ReplyKind::MaxTokensExhausted
}

/// The state after a reply and what to do with it. `routed_heavy` says
/// whether routing would pick the heavy model now (it decides the fallback
/// after a second empty reply).
pub open spec fn reply_next(
    v: LoopView,
    stop: StopReason,
    has_text: bool,
    has_tools: bool,
    routed_heavy: bool,
) -> (LoopView, ReplyKind) {
    if stop == StopReason::EndTurn {
        if !has_text && !has_tools && v.turns > 0 {
            let c = v.empty_count + 1;
            if c == 1 {
                (LoopView { empty_count: c, turns: v.turns + 1, ..v }, ReplyKind::FirstEmptyNudge)
            } else if c == 2 {
                (
                    LoopView {
                        empty_count: c,
                        turns: v.turns + 1,
                        empty_fallback: if routed_heavy { None } else { Some(heavy_name()) },
                        ..v
                    },
                    ReplyKind::SecondEmptyNudge,
                )
            } else {
                (LoopView { empty_count: c, ..v }, ReplyKind::EmptyExhausted)
            }
        } else {
            (LoopView { empty_count: 0, empty_fallback: None, ..v }, ReplyKind::Finished)
        }
    } else {
        let w = LoopView { empty_count: 0, empty_fallback: None, ..v };
        if stop == StopReason::MaxTokens {
            let r = v.recoveries + 1;
            if r <= 3 {
                (LoopView { recoveries: r, turns: v.turns + 1, ..w }, ReplyKind::ContinueNudge)
            } else {
                (LoopView { recoveries: r, ..w }, ReplyKind::MaxTokensExhausted)
            }
        } else if stop == StopReason::ToolUse {
            (LoopView { recoveries: 0, ..w }, ReplyKind::RunTools)
        } else {
            (LoopView { recoveries: 0, names: seq![], ..w }, ReplyKind::NoTools)
        }
    }
}

pub open spec fn first_nudge_text() -> Seq<char> {
    "You returned an empty response. Please continue your analysis based on the tool results above. Summarize what you found and proceed with the next step."@
}

pub open spec fn second_nudge_text() -> Seq<char> {
    "You returned an empty response again. Please respond to the user's request. Analyze the conversation and tool results and provide your answer."@
}

pub open spec fn continue_text() -> Seq<char> {
    "Continue from where you left off. Do not repeat what you already said."@
}

/// The user message a reply is answered with, if any.
pub open spec fn reply_prompt(k: ReplyKind) -> Option<Seq<char>> {
    match k {
        ReplyKind::FirstEmptyNudge => Some(first_nudge_text()),
        ReplyKind::SecondEmptyNudge => Some(second_nudge_text()),
        ReplyKind::ContinueNudge => Some(continue_text()),
        _ => None,
    }
}

/// The status lines for a reply; `v` is the state before it, `n` after it.
pub open spec fn reply_notices(v: LoopView, n: LoopView, k: ReplyKind) -> Seq<(StatusLevel, Seq<char>, bool)> {
    match k {
        ReplyKind::FirstEmptyNudge => seq![
            (StatusLevel::Warning, "[warning: empty end_turn (attempt 1/3), injecting nudge]"@, false),
        ],
        ReplyKind::SecondEmptyNudge => seq![
            (
                StatusLevel::Warning,
                if n.empty_fallback is Some {
                    "[warning: empty end_turn (attempt 2/3), switching to 'trinity-large-thinking']"@
                } else {
                    "[warning: empty end_turn (attempt 2/3), retrying with nudge]"@
                },
                false,
            ),
        ],
        ReplyKind::EmptyExhausted => seq![
            (
                StatusLevel::Dim,
                "[loop exit: empty end_turn 3 times at turn "@ + decimal(v.turns)
                    + ", recovery exhausted]"@,
                false,
            ),
        ],
        ReplyKind::Finished => seq![
            (StatusLevel::Dim, "[loop exit: model returned end_turn at turn "@ + decimal(v.turns) + "]"@, false),
        ],
        ReplyKind::ContinueNudge => seq![
            (StatusLevel::Dim, "[max_tokens hit, recovery attempt "@ + decimal(n.recoveries) + "/3]"@, true),
        ],
        ReplyKind::MaxTokensExhausted => seq![
            (
                StatusLevel::Error,
                "[loop exit: max_tokens hit 3 times, unrecoverable at turn "@ + decimal(v.turns) + "]"@,
                false,
            ),
            (StatusLevel::Warning, "(max tokens reached, could not recover)"@, false),
        ],
        _ => seq![],
    }
}

/// What to do with a reply: its kind, the user message to add (for nudges)
/// and the status lines to show.
pub struct ReplyStep {
    pub kind: ReplyKind,
    pub prompt: Option<String>,
    pub notices: Vec<Notice>,
}

/// Whether some text block holds more than whitespace.
pub open spec fn blocks_have_text(bs: Seq<BlockV>) -> bool {
    exists|i: int| 0 <= i < bs.len() && (#[trigger] bs[i] matches BlockV::Text(t) && trim(t).len() > 0)
}

/// Whether some block is a tool call.
pub open spec fn blocks_have_calls(bs: Seq<BlockV>) -> bool {
    exists|i: int| 0 <= i < bs.len() && #[trigger] bs[i] is ToolUse
}

/// Whether the reply holds text other than whitespace, and whether it calls
/// tools.
pub fn reply_contents(blocks: &Vec<ContentBlock>) -> (r: (bool, bool))
    ensures
        r.0 == blocks_have_text(block_views(blocks@)),
        r.1 == blocks_have_calls(block_views(blocks@)),
{
    let ghost bv = block_views(blocks@);
    let mut has_text = false;
    let mut has_calls = false;
    let mut i: usize = 0;
    while i < blocks.len()
        invariant
            i <= blocks.len(),
            bv == block_views(blocks@),
            has_text == exists|j: int| 0 <= j < i && (#[trigger] bv[j] matches BlockV::Text(t) && trim(t).len() > 0),
            has_calls == exists|j: int| 0 <= j < i && #[trigger] bv[j] is ToolUse,
        decreases blocks.len() - i,
    {
        assert(bv[i as int] == blocks@[i as int]@);
        match &blocks[i] {
            ContentBlock::Text { text } => {
                if !trim_str(text.as_str()).as_str().is_empty() {
                    has_text = true;
                }
            },
            ContentBlock::ToolUse { .. } => {
                has_calls = true;
            },
            _ => {},
        }
        i += 1;
    }
    (has_text, has_calls)
}

impl LoopState {
    /// Handles a reply that stopped for `stop`; `has_text` and `has_tool_calls`
    /// describe its content (see `reply_contents`). On the second empty reply
    /// in a row the heavy model is scheduled unless routing already picks it.
    pub fn after_reply(
        &mut self,
        stop: StopReason,
        has_text: bool,
        has_tool_calls: bool,
        configured_model: &str,
        messages: &[Message],
        auto_route: bool,
        intensity: Intensity,
    ) -> (step: ReplyStep)
        requires
            loop_wf(old(self)@),
            old(self).turns < usize::MAX,
        ensures
            ({
                let routed_heavy = picked_model(
                    configured_model@,
                    message_views(messages@),
                    old(self)@.names,
                    old(self)@.turns,
                    auto_route,
                    intensity,
                ) == heavy_name();
                let (n, k) = reply_next(old(self)@, stop, has_text, has_tool_calls, routed_heavy);
                &&& final(self)@ == n
                &&& step.kind == k
                &&& opt_text(step.prompt) == reply_prompt(k)
                &&& notice_views(step.notices@) == reply_notices(old(self)@, n, k)
            }),
            !reply_stops(step.kind) ==> loop_wf(final(self)@),
    {
        let ghost v = self@;
        let mut notices: Vec<Notice> = Vec::new();
        if stop == StopReason::EndTurn {
            if !has_text && !has_tool_calls && self.turns > 0 {
                self.empty_end_turn_count = self.empty_end_turn_count + 1;
                if self.empty_end_turn_count == 1 {
                    notices.push(
                        notice(
                            StatusLevel::Warning,
                            "[warning: empty end_turn (attempt 1/3), injecting nudge]".to_owned(),
                        ),
                    );
                    self.turns = self.turns + 1;
                    proof {
                        assert(notice_views(notices@) =~= reply_notices(v, self@, ReplyKind::FirstEmptyNudge));
                    }
                    return ReplyStep {
                        kind: ReplyKind::FirstEmptyNudge,
                        prompt: Some(
                            "You returned an empty response. Please continue your analysis based on the tool results above. Summarize what you found and proceed with the next step.".to_owned(),
                        ),
                        notices,
                    };
                } else if self.empty_end_turn_count == 2 {
                    let current = pick_model(
                        configured_model,
                        messages,
                        self.last_tool_names.as_slice(),
                        self.turns,
                        auto_route,
                        intensity,
                    );
                    if str_eq(current.as_str(), MODEL_HEAVY) {
                        self.empty_response_fallback_model = None;
                        notices.push(
                            notice(
                                StatusLevel::Warning,
                                "[warning: empty end_turn (attempt 2/3), retrying with nudge]".to_owned(),
                            ),
                        );
                    } else {
                        self.empty_response_fallback_model = Some(MODEL_HEAVY.to_owned());
                        notices.push(
                            notice(
                                StatusLevel::Warning,
                                "[warning: empty end_turn (attempt 2/3), switching to 'trinity-large-thinking']".to_owned(),
                            ),
                        );
                    }
                    self.turns = self.turns + 1;
                    proof {
                        assert(notice_views(notices@) =~= reply_notices(v, self@, ReplyKind::SecondEmptyNudge));
                    }
                    return ReplyStep {
                        kind: ReplyKind::SecondEmptyNudge,
                        prompt: Some(
                            "You returned an empty response again. Please respond to the user's request. Analyze the conversation and tool results and provide your answer.".to_owned(),
                        ),
                        notices,
                    };
                } else {
                    let mut t = "[loop exit: empty end_turn 3 times at turn ".to_owned();
                    push_str(&mut t, decimal_string(self.turns as u64).as_str());
                    push_str(&mut t, ", recovery exhausted]");
                    notices.push(notice(StatusLevel::Dim, t));
                    proof {
                        assert(notice_views(notices@) =~= reply_notices(v, self@, ReplyKind::EmptyExhausted));
                    }
                    return ReplyStep { kind: ReplyKind::EmptyExhausted, prompt: None, notices };
                }
            } else {
                self.empty_end_turn_count = 0;
                self.empty_response_fallback_model = None;
                let mut t = "[loop exit: model returned end_turn at turn ".to_owned();
                push_str(&mut t, decimal_string(self.turns as u64).as_str());
                push_str(&mut t, "]");
                notices.push(notice(StatusLevel::Dim, t));
                proof {
                    assert(notice_views(notices@) =~= reply_notices(v, self@, ReplyKind::Finished));
                }
                return ReplyStep { kind: ReplyKind::Finished, prompt: None, notices };
            }
        }
        self.empty_end_turn_count = 0;
        self.empty_response_fallback_model = None;
        if stop == StopReason::MaxTokens {
            self.max_tokens_recoveries = self.max_tokens_recoveries + 1;
            if self.max_tokens_recoveries <= MAX_OUTPUT_RECOVERY_ATTEMPTS {
                let mut t = "[max_tokens hit, recovery attempt ".to_owned();
                push_str(&mut t, decimal_string(self.max_tokens_recoveries as u64).as_str());
                push_str(&mut t, "/3]");
                notices.push(Notice { level: StatusLevel::Dim, text: t, verbose_only: true });
                self.turns = self.turns + 1;
                proof {
                    assert(notice_views(notices@) =~= reply_notices(v, self@, ReplyKind::ContinueNudge));
                }
                return ReplyStep {
                    kind: ReplyKind::ContinueNudge,
                    prompt: Some("Continue from where you left off. Do not repeat what you already said.".to_owned()),
                    notices,
                };
            } else {
                let mut t = "[loop exit: max_tokens hit 3 times, unrecoverable at turn ".to_owned();
                push_str(&mut t, decimal_string(self.turns as u64).as_str());
                push_str(&mut t, "]");
                notices.push(notice(StatusLevel::Error, t));
                notices.push(notice(StatusLevel::Warning, "(max tokens reached, could not recover)".to_owned()));
                proof {
                    assert(notice_views(notices@) =~= reply_notices(v, self@, ReplyKind::MaxTokensExhausted));
                }
                return ReplyStep { kind: ReplyKind::MaxTokensExhausted, prompt: None, notices };
            }
        }
        self.max_tokens_recoveries = 0;
        if stop == StopReason::ToolUse {
            proof {
                assert(notice_views(notices@) =~= reply_notices(v, self@, ReplyKind::RunTools));
            }
            ReplyStep { kind: ReplyKind::RunTools, prompt: None, notices }
        } else {
            self.last_tool_names = Vec::new();
            proof {
                assert(views(self.last_tool_names@) =~= Seq::<Seq<char>>::empty());
                assert(notice_views(notices@) =~= reply_notices(v, self@, ReplyKind::NoTools));
            }
            ReplyStep { kind: ReplyKind::NoTools, prompt: None, notices }
        }
    }
}

// ─── Tool calls and stuck-loop detection ──────────────────────────────────

/// A tool call as values: id, tool name, JSON arguments.
pub open spec fn call_values(calls: Seq<(String, String, String)>) -> Seq<(Seq<char>, Seq<char>, Seq<char>)> {
    calls.map_values(|c: (String, String, String)| (c.0@, c.1@, c.2@))
}

pub open spec fn call_text(c: (Seq<char>, Seq<char>, Seq<char>)) -> Seq<char> {
    c.1 + ":"@ + c.2
}

pub open spec fn call_texts(cs: Seq<(Seq<char>, Seq<char>, Seq<char>)>) -> Seq<Seq<char>> {
    cs.map_values(|c: (Seq<char>, Seq<char>, Seq<char>)| call_text(c))
}

pub open spec fn call_names(cs: Seq<(Seq<char>, Seq<char>, Seq<char>)>) -> Seq<Seq<char>> {
    cs.map_values(|c: (Seq<char>, Seq<char>, Seq<char>)| c.1)
}

/// What identifies a batch of tool calls: each `name:arguments`, sorted,
/// joined by `|`.
pub open spec fn call_signature(cs: Seq<(Seq<char>, Seq<char>, Seq<char>)>) -> Seq<char> {
    join(sort_texts(call_texts(cs)), "|"@)
}

/// What the loop does with a batch of tool calls.
#[derive(Debug, Clone, Copy, PartialEq, Eq, Structural)]
pub enum ToolKind {
    /// Run the calls.
    Execute,
    /// The same calls again: answer each with a warning instead.
    WarnRepeated,
    /// The warnings were ignored: answer each with an abort message and stop.
    ForceStop,
}

/// The state after a batch of tool calls and what to do with it.
pub open spec fn tools_next(v: LoopView, cs: Seq<(Seq<char>, Seq<char>, Seq<char>)>) -> (LoopView, ToolKind) {
    let sig = call_signature(cs);
    let repeats = if v.signature == Some(sig) { v.repeats + 1 } else { 1 };
    let w = LoopView { names: call_names(cs), repeats, signature: Some(sig), ..v };
    if repeats >= 5 {
        (w, ToolKind::ForceStop)
    } else if repeats >= 3 {
        (LoopView { turns: v.turns + 1, ..w }, ToolKind::WarnRepeated)
    } else {
        (w, ToolKind::Execute)
    }
}

pub open spec fn stuck_warning(names: Seq<Seq<char>>, n: nat) -> Seq<char> {
    "STOP: You have called the exact same tool(s) ("@ + join(names, ", "@)
        + ") with the exact same arguments "@ + decimal(n)
        + " times in a row, getting the same result each time. This is a stuck loop. You MUST try a completely different approach. Do NOT retry the same command. Either:\n1. Fix the underlying issue (e.g. wrong parameters, missing config)\n2. Ask the user for help\n3. Explain what went wrong and stop"@
}

pub open spec fn stuck_abort(names: Seq<Seq<char>>) -> Seq<char> {
    "The AI got stuck calling "@ + join(names, ", "@)
        + " repeatedly with the same arguments and could not recover. Please try rephrasing your request."@
}

/// Tool results as values: call id, content, error flag.
pub open spec fn result_views(rs: Seq<(String, String, bool)>) -> Seq<(Seq<char>, Seq<char>, bool)> {
    rs.map_values(|r: (String, String, bool)| (r.0@, r.1@, r.2))
}

/// One error result with `msg` per call.
pub open spec fn results_for(cs: Seq<(Seq<char>, Seq<char>, Seq<char>)>, msg: Seq<char>) -> Seq<(Seq<char>, Seq<char>, bool)> {
    cs.map_values(|c: (Seq<char>, Seq<char>, Seq<char>)| (c.0, msg, true))
}

pub open spec fn tool_results_spec(n: LoopView, k: ToolKind, cs: Seq<(Seq<char>, Seq<char>, Seq<char>)>) -> Seq<(Seq<char>, Seq<char>, bool)> {
    match k {
        ToolKind::Execute => seq![],
        ToolKind::WarnRepeated => results_for(cs, stuck_warning(call_names(cs), n.repeats)),
        ToolKind::ForceStop => results_for(cs, stuck_abort(call_names(cs))),
    }
}

pub open spec fn tool_notices(n: LoopView, k: ToolKind, cs: Seq<(Seq<char>, Seq<char>, Seq<char>)>) -> Seq<(StatusLevel, Seq<char>, bool)> {
    match k {
        ToolKind::Execute => seq![],
        ToolKind::WarnRepeated => seq![
            (
                StatusLevel::Warning,
                "[stuck-loop detected: same tool call repeated "@ + decimal(n.repeats)
                    + " times, injecting warning]"@,
                false,
            ),
        ],
        ToolKind::ForceStop => seq![
            (
                StatusLevel::Error,
                "[stuck-loop: model ignored warnings, force-stopping after "@ + decimal(n.repeats)
                    + " repeats]"@,
                false,
            ),
            (StatusLevel::Warning, stuck_abort(call_names(cs)), false),
        ],
    }
}

/// What to do with a batch of tool calls: its kind, the results that answer
/// the calls instead of running them, and the status lines to show.
pub struct ToolStep {
    pub kind: ToolKind,
    pub results: Vec<(String, String, bool)>,
    pub notices: Vec<Notice>,
}

/// The tool calls of a reply, in order: id, name, JSON arguments.
pub open spec fn calls_of(bs: Seq<BlockV>) -> Seq<(Seq<char>, Seq<char>, Seq<char>)>
    decreases bs.len(),
{
    if bs.len() == 0 {
        seq![]
    } else {
        let r = calls_of(bs.drop_last());
        match bs.last() {
            BlockV::ToolUse(id, name, input) => r.push((id, name, input)),
            _ => r,
        }
    }
}

/// The tool calls of a reply.
pub fn tool_uses(blocks: &Vec<ContentBlock>) -> (calls: Vec<(String, String, String)>)
    ensures
        call_values(calls@) == calls_of(block_views(blocks@)),
{
    let ghost bv = block_views(blocks@);
    let mut calls: Vec<(String, String, String)> = Vec::new();
    let mut i: usize = 0;
    while i < blocks.len()
        invariant
            i <= blocks.len(),
            bv == block_views(blocks@),
            call_values(calls@) == calls_of(bv.take(i as int)),
        decreases blocks.len() - i,
    {
        assert(bv.take(i + 1).drop_last() =~= bv.take(i as int));
        assert(bv.take(i + 1).last() == blocks@[i as int]@);
        match &blocks[i] {
            ContentBlock::ToolUse { id, name, input } => {
                calls.push((id.clone(), name.clone(), input.clone()));
                assert(call_values(calls@) =~= call_values(calls@.drop_last()).push(
                    (id@, name@, input@),
                ));
            },
            _ => {},
        }
        i += 1;
    }
    assert(bv.take(blocks.len() as int) =~= bv);
    calls
}

fn answer_all(calls: &Vec<(String, String, String)>, msg: &str) -> (rs: Vec<(String, String, bool)>)
    ensures
        result_views(rs@) == results_for(call_values(calls@), msg@),
{
    let mut rs: Vec<(String, String, bool)> = Vec::new();
    let mut i: usize = 0;
    while i < calls.len()
        invariant
            i <= calls.len(),
            result_views(rs@) == results_for(call_values(calls@.take(i as int)), msg@),
        decreases calls.len() - i,
    {
        rs.push((calls[i].0.clone(), msg.to_owned(), true));
        proof {
            assert(result_views(rs@) =~= result_views(rs@.drop_last()).push((calls@[i as int].0@, msg@, true)));
            let cv = (calls@[i as int].0@, calls@[i as int].1@, calls@[i as int].2@);
            assert(call_values(calls@.take(i + 1)) =~= call_values(calls@.take(i as int)).push(cv));
            assert(results_for(call_values(calls@.take(i + 1)), msg@) =~= results_for(
                call_values(calls@.take(i as int)),
                msg@,
            ).push((cv.0, msg@, true)));
        }
        i += 1;
    }
    assert(calls@.take(calls.len() as int) =~= calls@);
    rs
}

impl LoopState {
    /// Records a batch of tool calls and decides whether to run them: the
    /// same batch (by `call_signature`) three times in a row is answered with
    /// a warning, five times stops the loop.
    pub fn after_tool_calls(&mut self, calls: &Vec<(String, String, String)>) -> (step: ToolStep)
        requires
            loop_wf(old(self)@),
            old(self).turns < usize::MAX,
        ensures
            ({
                let cs = call_values(calls@);
                let (n, k) = tools_next(old(self)@, cs);
                &&& final(self)@ == n
                &&& step.kind == k
                &&& result_views(step.results@) == tool_results_spec(n, k, cs)
                &&& notice_views(step.notices@) == tool_notices(n, k, cs)
            }),
            step.kind != ToolKind::ForceStop ==> loop_wf(final(self)@),
    {
        let ghost cs = call_values(calls@);
        let mut names: Vec<String> = Vec::new();
        let mut texts: Vec<String> = Vec::new();
        let mut i: usize = 0;
        while i < calls.len()
            invariant
                i <= calls.len(),
                cs == call_values(calls@),
                views(names@) == call_names(cs.take(i as int)),
                views(texts@) == call_texts(cs.take(i as int)),
            decreases calls.len() - i,
        {
            let c = &calls[i];
            names.push(c.1.clone());
            let mut t = c.1.clone();
            push_str(&mut t, ":");
            push_str(&mut t, c.2.as_str());
            texts.push(t);
            proof {
                assert(cs.take(i + 1) =~= cs.take(i as int).push(cs[i as int]));
                assert(views(names@) =~= views(names@.drop_last()).push(c.1@));
                assert(views(texts@) =~= views(texts@.drop_last()).push(texts@.last()@));
                assert(call_names(cs.take(i + 1)) =~= call_names(cs.take(i as int)).push(c.1@));
                assert(call_texts(cs.take(i + 1)) =~= call_texts(cs.take(i as int)).push(
                    call_text(cs[i as int]),
                ));
            }
            i += 1;
        }
        assert(cs.take(calls.len() as int) =~= cs);
        let sorted = sort_strings(&texts);
        let mut sig = String::new();
        push_joined(&mut sig, &sorted, "|");
        let same = match &self.last_tool_signature {
            Some(prev) => str_eq(prev.as_str(), sig.as_str()),
            None => false,
        };
        let mut joined_names = String::new();
        push_joined(&mut joined_names, &names, ", ");
        self.last_tool_names = names;
        if same {
            self.repeated_tool_count = self.repeated_tool_count + 1;
        } else {
            self.repeated_tool_count = 1;
            self.last_tool_signature = Some(sig);
        }
        let mut notices: Vec<Notice> = Vec::new();
        let ghost n = self@;
        if self.repeated_tool_count >= MAX_REPEATED_TOOL_CALLS + 2 {
            let mut e = "[stuck-loop: model ignored warnings, force-stopping after ".to_owned();
            push_str(&mut e, decimal_string(self.repeated_tool_count as u64).as_str());
            push_str(&mut e, " repeats]");
            notices.push(notice(StatusLevel::Error, e));
            let mut abort = "The AI got stuck calling ".to_owned();
            push_str(&mut abort, joined_names.as_str());
            push_str(
                &mut abort,
                " repeatedly with the same arguments and could not recover. Please try rephrasing your request.",
            );
            let results = answer_all(calls, abort.as_str());
            notices.push(notice(StatusLevel::Warning, abort));
            proof {
                assert(notice_views(notices@) =~= tool_notices(n, ToolKind::ForceStop, cs));
            }
            ToolStep { kind: ToolKind::ForceStop, results, notices }
        } else if self.repeated_tool_count >= MAX_REPEATED_TOOL_CALLS {
            let mut w = "[stuck-loop detected: same tool call repeated ".to_owned();
            push_str(&mut w, decimal_string(self.repeated_tool_count as u64).as_str());
            push_str(&mut w, " times, injecting warning]");
            notices.push(notice(StatusLevel::Warning, w));
            let mut warning = "STOP: You have called the exact same tool(s) (".to_owned();
            push_str(&mut warning, joined_names.as_str());
            push_str(&mut warning, ") with the exact same arguments ");
            push_str(&mut warning, decimal_string(self.repeated_tool_count as u64).as_str());
            push_str(
                &mut warning,
                " times in a row, getting the same result each time. This is a stuck loop. You MUST try a completely different approach. Do NOT retry the same command. Either:\n1. Fix the underlying issue (e.g. wrong parameters, missing config)\n2. Ask the user for help\n3. Explain what went wrong and stop",
            );
            let results = answer_all(calls, warning.as_str());
            self.turns = self.turns + 1;
            proof {
                assert(notice_views(notices@) =~= tool_notices(n, ToolKind::WarnRepeated, cs));
            }
            ToolStep { kind: ToolKind::WarnRepeated, results, notices }
        } else {
            let results: Vec<(String, String, bool)> = Vec::new();
            proof {
                assert(notice_views(notices@) =~= tool_notices(n, ToolKind::Execute, cs));
                assert(result_views(results@) =~= Seq::<(Seq<char>, Seq<char>, bool)>::empty());
            }
            ToolStep { kind: ToolKind::Execute, results, notices }
        }
    }
}

// ─── End of a turn ─────────────────────────────────────────────────────────

/// The state after a turn and whether the turn limit stops the loop. A
/// validation failure on the light model schedules the heavy one.
pub open spec fn turn_end(v: LoopView, validation_failed: bool, model: Seq<char>, max_turns: nat) -> (LoopView, bool) {
    let w = if validation_failed && model == light_name() {
        LoopView { validation_fallback: Some(heavy_name()), ..v }
    } else {
        v
    };
    (LoopView { turns: v.turns + 1, ..w }, v.turns + 1 >= max_turns)
}

pub open spec fn turn_end_notices(v: LoopView, validation_failed: bool, model: Seq<char>, max_turns: nat) -> Seq<(StatusLevel, Seq<char>, bool)> {
    let a: Seq<(StatusLevel, Seq<char>, bool)> = if validation_failed && model == light_name() {
        seq![(StatusLevel::Dim, "[validation failure on light model, escalating to heavy]"@, false)]
    } else {
        seq![]
    };
    if v.turns + 1 >= max_turns {
        a + seq![
            (StatusLevel::Error, "[loop exit: max turns limit ("@ + decimal(max_turns) + ") reached]"@, false),
            (StatusLevel::Warning, "Max turns ("@ + decimal(max_turns) + ") reached."@, false),
        ]
    } else {
        a
    }
}

impl LoopState {
    /// Ends a turn that called `model`: counts it, and says whether the turn
    /// limit is reached.
    pub fn finish_turn(&mut self, had_validation_failure: bool, model: &str, max_turns: usize) -> (r: (bool, Vec<Notice>))
        requires
            old(self).turns < usize::MAX,
        ensures
            final(self)@ == turn_end(old(self)@, had_validation_failure, model@, max_turns as nat).0,
            r.0 == turn_end(old(self)@, had_validation_failure, model@, max_turns as nat).1,
            notice_views(r.1@) == turn_end_notices(old(self)@, had_validation_failure, model@, max_turns as nat),
            loop_wf(old(self)@) ==> loop_wf(final(self)@),
    {
        let ghost v = self@;
        let mut notices: Vec<Notice> = Vec::new();
        if had_validation_failure && str_eq(model, MODEL_LIGHT) {
            notices.push(
                notice(StatusLevel::Dim, "[validation failure on light model, escalating to heavy]".to_owned()),
            );
            self.validation_failure_fallback_model = Some(MODEL_HEAVY.to_owned());
        }
        self.turns = self.turns + 1;
        let stop = self.turns >= max_turns;
        if stop {
            let mut e = "[loop exit: max turns limit (".to_owned();
            push_str(&mut e, decimal_string(max_turns as u64).as_str());
            push_str(&mut e, ") reached]");
            notices.push(notice(StatusLevel::Error, e));
            let mut w = "Max turns (".to_owned();
            push_str(&mut w, decimal_string(max_turns as u64).as_str());
            push_str(&mut w, ") reached.");
            notices.push(notice(StatusLevel::Warning, w));
        }
        proof {
            assert(notice_views(notices@) =~= turn_end_notices(v, had_validation_failure, model@, max_turns as nat));
        }
        (stop, notices)
    }
}

// ─── API failures ──────────────────────────────────────────────────────────

/// What the loop does after a failed API call.
#[derive(Debug, Clone, Copy, PartialEq, Eq, Structural)]
pub enum ApiStep {
    /// The context is too long: compact to the last six messages and retry.
    Compact,
    /// A transient failure: wait `delay_secs` seconds and retry.
    Retry { delay_secs: u64 },
    /// Give up.
    Fail,
}

/// `2^n`.
pub open spec fn pow2(n: nat) -> nat
    decreases n,
{
    if n == 0 { 1 } else { 2 * pow2((n - 1) as nat) }
}

/// The step after failure `e` with `retries` retries already made.
pub open spec fn api_step(e: crate::api_errors::ApiError, retries: nat) -> ApiStep {
    if e is ContextTooLong {
        ApiStep::Compact
    } else if crate::api_errors::retryable(e) && retries < 3 {
        ApiStep::Retry {
            delay_secs: match e {
                crate::api_errors::ApiError::RateLimit { retry_after_secs: Some(s) } => s,
                _ => pow2(retries + 1) as u64,
            },
        }
    } else {
        ApiStep::Fail
    }
}

/// The step after a failed API call, with its status line and, for a retry,
/// the new retry count.
pub fn after_api_error(e: &crate::api_errors::ApiError, retries: u32) -> (r: (ApiStep, u32, Notice))
    requires
        retries <= 3,
    ensures
        r.0 == api_step(*e, retries as nat),
        r.1 == if r.0 is Retry { retries + 1 } else { retries as int },
        (r.2.level, r.2.text@, r.2.verbose_only) == match r.0 {
            ApiStep::Compact => (StatusLevel::Warning, "[context too long, compacting...]"@, false),
            ApiStep::Retry { delay_secs } => (
                StatusLevel::Warning,
                "[transient API error: "@ + crate::api_errors::error_text(*e) + " — retrying in "@
                    + decimal(delay_secs as nat) + "s ("@ + decimal((retries + 1) as nat) + "/3)]"@,
                false,
            ),
            ApiStep::Fail => (
                StatusLevel::Error,
                "[query_loop exiting: API error after "@ + decimal(retries as nat) + " retries: "@
                    + crate::api_errors::error_text(*e) + "]"@,
                false,
            ),
        },
{
    if let crate::api_errors::ApiError::ContextTooLong(_) = e {
        return (ApiStep::Compact, retries, notice(StatusLevel::Warning, "[context too long, compacting...]".to_owned()));
    }
    if e.is_retryable() && retries < MAX_API_RETRIES {
        let n = retries + 1;
        let delay = match e {
            crate::api_errors::ApiError::RateLimit { retry_after_secs: Some(s) } => *s,
            _ => if n == 1 { 2 } else if n == 2 { 4 } else { 8 },
        };
        proof {
            reveal_with_fuel(pow2, 4);
        }
        let mut t = "[transient API error: ".to_owned();
        push_str(&mut t, e.describe().as_str());
        push_str(&mut t, " — retrying in ");
        push_str(&mut t, decimal_string(delay).as_str());
        push_str(&mut t, "s (");
        push_str(&mut t, decimal_string(n as u64).as_str());
        push_str(&mut t, "/3)]");
        (ApiStep::Retry { delay_secs: delay }, n, notice(StatusLevel::Warning, t))
    } else {
        let mut t = "[query_loop exiting: API error after ".to_owned();
        push_str(&mut t, decimal_string(retries as u64).as_str());
        push_str(&mut t, " retries: ");
        push_str(&mut t, e.describe().as_str());
        push_str(&mut t, "]");
        (ApiStep::Fail, retries, notice(StatusLevel::Error, t))
    }
}

// ─── Compaction trigger and background notifications ──────────────────────

/// Whether the conversation is compacted before the next call: the estimate
/// is above the threshold and there are more messages than those kept.
pub fn should_auto_compact(estimated_tokens: u64, message_count: usize) -> (b: bool)
    ensures
        b == (estimated_tokens > 80000 && message_count > 12),
{
    estimated_tokens > AUTO_COMPACT_TOKEN_THRESHOLD && message_count > AUTO_COMPACT_KEEP_RECENT + 2
}

pub open spec fn result_or_none(r: Option<String>) -> Seq<char> {
    match r {
        Some(s) => s@,
        None => "(no output)"@,
    }
}

/// The notice telling the model that a background task finished; `elapsed`
/// is its duration in seconds, as text.
pub open spec fn notification_text(t: BackgroundTask, elapsed: Seq<char>) -> Seq<char> {
    "<task_notification>\n<task_id>"@ + t.id@ + "</task_id>\n<status>"@ + bg_status_text(t.status)
        + "</status>\n<description>"@ + t.description@ + "</description>\n<duration>"@ + elapsed
        + "s</duration>\n<result>\n"@ + result_or_none(t.result) + "\n</result>\n</task_notification>"@
}

pub fn task_notification(task: &BackgroundTask, elapsed: &str) -> (out: String)
    ensures
        out@ == notification_text(*task, elapsed@),
{
    let mut out = "<task_notification>\n<task_id>".to_owned();
    push_str(&mut out, task.id.as_str());
    push_str(&mut out, "</task_id>\n<status>");
    push_str(&mut out, task.status.as_str());
    push_str(&mut out, "</status>\n<description>");
    push_str(&mut out, task.description.as_str());
    push_str(&mut out, "</description>\n<duration>");
    push_str(&mut out, elapsed);
    push_str(&mut out, "s</duration>\n<result>\n");
    match &task.result {
        Some(r) => push_str(&mut out, r.as_str()),
        None => push_str(&mut out, "(no output)"),
    }
    push_str(&mut out, "\n</result>\n</task_notification>");
    out
}

/// The notices for finished tasks, one per task.
pub open spec fn notification_texts(tasks: Seq<BackgroundTask>, elapsed: Seq<String>) -> Seq<Seq<char>> {
    Seq::new(tasks.len(), |i: int| notification_text(tasks[i], elapsed[i]@))
}

/// The user message announcing finished background tasks: one notice per
/// task, separated by blank lines; `None` when no task finished.
pub fn notification_message(tasks: &Vec<BackgroundTask>, elapsed: &Vec<String>) -> (m: Option<String>)
    requires
        elapsed@.len() == tasks@.len(),
    ensures
        match m {
            Some(s) => tasks@.len() > 0 && s@ == join(notification_texts(tasks@, elapsed@), "\n\n"@),
            None => tasks@.len() == 0,
        },
{
    if tasks.len() == 0 {
        return None;
    }
    let ghost all = notification_texts(tasks@, elapsed@);
    let mut parts: Vec<String> = Vec::new();
    let mut i: usize = 0;
    while i < tasks.len()
        invariant
            i <= tasks@.len(),
            elapsed@.len() == tasks@.len(),
            all == notification_texts(tasks@, elapsed@),
            views(parts@) == all.take(i as int),
        decreases tasks.len() - i,
    {
        parts.push(task_notification(&tasks[i], elapsed[i].as_str()));
        assert(views(parts@) =~= views(parts@.drop_last()).push(parts@.last()@));
        assert(all.take(i + 1) =~= all.take(i as int).push(all[i as int]));
        i += 1;
    }
    assert(all.take(tasks@.len() as int) =~= all);
    let mut out = String::new();
    push_joined(&mut out, &parts, "\n\n");
    Some(out)
}

/// The status line for a finished background task.
pub fn task_done_line(task: &BackgroundTask, elapsed: &str) -> (out: String)
    ensures
        out@ == "  [Background task #"@ + task.id@ + " ("@ + task.description@ + ") "@
            + bg_status_text(task.status) + " in "@ + elapsed@ + "s]"@,
{
    let mut out = "  [Background task #".to_owned();
    push_str(&mut out, task.id.as_str());
    push_str(&mut out, " (");
    push_str(&mut out, task.description.as_str());
    push_str(&mut out, ") ");
    push_str(&mut out, task.status.as_str());
    push_str(&mut out, " in ");
    push_str(&mut out, elapsed);
    push_str(&mut out, "s]");
    out
}

// ─── Tool results ──────────────────────────────────────────────────────────

/// A tool's output as sent back to the model: whole up to 50000 bytes, else
/// cut at a character boundary and followed by a note of its full length.
pub open spec fn capped_result(s: Seq<char>) -> Seq<char> {
    if blen(s) > 50000 {
        crate::path_safety::cut_to_bytes(s, 50000) + "\n\n... (truncated, "@ + decimal(blen(s))
            + " total chars)"@
    } else {
        s
    }
}

pub fn cap_tool_result(content: String) -> (out: String)
    ensures
        out@ == capped_result(content@),
{
    let n = content.as_str().len();
    if n > MAX_TOOL_RESULT_CHARS {
        let mut out = crate::path_safety::safe_truncate(content.as_str(), MAX_TOOL_RESULT_CHARS).to_owned();
        push_str(&mut out, "\n\n... (truncated, ");
        push_str(&mut out, decimal_string(n as u64).as_str());
        push_str(&mut out, " total chars)");
        out
    } else {
        content
    }
}

/// Why a tool call of a reply is answered without the tool's own result.
pub enum CallStop {
    /// The user interrupted before the call ran.
    Interrupted,
    /// No tool has the call's name.
    UnknownTool(String),
    /// The input failed validation; the validator's message.
    InvalidInput(String),
    /// A permission rule denied the call; its reason.
    Denied(String),
    /// The user refused at the permission prompt.
    UserDenied,
    /// The permission prompt itself failed; its error.
    PromptFailed(String),
    /// A pre-tool hook blocked the call; its reason.
    BlockedByHook(String),
    /// The tool failed to run; its error.
    ExecutionFailed(String),
}

/// The result text the model reads for a stopped call (always an error).
pub open spec fn stop_text(s: CallStop) -> Seq<char> {
    match s {
        CallStop::Interrupted => "Interrupted by user"@,
        CallStop::UnknownTool(name) => "Unknown tool: "@ + name@,
        CallStop::InvalidInput(e) => e@,
        CallStop::Denied(reason) => "Permission denied: "@ + reason@,
        CallStop::UserDenied => "User denied permission"@,
        CallStop::PromptFailed(e) => "Permission prompt error: "@ + e@,
        CallStop::BlockedByHook(reason) => "Blocked by hook: "@ + reason@,
        CallStop::ExecutionFailed(e) => "Tool execution error: "@ + e@,
    }
}

/// The warning shown to the user for a stopped call of tool `name` at turn
/// `turn`, where there is one.
pub open spec fn stop_notice_text(s: CallStop, name: Seq<char>, turn: nat) -> Option<Seq<char>> {
    match s {
        CallStop::Interrupted => Some(
            "[interrupted by user during tool execution at turn "@ + decimal(turn) + "]"@,
        ),
        CallStop::InvalidInput(e) => Some("[tool '"@ + name + "' input validation failed: "@ + e@ + "]"@),
        CallStop::BlockedByHook(reason) => Some("[hook blocked "@ + name + ": "@ + reason@ + "]"@),
        _ => None,
    }
}

impl CallStop {
    /// The result text for the stopped call.
    pub fn result_text(&self) -> (t: String)
        ensures
            t@ == stop_text(*self),
    {
        match self {
            CallStop::Interrupted => "Interrupted by user".to_owned(),
            CallStop::UnknownTool(name) => {
                let mut t = "Unknown tool: ".to_owned();
                push_str(&mut t, name.as_str());
                t
            },
            CallStop::InvalidInput(e) => e.clone(),
            CallStop::Denied(reason) => {
                let mut t = "Permission denied: ".to_owned();
                push_str(&mut t, reason.as_str());
                t
            },
            CallStop::UserDenied => "User denied permission".to_owned(),
            CallStop::PromptFailed(e) => {
                let mut t = "Permission prompt error: ".to_owned();
                push_str(&mut t, e.as_str());
                t
            },
            CallStop::BlockedByHook(reason) => {
                let mut t = "Blocked by hook: ".to_owned();
                push_str(&mut t, reason.as_str());
                t
            },
            CallStop::ExecutionFailed(e) => {
                let mut t = "Tool execution error: ".to_owned();
                push_str(&mut t, e.as_str());
                t
            },
        }
    }

    /// The warning for the user, where the stop has one.
    pub fn notice(&self, name: &str, turn: usize) -> (n: Option<String>)
        ensures
            opt_text(n) == stop_notice_text(*self, name@, turn as nat),
    {
        match self {
            CallStop::Interrupted => {
                let mut t = "[interrupted by user during tool execution at turn ".to_owned();
                push_str(&mut t, decimal_string(turn as u64).as_str());
                push_str(&mut t, "]");
                Some(t)
            },
            CallStop::InvalidInput(e) => {
                let mut t = "[tool '".to_owned();
                push_str(&mut t, name);
                push_str(&mut t, "' input validation failed: ");
                push_str(&mut t, e.as_str());
                push_str(&mut t, "]");
                Some(t)
            },
            CallStop::BlockedByHook(reason) => {
                let mut t = "[hook blocked ".to_owned();
                push_str(&mut t, name);
                push_str(&mut t, ": ");
                push_str(&mut t, reason.as_str());
                push_str(&mut t, "]");
                Some(t)
            },
            _ => None,
        }
    }
}

/// The preview shown for a tool result: the first 500 characters of its
/// first line.
pub fn result_preview(content: &str) -> (out: String)
    ensures
        out@ == prefix(first_line_of(content@), 500),
{
    let line = first_line(content);
    prefix_chars(line.as_str(), 500)
}

/// The status line for a tool result and its severity.
pub fn tool_result_line(preview: &str, is_error: bool) -> (r: (StatusLevel, String))
    ensures
        r.0 == if is_error { StatusLevel::Error } else { StatusLevel::Dim },
        r.1@ == if is_error { "  Error: "@ + preview@ } else { "  "@ + preview@ },
{
    if is_error {
        let mut t = "  Error: ".to_owned();
        push_str(&mut t, preview);
        (StatusLevel::Error, t)
    } else {
        let mut t = "  ".to_owned();
        push_str(&mut t, preview);
        (StatusLevel::Dim, t)
    }
}

/// The note shown under a long tool result.
pub fn long_result_note(content: &str) -> (r: Option<String>)
    ensures
        match r {
            Some(t) => blen(content@) > 500 && t@ == "  ... ("@ + decimal(blen(content@)) + " total chars)"@,
            None => blen(content@) <= 500,
        },
{
    let n = content.len();
    if n > 500 {
        let mut t = "  ... (".to_owned();
        push_str(&mut t, decimal_string(n as u64).as_str());
        push_str(&mut t, " total chars)");
        Some(t)
    } else {
        None
    }
}

/// A tool result with the output of the post-tool hooks appended.
pub fn with_hook_output(content: String, hook_output: &str) -> (out: String)
    ensures
        out@ == if hook_output@.len() > 0 {
            content@ + "\n\n--- Hook Output ---\n"@ + hook_output@
        } else {
            content@
        },
{
    if hook_output.is_empty() {
        content
    } else {
        let mut out = content;
        push_str(&mut out, "\n\n--- Hook Output ---\n");
        push_str(&mut out, hook_output);
        out
    }
}

// ─── Checking tool input against the tool's schema ────────────────────────

/// A property of a tool's input schema.
pub struct PropSpec {
    pub name: String,
    /// Its `type`, when that is a string.
    pub json_type: Option<String>,
    /// Its `description`, when that is a string.
    pub description: Option<String>,
}

/// What validation reads of a tool's JSON input schema.
pub struct ToolSchema {
    /// The string entries of `required`, in order.
    pub required: Vec<String>,
    /// The `properties`, when they form an object.
    pub properties: Option<Vec<PropSpec>>,
}

/// Position of the property named `name`, or `ps.len()`.
pub open spec fn prop_pos(ps: Seq<PropSpec>, name: Seq<char>) -> int
    decreases ps.len(),
{
    if ps.len() == 0 {
        0
    } else if ps[0].name@ == name {
        0
    } else {
        1 + prop_pos(ps.drop_first(), name)
    }
}

/// The required parameters that are absent or null, in order.
pub open spec fn missing_required(req: Seq<Seq<char>>, input: ToolInput) -> Seq<Seq<char>>
    decreases req.len(),
{
    if req.len() == 0 {
        seq![]
    } else {
        let r = missing_required(req.drop_last(), input);
        if input.missing(req.last()) { r.push(req.last()) } else { r }
    }
}

pub open spec fn text_or(o: Option<String>, d: Seq<char>) -> Seq<char> {
    match o {
        Some(s) => s@,
        None => d,
    }
}

/// One line per missing parameter that has a property: its name, type
/// (`any` when none is given) and description.
pub open spec fn hint_lines(missing: Seq<Seq<char>>, ps: Seq<PropSpec>) -> Seq<Seq<char>>
    decreases missing.len(),
{
    if missing.len() == 0 {
        seq![]
    } else {
        let r = hint_lines(missing.drop_last(), ps);
        let m = missing.last();
        let k = prop_pos(ps, m);
        if k < ps.len() {
            r.push("  - "@ + m + " ("@ + text_or(ps[k].json_type, "any"@) + "): "@ + text_or(ps[k].description, seq![]))
        } else {
            r
        }
    }
}

/// Whether a value has the JSON type a schema names; unknown names accept
/// anything.
pub open spec fn type_matches(t: Seq<char>, v: ArgValue) -> bool {
    if t == "string"@ {
        v is Str
    } else if t == "number"@ || t == "integer"@ {
        v is Number
    } else if t == "boolean"@ {
        v is Bool
    } else if t == "array"@ {
        v is Array
    } else if t == "object"@ {
        v is Object
    } else {
        true
    }
}

/// The error for the first argument whose value does not have its
/// property's type.
pub open spec fn first_type_error(fields: Seq<crate::tool_input::ArgField>, ps: Seq<PropSpec>) -> Option<Seq<char>>
    decreases fields.len(),
{
    if fields.len() == 0 {
        None
    } else {
        let f = fields[0];
        let k = prop_pos(ps, f.key@);
        if k < ps.len() && ps[k].json_type is Some && !type_matches(ps[k].json_type->0@, f.value) {
            Some("Parameter '"@ + f.key@ + "' must be type '"@ + ps[k].json_type->0@ + "', got: "@ + f.rendered@)
        } else {
            first_type_error(fields.drop_first(), ps)
        }
    }
}

pub open spec fn no_arguments_hint() -> Seq<char> {
    "\n\nYour tool call had NO arguments at all. This usually means something went wrong. Do NOT retry with empty arguments — either provide the correct parameters or try a different approach."@
}

/// The validation error for a tool call, if any: missing required
/// parameters first (with hints from the schema), then type mismatches.
pub open spec fn validation_error(schema: ToolSchema, input: ToolInput) -> Option<Seq<char>> {
    let missing = missing_required(views(schema.required@), input);
    if missing.len() > 0 {
        let hint = match schema.properties {
            Some(ps) => join(hint_lines(missing, ps@), "\n"@),
            None => seq![],
        };
        let empty = match input.fields {
            Some(fs) => fs@.len() == 0,
            None => true,
        };
        Some(
            "Missing required parameter(s): "@ + join(missing, ", "@)
                + ". You MUST provide these parameters.\n"@ + hint + if empty {
                no_arguments_hint()
            } else {
                seq![]
            },
        )
    } else {
        match (schema.properties, input.fields) {
            (Some(ps), Some(fs)) => first_type_error(fs@, ps@),
            _ => None,
        }
    }
}

fn find_prop(ps: &Vec<PropSpec>, name: &str) -> (k: usize)
    ensures
        k == prop_pos(ps@, name@),
        k <= ps@.len(),
        k < ps@.len() ==> ps@[k as int].name@ == name@,
{
    let mut k: usize = 0;
    assert(ps@.skip(0) =~= ps@);
    while k < ps.len() && !str_eq(ps[k].name.as_str(), name)
        invariant
            k <= ps@.len(),
            prop_pos(ps@, name@) == k + prop_pos(ps@.skip(k as int), name@),
        decreases ps@.len() - k,
    {
        assert(ps@.skip(k as int).drop_first() =~= ps@.skip(k + 1));
        k += 1;
    }
    proof {
        if k == ps@.len() {
            assert(ps@.skip(k as int).len() == 0);
        }
    }
    k
}

fn matches_type(t: &str, v: &ArgValue) -> (b: bool)
    ensures
        b == type_matches(t@, *v),
{
    if str_eq(t, "string") {
        matches!(v, ArgValue::Str(_))
    } else if str_eq(t, "number") || str_eq(t, "integer") {
        matches!(v, ArgValue::Number(_))
    } else if str_eq(t, "boolean") {
        matches!(v, ArgValue::Bool(_))
    } else if str_eq(t, "array") {
        matches!(v, ArgValue::Array(_))
    } else if str_eq(t, "object") {
        matches!(v, ArgValue::Object(_))
    } else {
        true
    }
}

/// Checks a tool call's input against the tool's schema; `Some(message)`
/// when it fails.
pub fn validate_tool_input(schema: &ToolSchema, input: &ToolInput) -> (r: Option<String>)
    ensures
        opt_text(r) == validation_error(*schema, *input),
{
    let ghost req = views(schema.required@);
    let mut missing: Vec<String> = Vec::new();
    let mut i: usize = 0;
    while i < schema.required.len()
        invariant
            i <= schema.required@.len(),
            req == views(schema.required@),
            views(missing@) == missing_required(req.take(i as int), *input),
        decreases schema.required@.len() - i,
    {
        assert(req.take(i + 1).drop_last() =~= req.take(i as int));
        assert(req.take(i + 1).last() == schema.required@[i as int]@);
        if input.is_missing(schema.required[i].as_str()) {
            missing.push(schema.required[i].clone());
            assert(views(missing@) =~= views(missing@.drop_last()).push(missing@.last()@));
        }
        i += 1;
    }
    assert(req.take(schema.required@.len() as int) =~= req);
    if missing.len() > 0 {
        let mut hint = String::new();
        match &schema.properties {
            Some(ps) => {
                let ghost mv = views(missing@);
                let mut lines: Vec<String> = Vec::new();
                let mut j: usize = 0;
                while j < missing.len()
                    invariant
                        j <= missing@.len(),
                        mv == views(missing@),
                        views(lines@) == hint_lines(mv.take(j as int), ps@),
                    decreases missing@.len() - j,
                {
                    assert(mv.take(j + 1).drop_last() =~= mv.take(j as int));
                    assert(mv.take(j + 1).last() == missing@[j as int]@);
                    let name = missing[j].as_str();
                    let k = find_prop(ps, name);
                    if k < ps.len() {
                        let mut line = "  - ".to_owned();
                        push_str(&mut line, name);
                        push_str(&mut line, " (");
                        match &ps[k].json_type {
                            Some(t) => push_str(&mut line, t.as_str()),
                            None => push_str(&mut line, "any"),
                        }
                        push_str(&mut line, "): ");
                        match &ps[k].description {
                            Some(d) => push_str(&mut line, d.as_str()),
                            None => {},
                        }
                        lines.push(line);
                        assert(views(lines@) =~= views(lines@.drop_last()).push(lines@.last()@));
                    }
                    j += 1;
                }
                assert(mv.take(missing@.len() as int) =~= mv);
                push_joined(&mut hint, &lines, "\n");
            },
            None => {},
        }
        let empty = match &input.fields {
            Some(fs) => fs.len() == 0,
            None => true,
        };
        let mut msg = "Missing required parameter(s): ".to_owned();
        push_joined(&mut msg, &missing, ", ");
        push_str(&mut msg, ". You MUST provide these parameters.\n");
        push_str(&mut msg, hint.as_str());
        if empty {
            push_str(
                &mut msg,
                "\n\nYour tool call had NO arguments at all. This usually means something went wrong. Do NOT retry with empty arguments — either provide the correct parameters or try a different approach.",
            );
        }
        return Some(msg);
    }
    match (&schema.properties, &input.fields) {
        (Some(ps), Some(fs)) => {
            let mut j: usize = 0;
            assert(fs@.skip(0) =~= fs@);
            assert(validation_error(*schema, *input) == first_type_error(fs@, ps@));
            while j < fs.len()
                invariant
                    j <= fs@.len(),
                    validation_error(*schema, *input) == first_type_error(fs@, ps@),
                    first_type_error(fs@, ps@) == first_type_error(fs@.skip(j as int), ps@),
                decreases fs@.len() - j,
            {
                let f = &fs[j];
                assert(fs@.skip(j as int)[0] == fs@[j as int]);
                assert(fs@.skip(j as int).drop_first() =~= fs@.skip(j + 1));
                let k = find_prop(ps, f.key.as_str());
                if k < ps.len() {
                    match &ps[k].json_type {
                        Some(t) => {
                            if !matches_type(t.as_str(), &f.value) {
                                let mut msg = "Parameter '".to_owned();
                                push_str(&mut msg, f.key.as_str());
                                push_str(&mut msg, "' must be type '");
                                push_str(&mut msg, t.as_str());
                                push_str(&mut msg, "', got: ");
                                push_str(&mut msg, f.rendered.as_str());
                                proof {
                                    let rest = fs@.skip(j as int);
                                    assert(rest.len() > 0);
                                    assert(rest[0] == *f);
                                    assert(ps@[k as int].json_type == Some(*t));
                                    assert(first_type_error(rest, ps@) == Some(msg@));
                                }
                                return Some(msg);
                            }
                        },
                        None => {},
                    }
                }
                j += 1;
            }
            None
        },
        _ => None,
    }
}

// ─── Laws of the loop ──────────────────────────────────────────────────────

/// Three empty replies in a row: the first two are answered with nudges
/// (the second moves to the heavy model unless routing already picks it),
/// the third ends the loop.
pub proof fn law_empty_replies_end_the_loop(v: LoopView, h1: bool, h2: bool, h3: bool)
    requires
        v.empty_count == 0,
        v.turns > 0,
    ensures
        ({
            let (v1, k1) = reply_next(v, StopReason::EndTurn, false, false, h1);
            let (v2, k2) = reply_next(v1, StopReason::EndTurn, false, false, h2);
            let (v3, k3) = reply_next(v2, StopReason::EndTurn, false, false, h3);
            &&& k1 == ReplyKind::FirstEmptyNudge
            &&& k2 == ReplyKind::SecondEmptyNudge
            &&& k3 == ReplyKind::EmptyExhausted
            &&& v2.empty_fallback == if h2 { None } else { Some(heavy_name()) }
        }),
{
}

/// After the second empty reply, the next call goes to the heavy model
/// unless a validation fallback is pending.
pub proof fn law_second_empty_reply_escalates(v: LoopView, routed: Seq<char>)
    requires
        v.empty_count == 1,
        v.turns > 0,
        v.validation_fallback is None,
    ensures
        ({
            let (v2, _) = reply_next(v, StopReason::EndTurn, false, false, routed == heavy_name());
            model_choice(v2, routed).1 == heavy_name()
        }),
{
}

/// Output cut off by the token limit is continued three times in a row; the
/// fourth cut ends the loop.
pub proof fn law_max_tokens_recovery_is_bounded(v: LoopView, h: bool)
    requires
        v.recoveries == 0,
    ensures
        ({
            let (v1, k1) = reply_next(v, StopReason::MaxTokens, false, false, h);
            let (v2, k2) = reply_next(v1, StopReason::MaxTokens, false, false, h);
            let (v3, k3) = reply_next(v2, StopReason::MaxTokens, false, false, h);
            let (v4, k4) = reply_next(v3, StopReason::MaxTokens, false, false, h);
            &&& k1 == ReplyKind::ContinueNudge
            &&& k2 == ReplyKind::ContinueNudge
            &&& k3 == ReplyKind::ContinueNudge
            &&& k4 == ReplyKind::MaxTokensExhausted
        }),
{
}

/// A reply that ends the turn with text or tool calls (or on the first turn)
/// finishes the loop and clears the empty-reply state.
pub proof fn law_end_turn_finishes(v: LoopView, has_text: bool, has_tools: bool, h: bool)
    requires
        has_text || has_tools || v.turns == 0,
    ensures
        ({
            let (n, k) = reply_next(v, StopReason::EndTurn, has_text, has_tools, h);
            &&& k == ReplyKind::Finished
            &&& n.empty_count == 0
            &&& n.empty_fallback is None
        }),
{
}

/// A running loop stays running within its limits: a step that does not
/// stop keeps the counters in bounds, a nudge counts one turn, and any reply
/// other than an empty end of turn clears the empty-reply count.
pub proof fn law_running_loop_stays_bounded(v: LoopView, stop: StopReason, has_text: bool, has_tools: bool, h: bool)
    requires
        loop_wf(v),
    ensures
        ({
            let (n, k) = reply_next(v, stop, has_text, has_tools, h);
            &&& !reply_stops(k) ==> loop_wf(n)
            &&& reply_prompt(k) is Some ==> n.turns == v.turns + 1
            &&& reply_prompt(k) is None ==> n.turns == v.turns
            &&& stop != StopReason::EndTurn ==> n.empty_count == 0
        }),
{
}

/// The same batch of tool calls five times in a row: run twice, answered
/// with warnings the third and fourth time, and stopped the fifth.
pub proof fn law_stuck_loop_detection(v: LoopView, cs: Seq<(Seq<char>, Seq<char>, Seq<char>)>)
    requires
        v.signature != Some(call_signature(cs)),
    ensures
        ({
            let (v1, k1) = tools_next(v, cs);
            let (v2, k2) = tools_next(v1, cs);
            let (v3, k3) = tools_next(v2, cs);
            let (v4, k4) = tools_next(v3, cs);
            let (v5, k5) = tools_next(v4, cs);
            &&& k1 == ToolKind::Execute
            &&& k2 == ToolKind::Execute
            &&& k3 == ToolKind::WarnRepeated
            &&& k4 == ToolKind::WarnRepeated
            &&& k5 == ToolKind::ForceStop
        }),
{
}

/// A different batch of tool calls starts the repeat count afresh.
pub proof fn law_new_calls_reset_repeats(v: LoopView, cs: Seq<(Seq<char>, Seq<char>, Seq<char>)>)
    requires
        v.signature != Some(call_signature(cs)),
    ensures
        tools_next(v, cs).0.repeats == 1,
        tools_next(v, cs).1 == ToolKind::Execute,
{
}

/// Sorted sequences holding the same strings equally often are equal.
pub proof fn lemma_sorted_unique(a: Seq<Seq<char>>, b: Seq<Seq<char>>)
    requires
        crate::text::text_sorted(a),
        crate::text::text_sorted(b),
        a.to_multiset() == b.to_multiset(),
    ensures
        a == b,
    decreases a.len(),
{
    broadcast use vstd::seq_lib::group_to_multiset_ensures;

    assert(a.len() == a.to_multiset().len());
    assert(b.len() == b.to_multiset().len());
    if a.len() > 0 {
        let x = a[0];
        let y = b[0];
        assert(a.to_multiset().count(x) > 0);
        assert(b.contains(x));
        let jx = choose|j: int| 0 <= j < b.len() && b[j] == x;
        assert(a.contains(y)) by {
            assert(b.to_multiset().count(y) > 0);
        }
        let jy = choose|j: int| 0 <= j < a.len() && a[j] == y;
        if jx > 0 {
            assert(!crate::text::text_lt(b[jx], b[0]));
        }
        if jy > 0 {
            assert(!crate::text::text_lt(a[jy], a[0]));
        }
        crate::text::lemma_text_lt_total(x, y);
        assert(x == y);
        assert(a =~= seq![x] + a.drop_first());
        assert(b =~= seq![x] + b.drop_first());
        let ra = a.drop_first();
        let rb = b.drop_first();
        vstd::seq_lib::lemma_multiset_commutative(seq![x], ra);
        vstd::seq_lib::lemma_multiset_commutative(seq![x], rb);
        assert forall|y: Seq<char>| ra.to_multiset().count(y) == rb.to_multiset().count(y) by {
            assert(a.to_multiset().count(y) == seq![x].to_multiset().count(y) + ra.to_multiset().count(y));
            assert(b.to_multiset().count(y) == seq![x].to_multiset().count(y) + rb.to_multiset().count(y));
        }
        assert(ra.to_multiset() =~= rb.to_multiset());
        lemma_sorted_unique(a.drop_first(), b.drop_first());
    } else {
        assert(b.len() == 0);
        assert(a =~= b);
    }
}

/// The signature of a batch of tool calls does not depend on their order:
/// batches holding the same calls equally often have the same signature.
pub proof fn law_signature_ignores_order(
    cs1: Seq<(Seq<char>, Seq<char>, Seq<char>)>,
    cs2: Seq<(Seq<char>, Seq<char>, Seq<char>)>,
)
    requires
        call_texts(cs1).to_multiset() == call_texts(cs2).to_multiset(),
    ensures
        call_signature(cs1) == call_signature(cs2),
{
    crate::text::lemma_sort_texts(call_texts(cs1));
    crate::text::lemma_sort_texts(call_texts(cs2));
    lemma_sorted_unique(sort_texts(call_texts(cs1)), sort_texts(call_texts(cs2)));
}

/// A turn that ends at the limit stops the loop; each turn counts one.
pub proof fn law_turn_limit(v: LoopView, failed: bool, model: Seq<char>, max_turns: nat)
    ensures
        turn_end(v, failed, model, max_turns).0.turns == v.turns + 1,
        turn_end(v, failed, model, max_turns).1 <==> v.turns + 1 >= max_turns,
{
}

} // verus!
