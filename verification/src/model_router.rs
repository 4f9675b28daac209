//! Choice of model per turn: the light model for simple reads and short
//! follow-ups, the heavy one for writes, reasoning and the first turn.

use vstd::prelude::*;
use crate::compact::capped;
use crate::messages::{content_views, message_views, Message, MessageV, UserContent, UserContentV};
use crate::text::{ascii_lower, blen, is_ascii_text, lower_text, str_eq, to_lowercase, views};

verus! {

/// How aggressively the light model is used.
#[derive(Debug, Clone, Copy, PartialEq, Eq, Structural)]
pub enum Intensity {
    /// Always the heavy model.
    High,
    /// The light model for reads and short follow-ups (the default).
    Medium,
    /// The light model whenever possible.
    Low,
}

pub open spec fn intensity_text(i: Intensity) -> Seq<char> {
    match i {
        Intensity::High => "high"@,
        Intensity::Medium => "medium"@,
        Intensity::Low => "low"@,
    }
}

pub open spec fn intensity_description(i: Intensity) -> Seq<char> {
    match i {
        Intensity::High => "always use large-thinking model (expensive, best quality)"@,
        Intensity::Medium => "smart routing: mini for reads, large for writes (balanced)"@,
        Intensity::Low => "prefer mini whenever possible (cheapest, faster)"@,
    }
}

/// The intensity named by `s`, ignoring case.
pub open spec fn intensity_named(s: Seq<char>) -> Option<Intensity> {
    let l = lower_text(s);
    if l == "high"@ {
        Some(Intensity::High)
    } else if l == "medium"@ {
        Some(Intensity::Medium)
    } else if l == "low"@ {
        Some(Intensity::Low)
    } else {
        None
    }
}

impl Default for Intensity {
    fn default() -> (i: Intensity)
        ensures
            i == Intensity::Medium,
    {
        Intensity::Medium
    }
}

impl Intensity {
    pub fn as_str(&self) -> (s: &'static str)
        ensures
            s@ == intensity_text(*self),
    {
        match self {
            Intensity::High => "high",
            Intensity::Medium => "medium",
            Intensity::Low => "low",
        }
    }

    pub fn from_str(s: &str) -> (r: Option<Intensity>)
        ensures
            r == intensity_named(s@),
    {
        let l = to_lowercase(s);
        if str_eq(l.as_str(), "high") {
            Some(Intensity::High)
        } else if str_eq(l.as_str(), "medium") {
            Some(Intensity::Medium)
        } else if str_eq(l.as_str(), "low") {
            Some(Intensity::Low)
        } else {
            None
        }
    }

    pub fn description(&self) -> (s: &'static str)
        ensures
            s@ == intensity_description(*self),
    {
        match self {
            Intensity::High => "always use large-thinking model (expensive, best quality)",
            Intensity::Medium => "smart routing: mini for reads, large for writes (balanced)",
            Intensity::Low => "prefer mini whenever possible (cheapest, faster)",
        }
    }
}

pub const MODEL_LIGHT: &'static str = "trinity-mini";

pub const MODEL_HEAVY: &'static str = "trinity-large-thinking";

pub open spec fn light_name() -> Seq<char> {
    "trinity-mini"@
}

pub open spec fn heavy_name() -> Seq<char> {
    "trinity-large-thinking"@
}

/// Simple read-only tools the light model handles.
pub open spec fn is_light_tool(n: Seq<char>) -> bool {
    n == "Read"@ || n == "Glob"@ || n == "Grep"@ || n == "WebFetch"@ || n == "TaskList"@
        || n == "TaskGet"@ || n == "LSP"@
}

/// Tools whose results need reasoning.
pub open spec fn is_heavy_tool(n: Seq<char>) -> bool {
    n == "Edit"@ || n == "Write"@ || n == "Bash"@ || n == "Agent"@ || n == "NotebookEdit"@
}

/// Tools after which even low intensity stays heavy.
pub open spec fn is_critical_tool(n: Seq<char>) -> bool {
    n == "Edit"@ || n == "Write"@ || n == "Agent"@
}

/// Bytes of text in a user message's text parts.
pub open spec fn user_text_bytes(cs: Seq<UserContentV>) -> nat
    decreases cs.len(),
{
    if cs.len() == 0 {
        0
    } else {
        user_text_bytes(cs.drop_last()) + match cs.last() {
            UserContentV::Text(t) => blen(t),
            _ => 0,
        }
    }
}

/// Bytes of text in the latest user message, if there is one.
pub open spec fn last_user_len(ms: Seq<MessageV>) -> Option<nat>
    decreases ms.len(),
{
    if ms.len() == 0 {
        None
    } else {
        match ms.last() {
            MessageV::User(cs) => Some(user_text_bytes(cs)),
            _ => last_user_len(ms.drop_last()),
        }
    }
}

/// Whether the next turn needs the heavy model.
pub open spec fn turn_is_heavy(ms: Seq<MessageV>, names: Seq<Seq<char>>, turn: nat, intensity: Intensity) -> bool {
    if turn == 0 {
        true
    } else {
        match intensity {
            Intensity::High => true,
            Intensity::Medium => if exists|i: int| 0 <= i < names.len() && is_heavy_tool(#[trigger] names[i]) {
                true
            } else if names.len() > 0 && forall|i: int| 0 <= i < names.len() ==> is_light_tool(#[trigger] names[i]) {
                false
            } else {
                match last_user_len(ms) {
                    Some(n) => n >= 120,
                    None => true,
                }
            },
            Intensity::Low => exists|i: int| 0 <= i < names.len() && is_critical_tool(#[trigger] names[i]),
        }
    }
}

/// The model for the next call.
pub open spec fn picked_model(
    configured: Seq<char>,
    ms: Seq<MessageV>,
    names: Seq<Seq<char>>,
    turn: nat,
    auto_route: bool,
    intensity: Intensity,
) -> Seq<char> {
    if !auto_route {
        configured
    } else if configured != heavy_name() && configured != light_name() && configured.len() > 0 {
        configured
    } else if intensity == Intensity::High {
        heavy_name()
    } else if turn_is_heavy(ms, names, turn, intensity) {
        heavy_name()
    } else {
        light_name()
    }
}

fn is_light_tool_name(n: &str) -> (b: bool)
    ensures
        b == is_light_tool(n@),
{
    str_eq(n, "Read") || str_eq(n, "Glob") || str_eq(n, "Grep") || str_eq(n, "WebFetch")
        || str_eq(n, "TaskList") || str_eq(n, "TaskGet") || str_eq(n, "LSP")
}

fn is_heavy_tool_name(n: &str) -> (b: bool)
    ensures
        b == is_heavy_tool(n@),
{
    str_eq(n, "Edit") || str_eq(n, "Write") || str_eq(n, "Bash") || str_eq(n, "Agent")
        || str_eq(n, "NotebookEdit")
}

fn is_critical_tool_name(n: &str) -> (b: bool)
    ensures
        b == is_critical_tool(n@),
{
    str_eq(n, "Edit") || str_eq(n, "Write") || str_eq(n, "Agent")
}

/// Bytes of text in the latest user message (counted up to `u64::MAX`).
pub fn last_user_message_len(messages: &[Message]) -> (r: Option<u64>)
    ensures
        r == match last_user_len(message_views(messages@)) {
            Some(n) => Some(capped(n) as u64),
            None => None,
        },
{
    let ghost mv = message_views(messages@);
    let mut k: usize = messages.len();
    assert(mv.take(k as int) =~= mv);
    while k > 0
        invariant
            k <= messages@.len(),
            mv == message_views(messages@),
            last_user_len(mv) == last_user_len(mv.take(k as int)),
        decreases k,
    {
        assert(mv.take(k as int).drop_last() =~= mv.take(k - 1));
        assert(mv.take(k as int).last() == messages@[k - 1]@);
        match &messages[k - 1] {
            Message::User(u) => {
                let ghost cv = content_views(u.content@);
                let mut total: u64 = 0;
                let mut j: usize = 0;
                while j < u.content.len()
                    invariant
                        j <= u.content.len(),
                        cv == content_views(u.content@),
                        total == capped(user_text_bytes(cv.take(j as int))),
                    decreases u.content.len() - j,
                {
                    assert(cv.take(j + 1).drop_last() =~= cv.take(j as int));
                    match &u.content[j] {
                        UserContent::Text(t) => {
                            total = total.saturating_add(t.as_str().len() as u64);
                        },
                        _ => {},
                    }
                    j += 1;
                }
                assert(cv.take(u.content.len() as int) =~= cv);
                return Some(total);
            },
            _ => {},
        }
        k -= 1;
    }
    assert(mv.take(0) =~= Seq::<MessageV>::empty());
    None
}

fn classify_turn(messages: &[Message], last_tool_names: &[String], turn_count: usize, intensity: Intensity) -> (heavy: bool)
    ensures
        heavy == turn_is_heavy(
            message_views(messages@),
            views(last_tool_names@),
            turn_count as nat,
            intensity,
        ),
{
    let ghost names = views(last_tool_names@);
    if turn_count == 0 {
        return true;
    }
    match intensity {
        Intensity::High => true,
        Intensity::Medium => {
            let mut i: usize = 0;
            let mut any_heavy = false;
            let mut all_light = true;
            while i < last_tool_names.len()
                invariant
                    i <= last_tool_names@.len(),
                    names == views(last_tool_names@),
                    any_heavy == exists|j: int| 0 <= j < i && is_heavy_tool(#[trigger] names[j]),
                    all_light == forall|j: int| 0 <= j < i ==> is_light_tool(#[trigger] names[j]),
                decreases last_tool_names.len() - i,
            {
                let n = last_tool_names[i].as_str();
                assert(names[i as int] == n@);
                if is_heavy_tool_name(n) {
                    any_heavy = true;
                }
                if !is_light_tool_name(n) {
                    all_light = false;
                }
                i += 1;
            }
            if any_heavy {
                true
            } else if last_tool_names.len() > 0 && all_light {
                false
            } else {
                match last_user_message_len(messages) {
                    Some(n) => n >= 120,
                    None => true,
                }
            }
        },
        Intensity::Low => {
            let mut i: usize = 0;
            let mut any_critical = false;
            while i < last_tool_names.len()
                invariant
                    i <= last_tool_names@.len(),
                    names == views(last_tool_names@),
                    any_critical == exists|j: int| 0 <= j < i && is_critical_tool(#[trigger] names[j]),
                decreases last_tool_names.len() - i,
            {
                let n = last_tool_names[i].as_str();
                assert(names[i as int] == n@);
                if is_critical_tool_name(n) {
                    any_critical = true;
                }
                i += 1;
            }
            any_critical
        },
    }
}

/// The model for the next API call: the configured one when routing is off
/// or a custom model is configured; otherwise the heavy model at high
/// intensity, on the first turn and after reasoning-heavy tools, and the
/// light model for reads and short follow-ups.
pub fn pick_model(
    configured_model: &str,
    messages: &[Message],
    last_tool_names: &[String],
    turn_count: usize,
    auto_route: bool,
    intensity: Intensity,
) -> (m: String)
    ensures
        m@ == picked_model(
            configured_model@,
            message_views(messages@),
            views(last_tool_names@),
            turn_count as nat,
            auto_route,
            intensity,
        ),
{
    if !auto_route {
        return configured_model.to_owned();
    }
    if !str_eq(configured_model, MODEL_HEAVY) && !str_eq(configured_model, MODEL_LIGHT)
        && !configured_model.is_empty() {
        return configured_model.to_owned();
    }
    if intensity == Intensity::High {
        return MODEL_HEAVY.to_owned();
    }
    if classify_turn(messages, last_tool_names, turn_count, intensity) {
        MODEL_HEAVY.to_owned()
    } else {
        MODEL_LIGHT.to_owned()
    }
}

// ─── Laws ───────────────────────────────────────────────────────────────────

/// A model the router chooses between (or none configured).
pub open spec fn routable(configured: Seq<char>) -> bool {
    configured == heavy_name() || configured == light_name() || configured.len() == 0
}

/// Reading an intensity's name gives the intensity back, and so does its
/// name in capitals.
pub proof fn law_intensity_name_roundtrip(i: Intensity)
    ensures
        intensity_named(intensity_text(i)) == Some(i),
        intensity_named(intensity_text(i).map_values(|c: char| upper_ascii(c))) == Some(i),
{
    reveal_strlit("high");
    reveal_strlit("medium");
    reveal_strlit("low");
    let t = intensity_text(i);
    let u = t.map_values(|c: char| upper_ascii(c));
    assert(is_ascii_text(t));
    assert(t.map_values(|c: char| ascii_lower(c)) =~= t);
    assert(is_ascii_text(u));
    assert(u.map_values(|c: char| ascii_lower(c)) =~= t);
}

/// The ASCII upper case of a lower-case letter.
pub open spec fn upper_ascii(c: char) -> char {
    if 'a' <= c && c <= 'z' {
        ((c as u32) - 32) as char
    } else {
        c
    }
}

/// With routing off, the configured model is used.
pub proof fn law_routing_off_keeps_model(
    configured: Seq<char>,
    ms: Seq<MessageV>,
    names: Seq<Seq<char>>,
    turn: nat,
    intensity: Intensity,
)
    ensures
        picked_model(configured, ms, names, turn, false, intensity) == configured,
{
}

/// High intensity always routes to the heavy model.
pub proof fn law_high_intensity_is_heavy(configured: Seq<char>, ms: Seq<MessageV>, names: Seq<Seq<char>>, turn: nat)
    requires
        routable(configured),
    ensures
        picked_model(configured, ms, names, turn, true, Intensity::High) == heavy_name(),
{
}

/// The first turn always routes to the heavy model.
pub proof fn law_first_turn_is_heavy(configured: Seq<char>, ms: Seq<MessageV>, names: Seq<Seq<char>>, intensity: Intensity)
    requires
        routable(configured),
    ensures
        picked_model(configured, ms, names, 0, true, intensity) == heavy_name(),
{
}

/// At medium intensity, a turn after a tool that writes or runs code (Edit,
/// Write, Bash, Agent or NotebookEdit) is heavy.
pub proof fn law_heavy_tool_keeps_heavy(
    configured: Seq<char>,
    ms: Seq<MessageV>,
    names: Seq<Seq<char>>,
    turn: nat,
    k: int,
)
    requires
        routable(configured),
        0 <= k < names.len(),
        is_heavy_tool(names[k]) || names[k] == "Edit"@ || names[k] == "Write"@ || names[k] == "Bash"@
            || names[k] == "Agent"@ || names[k] == "NotebookEdit"@,
    ensures
        picked_model(configured, ms, names, turn, true, Intensity::Medium) == heavy_name(),
        heavy_name() == "trinity-large-thinking"@,
{
}

/// At low intensity, a turn after Edit, Write or Agent is heavy.
pub proof fn law_low_intensity_heavy_after_changes(
    configured: Seq<char>,
    ms: Seq<MessageV>,
    names: Seq<Seq<char>>,
    turn: nat,
    k: int,
)
    requires
        routable(configured),
        0 <= k < names.len(),
        names[k] == "Edit"@ || names[k] == "Write"@ || names[k] == "Agent"@,
    ensures
        picked_model(configured, ms, names, turn, true, Intensity::Low) == heavy_name(),
        heavy_name() == "trinity-large-thinking"@,
{
    assert(is_critical_tool(names[k]));
}

/// At low intensity, a later turn is light when none of its last tools is
/// Edit, Write or Agent.
pub proof fn law_low_intensity_light_otherwise(
    configured: Seq<char>,
    ms: Seq<MessageV>,
    names: Seq<Seq<char>>,
    turn: nat,
)
    requires
        routable(configured),
        turn > 0,
        forall|k: int| 0 <= k < names.len() ==> names[k] != "Edit"@ && names[k] != "Write"@ && names[k] != "Agent"@,
    ensures
        picked_model(configured, ms, names, turn, true, Intensity::Low) == light_name(),
        light_name() == "trinity-mini"@,
{
    assert(!exists|i: int| 0 <= i < names.len() && is_critical_tool(#[trigger] names[i]));
    reveal_strlit("trinity-mini");
    reveal_strlit("trinity-large-thinking");
    assert(light_name() != heavy_name()) by {
        assert(light_name().len() != heavy_name().len());
    }
}

/// At medium intensity, a later turn whose last tools only read (Read, Glob,
/// Grep, WebFetch, TaskList, TaskGet or LSP) is light.
pub proof fn law_medium_light_after_reads(configured: Seq<char>, ms: Seq<MessageV>, names: Seq<Seq<char>>, turn: nat)
    requires
        routable(configured),
        turn > 0,
        names.len() > 0,
        forall|k: int| 0 <= k < names.len() ==> names[k] == "Read"@ || names[k] == "Glob"@ || names[k] == "Grep"@ || names[k] == "WebFetch"@ || names[k] == "TaskList"@ || names[k] == "TaskGet"@ || names[k] == "LSP"@,
    ensures
        picked_model(configured, ms, names, turn, true, Intensity::Medium) == light_name(),
{
    reveal_strlit("Read");
    reveal_strlit("Glob");
    reveal_strlit("Grep");
    reveal_strlit("WebFetch");
    reveal_strlit("TaskList");
    reveal_strlit("TaskGet");
    reveal_strlit("LSP");
    reveal_strlit("Edit");
    reveal_strlit("Write");
    reveal_strlit("Bash");
    reveal_strlit("Agent");
    reveal_strlit("NotebookEdit");
    assert forall|k: int| 0 <= k < names.len() implies is_light_tool(#[trigger] names[k]) && !is_heavy_tool(names[k]) by {
        let n = names[k];
        if n.len() == 4 {
            assert(n[0] == 'R' || n[0] == 'G');
        }
    }
}

} // verus!
