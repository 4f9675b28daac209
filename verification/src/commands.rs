//! Slash commands typed at the prompt: parsing them and answering those
//! that need neither the model nor the cost table; `/compact` and `/cost`
//! are handed back to the caller.

use vstd::prelude::*;
use crate::compact::{capped, estimate_tokens, token_estimate, total_chars};
use crate::messages::{
    block_views, content_views, message_views, BlockV, ContentBlock, Message, MessageV, UserContent,
    UserContentV,
};
use crate::model_router::{intensity_named, intensity_text, Intensity};
use crate::permissions::PermissionStrictness;
use crate::text::{
    chars_of, decimal, decimal_string, idx_of, index_of_char, join, lower_text, prefix, prefix_chars,
    push_joined, push_str, str_eq, string_of, to_lowercase, trim, trim_str, views,
};

verus! {

/// What a slash command produced.
pub enum CommandResult {
    /// Text to show.
    Output(String),
    /// The user wants to leave.
    Exit,
    /// Not a command; the text says so.
    Unknown(String),
}

/// What the caller does after a command.
pub enum CommandStep {
    /// The command is answered.
    Done(CommandResult),
    /// Compact the conversation with the model, then report with
    /// `compact_report`.
    Compact,
    /// Show the cost summary.
    Cost,
}

/// The command word and its arguments: the trimmed input split at its first
/// space.
pub open spec fn command_parts(input: Seq<char>) -> (Seq<char>, Seq<char>) {
    let t = trim(input);
    let k = idx_of(t, ' ');
    if k >= t.len() { (t, seq![]) } else { (t.take(k), t.skip(k + 1)) }
}

pub fn split_command(input: &str) -> (r: (String, String))
    ensures
        r.0@ == command_parts(input@).0,
        r.1@ == command_parts(input@).1,
{
    let t = trim_str(input);
    let v = chars_of(t.as_str());
    let k = index_of_char(&v, ' ', 0);
    assert(v@.skip(0) =~= v@);
    if k == v.len() {
        (t, String::new())
    } else {
        let cmd = string_of(&v, 0, k);
        let args = string_of(&v, k + 1, v.len());
        assert(v@.subrange(0, k as int) =~= v@.take(k as int));
        assert(v@.subrange(k + 1, v@.len() as int) =~= v@.skip(k + 1));
        (cmd, args)
    }
}

pub open spec fn help_body() -> Seq<char> {
    "Available commands:\n  /help      Show this help message\n  /clear     Clear the conversation\n  /compact   Compress conversation context\n  /cost      Show token usage and estimated cost\n  /model     Show or switch model (trinity-mini, trinity-large-thinking)\n  /intensity Set model routing intensity (high, medium, low)\n  /strictness  Show or set permission strictness (high, medium, low)\n  /tokens    Show estimated token count\n  /history   Show conversation summary\n  /quit      Exit arcee-code\n\nKeyboard shortcuts:\n  ESC        Interrupt current generation\n  Ctrl+D     Exit\n\nEnvironment variables:\n  ARCEE_API_KEY     Your Arcee API key\n  ARCEE_BASE_URL    Custom API endpoint\n  ARCEE_MODEL       Default model override"@
}

/// The list of commands and shortcuts.
pub fn help_text() -> (s: String)
    ensures
        s@ == help_body(),
{
    "Available commands:\n  /help      Show this help message\n  /clear     Clear the conversation\n  /compact   Compress conversation context\n  /cost      Show token usage and estimated cost\n  /model     Show or switch model (trinity-mini, trinity-large-thinking)\n  /intensity Set model routing intensity (high, medium, low)\n  /strictness  Show or set permission strictness (high, medium, low)\n  /tokens    Show estimated token count\n  /history   Show conversation summary\n  /quit      Exit arcee-code\n\nKeyboard shortcuts:\n  ESC        Interrupt current generation\n  Ctrl+D     Exit\n\nEnvironment variables:\n  ARCEE_API_KEY     Your Arcee API key\n  ARCEE_BASE_URL    Custom API endpoint\n  ARCEE_MODEL       Default model override".to_owned()
}

// ─── History ───────────────────────────────────────────────────────────────

/// `n` right-aligned in three columns (`{:>3}`).
pub open spec fn pad3(s: Seq<char>) -> Seq<char> {
    if s.len() >= 3 {
        s
    } else if s.len() == 2 {
        " "@ + s
    } else {
        "  "@ + s
    }
}

pub open spec fn user_texts_of(cs: Seq<UserContentV>) -> Seq<Seq<char>>
    decreases cs.len(),
{
    if cs.len() == 0 {
        seq![]
    } else {
        let r = user_texts_of(cs.drop_last());
        match cs.last() {
            UserContentV::Text(t) => r.push(t),
            _ => r,
        }
    }
}

pub open spec fn block_texts_of(bs: Seq<BlockV>) -> Seq<Seq<char>>
    decreases bs.len(),
{
    if bs.len() == 0 {
        seq![]
    } else {
        let r = block_texts_of(bs.drop_last());
        match bs.last() {
            BlockV::Text(t) => r.push(t),
            _ => r,
        }
    }
}

/// The history line of the message at position `i` (from 0).
pub open spec fn history_line(i: nat, m: MessageV) -> Seq<char> {
    pad3(decimal(i + 1)) + match m {
        MessageV::User(cs) => ". User: "@ + prefix(join(user_texts_of(cs), " "@), 80),
        MessageV::Assistant(bs, _, _) => ". Arcee: "@ + prefix(join(block_texts_of(bs), " "@), 80),
        MessageV::System(s, _) => ". System: "@ + prefix(s, 80),
    } + "\n"@
}

pub open spec fn history_lines(ms: Seq<MessageV>) -> Seq<char>
    decreases ms.len(),
{
    if ms.len() == 0 {
        seq![]
    } else {
        history_lines(ms.drop_last()) + history_line((ms.len() - 1) as nat, ms.last())
    }
}

/// The conversation as numbered one-line previews (first 80 characters of
/// each message's text).
pub open spec fn history_text(ms: Seq<MessageV>) -> Seq<char> {
    if ms.len() == 0 { "No messages yet."@ } else { history_lines(ms) }
}

fn pad3_exec(s: &str) -> (out: String)
    ensures
        out@ == pad3(s@),
{
    let n = s.unicode_len();
    let mut out = String::new();
    if n == 2 {
        push_str(&mut out, " ");
    } else if n < 2 {
        push_str(&mut out, "  ");
    }
    push_str(&mut out, s);
    proof {
        reveal_strlit("");
    }
    out
}

fn message_preview(m: &Message) -> (out: String)
    ensures
        out@ == match m@ {
            MessageV::User(cs) => ". User: "@ + prefix(join(user_texts_of(cs), " "@), 80),
            MessageV::Assistant(bs, _, _) => ". Arcee: "@ + prefix(join(block_texts_of(bs), " "@), 80),
            MessageV::System(s, _) => ". System: "@ + prefix(s, 80),
        },
{
    match m {
        Message::User(u) => {
            let ghost cv = content_views(u.content@);
            let mut texts: Vec<String> = Vec::new();
            let mut j: usize = 0;
            while j < u.content.len()
                invariant
                    j <= u.content@.len(),
                    cv == content_views(u.content@),
                    views(texts@) == user_texts_of(cv.take(j as int)),
                decreases u.content@.len() - j,
            {
                assert(cv.take(j + 1).drop_last() =~= cv.take(j as int));
                assert(cv.take(j + 1).last() == u.content@[j as int]@);
                match &u.content[j] {
                    UserContent::Text(t) => {
                        texts.push(t.clone());
                        assert(views(texts@) =~= views(texts@.drop_last()).push(t@));
                    },
                    _ => {},
                }
                j += 1;
            }
            assert(cv.take(u.content@.len() as int) =~= cv);
            let mut joined = String::new();
            push_joined(&mut joined, &texts, " ");
            let mut out = ". User: ".to_owned();
            push_str(&mut out, prefix_chars(joined.as_str(), 80).as_str());
            out
        },
        Message::Assistant(a) => {
            let ghost bv = block_views(a.content@);
            let mut texts: Vec<String> = Vec::new();
            let mut j: usize = 0;
            while j < a.content.len()
                invariant
                    j <= a.content@.len(),
                    bv == block_views(a.content@),
                    views(texts@) == block_texts_of(bv.take(j as int)),
                decreases a.content@.len() - j,
            {
                assert(bv.take(j + 1).drop_last() =~= bv.take(j as int));
                assert(bv.take(j + 1).last() == a.content@[j as int]@);
                match &a.content[j] {
                    ContentBlock::Text { text } => {
                        texts.push(text.clone());
                        assert(views(texts@) =~= views(texts@.drop_last()).push(text@));
                    },
                    _ => {},
                }
                j += 1;
            }
            assert(bv.take(a.content@.len() as int) =~= bv);
            let mut joined = String::new();
            push_joined(&mut joined, &texts, " ");
            let mut out = ". Arcee: ".to_owned();
            push_str(&mut out, prefix_chars(joined.as_str(), 80).as_str());
            out
        },
        Message::System(s) => {
            let mut out = ". System: ".to_owned();
            push_str(&mut out, prefix_chars(s.content.as_str(), 80).as_str());
            out
        },
    }
}

/// The conversation summary shown by `/history`.
pub fn format_history(messages: &[Message]) -> (out: String)
    ensures
        out@ == history_text(message_views(messages@)),
{
    if messages.len() == 0 {
        return "No messages yet.".to_owned();
    }
    let ghost mv = message_views(messages@);
    let mut out = String::new();
    let mut i: usize = 0;
    while i < messages.len()
        invariant
            i <= messages@.len(),
            mv == message_views(messages@),
            out@ == history_lines(mv.take(i as int)),
        decreases messages@.len() - i,
    {
        assert(mv.take(i + 1).drop_last() =~= mv.take(i as int));
        assert(mv.take(i + 1).last() == messages@[i as int]@);
        let num = pad3_exec(crate::text::decimal_string_wide(i as u128 + 1).as_str());
        push_str(&mut out, num.as_str());
        push_str(&mut out, message_preview(&messages[i]).as_str());
        push_str(&mut out, "\n");
        i += 1;
    }
    assert(mv.take(messages@.len() as int) =~= mv);
    out
}

// ─── Settings commands ─────────────────────────────────────────────────────

pub open spec fn strictness_text(s: PermissionStrictness) -> Seq<char> {
    match s {
        PermissionStrictness::High => "high"@,
        PermissionStrictness::Medium => "medium"@,
        PermissionStrictness::Low => "low"@,
    }
}

/// The strictness named by `s` (trimmed, any case).
pub open spec fn strictness_named(s: Seq<char>) -> Option<PermissionStrictness> {
    let l = lower_text(trim(s));
    if l == "high"@ {
        Some(PermissionStrictness::High)
    } else if l == "medium"@ {
        Some(PermissionStrictness::Medium)
    } else if l == "low"@ {
        Some(PermissionStrictness::Low)
    } else {
        None
    }
}

pub open spec fn model_report(model: Seq<char>, args: Seq<char>) -> Seq<char> {
    if args.len() == 0 {
        "Current model: "@ + model + "\nAvailable: trinity-mini, trinity-large-thinking\nUsage: /model <name>"@
    } else {
        "Model set to: "@ + args + ". Will apply to next API call.\nNote: use --model flag or ARCEE_MODEL env var to persist."@
    }
}

pub open spec fn strictness_listing(cur: PermissionStrictness) -> Seq<char> {
    "Current permission strictness: "@ + strictness_text(cur)
        + "\n  high — prompt for all non-read-only tools\n  medium — auto-allow safe bash commands, prompt for moderate+\n  low — only prompt for destructive bash commands\nUsage: /permission-strictness <high|medium|low>"@
}

pub open spec fn intensity_line(level: Intensity, cur: Intensity) -> Seq<char> {
    "  "@ + intensity_text(level) + " — "@ + crate::model_router::intensity_description(level) + (if level
        == cur {
        " <--"@
    } else {
        seq![]
    }) + "\n"@
}

pub open spec fn intensity_listing(cur: Intensity) -> Seq<char> {
    "Current intensity: "@ + intensity_text(cur) + "\n\n"@ + intensity_line(Intensity::High, cur)
        + intensity_line(Intensity::Medium, cur) + intensity_line(Intensity::Low, cur)
        + "\nUsage: /intensity <high|medium|low>"@
}

fn strictness_name(s: PermissionStrictness) -> (t: &'static str)
    ensures
        t@ == strictness_text(s),
{
    match s {
        PermissionStrictness::High => "high",
        PermissionStrictness::Medium => "medium",
        PermissionStrictness::Low => "low",
    }
}

fn push_intensity_line(out: &mut String, level: Intensity, cur: Intensity)
    ensures
        final(out)@ == old(out)@ + intensity_line(level, cur),
{
    push_str(out, "  ");
    push_str(out, level.as_str());
    push_str(out, " — ");
    push_str(out, level.description());
    if level == cur {
        push_str(out, " <--");
    } else {
        proof {
            reveal_strlit("");
        }
    }
    push_str(out, "\n");
}

/// The text of the estimated token count.
pub open spec fn tokens_report(ms: Seq<MessageV>) -> Seq<char> {
    "Estimated context: ~"@ + decimal(token_estimate(capped(total_chars(ms)))) + " tokens ("@ + decimal(
        ms.len(),
    ) + " messages)"@
}

/// The answer to a command, the state after it, or the work it hands back.
pub open spec fn command_outcome(
    input: Seq<char>,
    ms: Seq<MessageV>,
    model: Seq<char>,
    strictness: PermissionStrictness,
    intensity: Intensity,
) -> (Option<Result<Seq<char>, bool>>, Seq<MessageV>, PermissionStrictness, Intensity) {
    let (cmd, args) = command_parts(input);
    if cmd == "/help"@ {
        (Some(Ok(help_body())), ms, strictness, intensity)
    } else if cmd == "/clear"@ {
        (Some(Ok("Conversation cleared."@)), seq![], strictness, intensity)
    } else if cmd == "/compact"@ || cmd == "/cost"@ {
        (None, ms, strictness, intensity)
    } else if cmd == "/model"@ {
        (Some(Ok(model_report(model, args))), ms, strictness, intensity)
    } else if cmd == "/permission-strictness"@ || cmd == "/strictness"@ {
        if args.len() == 0 {
            (Some(Ok(strictness_listing(strictness))), ms, strictness, intensity)
        } else {
            match strictness_named(args) {
                Some(s) => (Some(Ok("Permission strictness set to: "@ + args + "."@)), ms, s, intensity),
                None => (
                    Some(Ok("Unknown strictness level: "@ + args + ". Use high, medium, or low."@)),
                    ms,
                    strictness,
                    intensity,
                ),
            }
        }
    } else if cmd == "/intensity"@ {
        if args.len() == 0 {
            (Some(Ok(intensity_listing(intensity))), ms, strictness, intensity)
        } else {
            match intensity_named(trim(args)) {
                Some(i) => (
                    Some(
                        Ok(
                            "Intensity set to: "@ + intensity_text(i) + " — "@
                                + crate::model_router::intensity_description(i),
                        ),
                    ),
                    ms,
                    strictness,
                    i,
                ),
                None => (
                    Some(Ok("Unknown intensity: "@ + args + ". Use high, medium, or low."@)),
                    ms,
                    strictness,
                    intensity,
                ),
            }
        }
    } else if cmd == "/tokens"@ {
        (Some(Ok(tokens_report(ms))), ms, strictness, intensity)
    } else if cmd == "/history"@ {
        (Some(Ok(history_text(ms))), ms, strictness, intensity)
    } else if cmd == "/quit"@ || cmd == "/exit"@ || cmd == "/q"@ {
        (Some(Err(true)), ms, strictness, intensity)
    } else {
        (Some(Err(false)), ms, strictness, intensity)
    }
}

/// Handles a slash command: answers it, or hands back `/compact` and
/// `/cost`; `/clear` empties the conversation, `/strictness` and
/// `/intensity` with an argument change the setting.
pub fn handle_command(
    input: &str,
    messages: &mut Vec<Message>,
    model: &str,
    strictness: &mut PermissionStrictness,
    intensity: &mut Intensity,
) -> (step: CommandStep)
    ensures
        ({
            let (r, ms, s, i) = command_outcome(input@, message_views(old(messages)@), model@, *old(strictness), *old(intensity));
            &&& message_views(final(messages)@) == ms
            &&& *final(strictness) == s
            &&& *final(intensity) == i
            &&& match (step, r) {
                (CommandStep::Done(CommandResult::Output(t)), Some(Ok(x))) => t@ == x,
                (CommandStep::Done(CommandResult::Exit), Some(Err(true))) => true,
                (CommandStep::Done(CommandResult::Unknown(t)), Some(Err(false))) => t@ == "Unknown command: "@
                    + command_parts(input@).0 + ". Type /help for available commands."@,
                (CommandStep::Compact, None) => command_parts(input@).0 == "/compact"@,
                (CommandStep::Cost, None) => command_parts(input@).0 == "/cost"@,
                _ => false,
            }
        }),
{
    let (cmd, args) = split_command(input);
    let c = cmd.as_str();
    let a = args.as_str();
    proof {
        reveal_strlit("/help");
        reveal_strlit("/clear");
        reveal_strlit("/compact");
        reveal_strlit("/cost");
        reveal_strlit("/model");
        reveal_strlit("/permission-strictness");
        reveal_strlit("/strictness");
        reveal_strlit("/intensity");
        reveal_strlit("/tokens");
        reveal_strlit("/history");
        reveal_strlit("/quit");
        reveal_strlit("/exit");
        reveal_strlit("/q");
        assert("/help"@[1] != "/cost"@[1] && "/help"@[1] != "/quit"@[1] && "/help"@[1] != "/exit"@[1]);
        assert("/cost"@[1] != "/quit"@[1] && "/cost"@[1] != "/exit"@[1] && "/quit"@[1] != "/exit"@[1]);
        assert("/clear"@[1] != "/model"@[1]);
        assert("/tokens"@[1] != "/compact"@[1] || "/tokens"@.len() != "/compact"@.len());
        assert("/history"@[1] != "/compact"@[1]);
    }
    if str_eq(c, "/help") {
        CommandStep::Done(CommandResult::Output(help_text()))
    } else if str_eq(c, "/clear") {
        messages.clear();
        assert(message_views(messages@) =~= Seq::<MessageV>::empty());
        CommandStep::Done(CommandResult::Output("Conversation cleared.".to_owned()))
    } else if str_eq(c, "/compact") {
        CommandStep::Compact
    } else if str_eq(c, "/cost") {
        CommandStep::Cost
    } else if str_eq(c, "/model") {
        let mut out = String::new();
        if a.is_empty() {
            push_str(&mut out, "Current model: ");
            push_str(&mut out, model);
            push_str(&mut out, "\nAvailable: trinity-mini, trinity-large-thinking\nUsage: /model <name>");
        } else {
            push_str(&mut out, "Model set to: ");
            push_str(&mut out, a);
            push_str(
                &mut out,
                ". Will apply to next API call.\nNote: use --model flag or ARCEE_MODEL env var to persist.",
            );
        }
        CommandStep::Done(CommandResult::Output(out))
    } else if str_eq(c, "/permission-strictness") || str_eq(c, "/strictness") {
        let mut out = String::new();
        if a.is_empty() {
            push_str(&mut out, "Current permission strictness: ");
            push_str(&mut out, strictness_name(*strictness));
            push_str(
                &mut out,
                "\n  high — prompt for all non-read-only tools\n  medium — auto-allow safe bash commands, prompt for moderate+\n  low — only prompt for destructive bash commands\nUsage: /permission-strictness <high|medium|low>",
            );
        } else {
            let l = to_lowercase(trim_str(a).as_str());
            let ls = l.as_str();
            let named = if str_eq(ls, "high") {
                Some(PermissionStrictness::High)
            } else if str_eq(ls, "medium") {
                Some(PermissionStrictness::Medium)
            } else if str_eq(ls, "low") {
                Some(PermissionStrictness::Low)
            } else {
                None
            };
            match named {
                Some(s) => {
                    *strictness = s;
                    push_str(&mut out, "Permission strictness set to: ");
                    push_str(&mut out, a);
                    push_str(&mut out, ".");
                },
                None => {
                    push_str(&mut out, "Unknown strictness level: ");
                    push_str(&mut out, a);
                    push_str(&mut out, ". Use high, medium, or low.");
                },
            }
        }
        CommandStep::Done(CommandResult::Output(out))
    } else if str_eq(c, "/intensity") {
        let mut out = String::new();
        if a.is_empty() {
            let cur = *intensity;
            push_str(&mut out, "Current intensity: ");
            push_str(&mut out, cur.as_str());
            push_str(&mut out, "\n\n");
            push_intensity_line(&mut out, Intensity::High, cur);
            push_intensity_line(&mut out, Intensity::Medium, cur);
            push_intensity_line(&mut out, Intensity::Low, cur);
            push_str(&mut out, "\nUsage: /intensity <high|medium|low>");
        } else {
            match Intensity::from_str(trim_str(a).as_str()) {
                Some(i) => {
                    *intensity = i;
                    push_str(&mut out, "Intensity set to: ");
                    push_str(&mut out, i.as_str());
                    push_str(&mut out, " — ");
                    push_str(&mut out, i.description());
                },
                None => {
                    push_str(&mut out, "Unknown intensity: ");
                    push_str(&mut out, a);
                    push_str(&mut out, ". Use high, medium, or low.");
                },
            }
        }
        CommandStep::Done(CommandResult::Output(out))
    } else if str_eq(c, "/tokens") {
        let estimated = estimate_tokens(messages.as_slice());
        let mut out = "Estimated context: ~".to_owned();
        push_str(&mut out, decimal_string(estimated).as_str());
        push_str(&mut out, " tokens (");
        push_str(&mut out, decimal_string(messages.len() as u64).as_str());
        push_str(&mut out, " messages)");
        CommandStep::Done(CommandResult::Output(out))
    } else if str_eq(c, "/history") {
        CommandStep::Done(CommandResult::Output(format_history(messages.as_slice())))
    } else if str_eq(c, "/quit") || str_eq(c, "/exit") || str_eq(c, "/q") {
        CommandStep::Done(CommandResult::Exit)
    } else {
        let mut out = "Unknown command: ".to_owned();
        push_str(&mut out, c);
        push_str(&mut out, ". Type /help for available commands.");
        CommandStep::Done(CommandResult::Unknown(out))
    }
}

/// The report after `/compact`.
pub fn compact_report(before: usize, after: usize, tokens_before: u64, tokens_after: u64) -> (r: CommandResult)
    ensures
        r matches CommandResult::Output(t) && t@ == "Compacted: "@ + decimal(before as nat) + " → "@ + decimal(
            after as nat,
        ) + " messages (~"@ + decimal(tokens_before as nat) + " → ~"@ + decimal(tokens_after as nat)
            + " tokens)"@,
{
    let mut t = "Compacted: ".to_owned();
    push_str(&mut t, decimal_string(before as u64).as_str());
    push_str(&mut t, " → ");
    push_str(&mut t, decimal_string(after as u64).as_str());
    push_str(&mut t, " messages (~");
    push_str(&mut t, decimal_string(tokens_before).as_str());
    push_str(&mut t, " → ~");
    push_str(&mut t, decimal_string(tokens_after).as_str());
    push_str(&mut t, " tokens)");
    CommandResult::Output(t)
}

} // verus!
