//! Keeping a conversation within the model's context: a token estimate, a
//! transcript for the summariser, and the replacement of older messages by a
//! summary.

use vstd::prelude::*;
use crate::messages::{
    block_views, content_views, message_views, BlockV, ContentBlock, Message, MessageV,
    SystemMessage, SystemMessageType, UserContent, UserContentV,
};
use crate::text::{blen, decimal, decimal_string, join, prefix, prefix_chars, push_joined, push_str, trim, trim_str, views};

verus! {

pub open spec fn content_chars(c: UserContentV) -> nat {
    match c {
        UserContentV::Text(t) => blen(t),
        UserContentV::ToolResult(_, content, _) => blen(content),
    }
}

pub open spec fn block_chars(b: BlockV) -> nat {
    match b {
        BlockV::Text(t) => blen(t),
        BlockV::ToolUse(_, _, input) => blen(input),
        BlockV::Thinking(t) => blen(t),
    }
}

pub open spec fn user_chars(cs: Seq<UserContentV>) -> nat
    decreases cs.len(),
{
    if cs.len() == 0 { 0 } else { user_chars(cs.drop_last()) + content_chars(cs.last()) }
}

pub open spec fn blocks_chars(bs: Seq<BlockV>) -> nat
    decreases bs.len(),
{
    if bs.len() == 0 { 0 } else { blocks_chars(bs.drop_last()) + block_chars(bs.last()) }
}

/// The bytes of text a message carries; a tool call counts its JSON
/// arguments.
pub open spec fn message_chars(m: MessageV) -> nat {
    match m {
        MessageV::User(cs) => user_chars(cs),
        MessageV::Assistant(bs, _, _) => blocks_chars(bs),
        MessageV::System(s, _) => blen(s),
    }
}

pub open spec fn total_chars(ms: Seq<MessageV>) -> nat
    decreases ms.len(),
{
    if ms.len() == 0 { 0 } else { total_chars(ms.drop_last()) + message_chars(ms.last()) }
}

/// Tokens for `n` bytes of text at 3.8 bytes a token, rounded down.
pub open spec fn token_estimate(n: nat) -> nat {
    n * 5 / 19
}

/// `n`, or `u64::MAX` when it is larger.
pub open spec fn capped(n: nat) -> nat {
    if n > u64::MAX { u64::MAX as nat } else { n }
}

fn sat_add(acc: u64, k: usize) -> (r: u64)
    ensures
        r == capped((acc + k) as nat),
{
    acc.saturating_add(k as u64)
}

/// The token estimate for `n` bytes, computed without overflow.
pub fn tokens_for(n: u64) -> (t: u64)
    ensures
        t == token_estimate(n as nat),
{
    let q = n / 19;
    let r = n % 19;
    proof {
        assert(n == 19 * q + r);
        assert(n * 5 / 19 == 5 * q + r * 5 / 19) by (nonlinear_arith)
            requires
                n == 19 * q + r,
                0 <= r < 19,
        ;
        assert(5 * q <= n) by (nonlinear_arith)
            requires
                n == 19 * q + r,
                0 <= r,
                0 <= q,
        ;
    }
    5 * q + r * 5 / 19
}

/// Estimated token count of a conversation: its bytes of text (counted up
/// to `u64::MAX`) at 3.8 bytes a token.
pub fn estimate_tokens(messages: &[Message]) -> (t: u64)
    ensures
        t == token_estimate(capped(total_chars(message_views(messages@)))),
{
    let ghost mv = message_views(messages@);
    let mut acc: u64 = 0;
    let mut i: usize = 0;
    while i < messages.len()
        invariant
            i <= messages.len(),
            mv == message_views(messages@),
            acc == capped(total_chars(mv.take(i as int))),
        decreases messages.len() - i,
    {
        assert(mv.take(i + 1).drop_last() =~= mv.take(i as int));
        assert(mv.take(i + 1).last() == messages@[i as int]@);
        let ghost before = total_chars(mv.take(i as int));
        match &messages[i] {
            Message::User(u) => {
                let ghost cv = content_views(u.content@);
                let mut j: usize = 0;
                while j < u.content.len()
                    invariant
                        j <= u.content.len(),
                        cv == content_views(u.content@),
                        acc == capped(before + user_chars(cv.take(j as int))),
                    decreases u.content.len() - j,
                {
                    assert(cv.take(j + 1).drop_last() =~= cv.take(j as int));
                    let n = match &u.content[j] {
                        UserContent::Text(t) => t.as_str().len(),
                        UserContent::ToolResult { content, .. } => content.as_str().len(),
                    };
                    acc = sat_add(acc, n);
                    j += 1;
                }
                assert(cv.take(u.content.len() as int) =~= cv);
            },
            Message::Assistant(a) => {
                let ghost bv = block_views(a.content@);
                let mut j: usize = 0;
                while j < a.content.len()
                    invariant
                        j <= a.content.len(),
                        bv == block_views(a.content@),
                        acc == capped(before + blocks_chars(bv.take(j as int))),
                    decreases a.content.len() - j,
                {
                    assert(bv.take(j + 1).drop_last() =~= bv.take(j as int));
                    let n = match &a.content[j] {
                        ContentBlock::Text { text } => text.as_str().len(),
                        ContentBlock::ToolUse { input, .. } => input.as_str().len(),
                        ContentBlock::Thinking { thinking } => thinking.as_str().len(),
                    };
                    acc = sat_add(acc, n);
                    j += 1;
                }
                assert(bv.take(a.content.len() as int) =~= bv);
            },
            Message::System(s) => {
                acc = sat_add(acc, s.content.as_str().len());
            },
        }
        i += 1;
    }
    assert(mv.take(messages.len() as int) =~= mv);
    tokens_for(acc)
}

// ─── Transcript and fallback summary ───────────────────────────────────────

pub open spec fn transcript_user(cs: Seq<UserContentV>) -> Seq<Seq<char>>
    decreases cs.len(),
{
    if cs.len() == 0 {
        seq![]
    } else {
        transcript_user(cs.drop_last()).push(
            match cs.last() {
                UserContentV::Text(t) => "User: "@ + prefix(t, 1000),
                UserContentV::ToolResult(_, c, e) => (if e {
                    "Tool Error"@
                } else {
                    "Tool Result"@
                }) + ": "@ + prefix(c, 500),
            },
        )
    }
}

pub open spec fn transcript_blocks(bs: Seq<BlockV>) -> Seq<Seq<char>>
    decreases bs.len(),
{
    if bs.len() == 0 {
        seq![]
    } else {
        let r = transcript_blocks(bs.drop_last());
        match bs.last() {
            BlockV::Text(t) => r.push("Assistant: "@ + prefix(t, 1000)),
            BlockV::ToolUse(_, name, input) => r.push(
                "Tool Call: "@ + name + "("@ + prefix(input, 200) + ")"@,
            ),
            BlockV::Thinking(_) => r,
        }
    }
}

/// The transcript lines of a conversation: user text and assistant text
/// (first 1000 characters), tool results (first 500) and tool calls with
/// their arguments (first 200); thinking and system messages are left out.
pub open spec fn transcript_parts(ms: Seq<MessageV>) -> Seq<Seq<char>>
    decreases ms.len(),
{
    if ms.len() == 0 {
        seq![]
    } else {
        transcript_parts(ms.drop_last()) + match ms.last() {
            MessageV::User(cs) => transcript_user(cs),
            MessageV::Assistant(bs, _, _) => transcript_blocks(bs),
            MessageV::System(_, _) => seq![],
        }
    }
}

pub open spec fn summary_user(cs: Seq<UserContentV>) -> Seq<Seq<char>>
    decreases cs.len(),
{
    if cs.len() == 0 {
        seq![]
    } else {
        let r = summary_user(cs.drop_last());
        match cs.last() {
            UserContentV::Text(t) => r.push("User: "@ + prefix(t, 200)),
            _ => r,
        }
    }
}

pub open spec fn summary_blocks(bs: Seq<BlockV>) -> Seq<Seq<char>>
    decreases bs.len(),
{
    if bs.len() == 0 {
        seq![]
    } else {
        let r = summary_blocks(bs.drop_last());
        match bs.last() {
            BlockV::Text(t) => r.push("Assistant: "@ + prefix(t, 200)),
            BlockV::ToolUse(_, name, _) => r.push("Tool: "@ + name),
            BlockV::Thinking(_) => r,
        }
    }
}

/// The lines of the fallback summary: user and assistant text (first 200
/// characters) and the names of the tools called.
pub open spec fn summary_parts(ms: Seq<MessageV>) -> Seq<Seq<char>>
    decreases ms.len(),
{
    if ms.len() == 0 {
        seq![]
    } else {
        summary_parts(ms.drop_last()) + match ms.last() {
            MessageV::User(cs) => summary_user(cs),
            MessageV::Assistant(bs, _, _) => summary_blocks(bs),
            MessageV::System(_, _) => seq![],
        }
    }
}

pub open spec fn fallback_text(ms: Seq<MessageV>) -> Seq<char> {
    "[Context compacted — "@ + decimal(ms.len()) + " earlier messages summarized (fallback)]\n"@
        + join(summary_parts(ms), "\n"@)
}

/// Appends the transcript or summary lines of one message.
fn push_message_parts(parts: &mut Vec<String>, m: &Message, full: bool)
    ensures
        views(final(parts)@) == views(old(parts)@) + if full {
            match m@ {
                MessageV::User(cs) => transcript_user(cs),
                MessageV::Assistant(bs, _, _) => transcript_blocks(bs),
                MessageV::System(_, _) => seq![],
            }
        } else {
            match m@ {
                MessageV::User(cs) => summary_user(cs),
                MessageV::Assistant(bs, _, _) => summary_blocks(bs),
                MessageV::System(_, _) => seq![],
            }
        },
{
    match m {
        Message::User(u) => {
            let ghost cv = content_views(u.content@);
            let mut j: usize = 0;
            while j < u.content.len()
                invariant
                    j <= u.content.len(),
                    cv == content_views(u.content@),
                    views(parts@) == views(old(parts)@) + if full {
                        transcript_user(cv.take(j as int))
                    } else {
                        summary_user(cv.take(j as int))
                    },
                decreases u.content.len() - j,
            {
                assert(cv.take(j + 1).drop_last() =~= cv.take(j as int));
                assert(cv.take(j + 1).last() == u.content@[j as int]@);
                let ghost before = views(parts@);
                match &u.content[j] {
                    UserContent::Text(t) => {
                        let mut line = "User: ".to_owned();
                        push_str(&mut line, prefix_chars(t.as_str(), if full { 1000 } else { 200 }).as_str());
                        parts.push(line);
                    },
                    UserContent::ToolResult { content, is_error, .. } => {
                        if full {
                            let mut line = if *is_error { "Tool Error".to_owned() } else { "Tool Result".to_owned() };
                            push_str(&mut line, ": ");
                            push_str(&mut line, prefix_chars(content.as_str(), 500).as_str());
                            parts.push(line);
                        }
                    },
                }
                proof {
                    if parts@.len() > before.len() {
                        assert(views(parts@) =~= before.push(parts@.last()@));
                    } else {
                        assert(views(parts@) =~= before);
                    }
                }
                j += 1;
            }
            assert(cv.take(u.content.len() as int) =~= cv);
        },
        Message::Assistant(a) => {
            let ghost bv = block_views(a.content@);
            let mut j: usize = 0;
            while j < a.content.len()
                invariant
                    j <= a.content.len(),
                    bv == block_views(a.content@),
                    views(parts@) == views(old(parts)@) + if full {
                        transcript_blocks(bv.take(j as int))
                    } else {
                        summary_blocks(bv.take(j as int))
                    },
                decreases a.content.len() - j,
            {
                assert(bv.take(j + 1).drop_last() =~= bv.take(j as int));
                assert(bv.take(j + 1).last() == a.content@[j as int]@);
                let ghost before = views(parts@);
                match &a.content[j] {
                    ContentBlock::Text { text } => {
                        let mut line = "Assistant: ".to_owned();
                        push_str(&mut line, prefix_chars(text.as_str(), if full { 1000 } else { 200 }).as_str());
                        parts.push(line);
                    },
                    ContentBlock::ToolUse { name, input, .. } => {
                        if full {
                            let mut line = "Tool Call: ".to_owned();
                            push_str(&mut line, name.as_str());
                            push_str(&mut line, "(");
                            push_str(&mut line, prefix_chars(input.as_str(), 200).as_str());
                            push_str(&mut line, ")");
                            parts.push(line);
                        } else {
                            let mut line = "Tool: ".to_owned();
                            push_str(&mut line, name.as_str());
                            parts.push(line);
                        }
                    },
                    ContentBlock::Thinking { .. } => {},
                }
                proof {
                    if parts@.len() > before.len() {
                        assert(views(parts@) =~= before.push(parts@.last()@));
                    } else {
                        assert(views(parts@) =~= before);
                    }
                }
                j += 1;
            }
            assert(bv.take(a.content.len() as int) =~= bv);
        },
        Message::System(_) => {
            assert(views(parts@) =~= views(old(parts)@) + Seq::<Seq<char>>::empty());
        },
    }
}

/// The transcript (`full`) or summary lines of the first `n` messages.
fn collect_parts(messages: &[Message], n: usize, full: bool) -> (parts: Vec<String>)
    requires
        n <= messages@.len(),
    ensures
        views(parts@) == if full {
            transcript_parts(message_views(messages@.take(n as int)))
        } else {
            summary_parts(message_views(messages@.take(n as int)))
        },
{
    let ghost mv = message_views(messages@);
    let mut parts: Vec<String> = Vec::new();
    let mut i: usize = 0;
    while i < n
        invariant
            i <= n <= messages@.len(),
            mv == message_views(messages@),
            views(parts@) == if full {
                transcript_parts(mv.take(i as int))
            } else {
                summary_parts(mv.take(i as int))
            },
        decreases n - i,
    {
        assert(mv.take(i + 1).drop_last() =~= mv.take(i as int));
        assert(mv.take(i + 1).last() == messages@[i as int]@);
        push_message_parts(&mut parts, &messages[i], full);
        i += 1;
    }
    assert(mv.take(n as int) =~= message_views(messages@.take(n as int)));
    parts
}

/// The fallback summary of the first `n` messages.
fn fallback_of_prefix(messages: &[Message], n: usize) -> (out: String)
    requires
        n <= messages@.len(),
    ensures
        out@ == fallback_text(message_views(messages@.take(n as int))),
{
    let parts = collect_parts(messages, n, false);
    let mut out = "[Context compacted — ".to_owned();
    push_str(&mut out, decimal_string(n as u64).as_str());
    push_str(&mut out, " earlier messages summarized (fallback)]\n");
    push_joined(&mut out, &parts, "\n");
    out
}

/// The transcript the summariser reads: one line per part, see
/// `transcript_parts`.
pub fn build_transcript(messages: &[Message]) -> (out: String)
    ensures
        out@ == join(transcript_parts(message_views(messages@)), "\n"@),
{
    let parts = collect_parts(messages, messages.len(), true);
    assert(messages@.take(messages@.len() as int) =~= messages@);
    let mut out = String::new();
    push_joined(&mut out, &parts, "\n");
    out
}

/// A summary made without the model: a header counting the messages, then
/// one line per part, see `summary_parts`.
pub fn build_fallback_summary(old_messages: &[Message]) -> (out: String)
    ensures
        out@ == fallback_text(message_views(old_messages@)),
{
    assert(old_messages@.take(old_messages@.len() as int) =~= old_messages@);
    fallback_of_prefix(old_messages, old_messages.len())
}

// ─── Compaction ────────────────────────────────────────────────────────────

/// The conversation after compaction: a compact-boundary system message
/// holding `summary`, then the last `keep_recent` messages; conversations of
/// at most `keep_recent` messages stay as they are.
pub open spec fn compacted(ms: Seq<MessageV>, keep_recent: nat, summary: Seq<char>) -> Seq<MessageV> {
    if ms.len() <= keep_recent {
        ms
    } else {
        seq![MessageV::System(summary, SystemMessageType::CompactBoundary)] + ms.skip(
            ms.len() - keep_recent,
        )
    }
}

/// The messages before the last `keep_recent`.
pub open spec fn older(ms: Seq<MessageV>, keep_recent: nat) -> Seq<MessageV> {
    ms.take(ms.len() - keep_recent)
}

fn copy_messages(messages: &[Message], from: usize, out: &mut Vec<Message>)
    requires
        from <= messages@.len(),
    ensures
        message_views(final(out)@) == message_views(old(out)@) + message_views(messages@).skip(from as int),
{
    let mut i = from;
    while i < messages.len()
        invariant
            from <= i <= messages@.len(),
            message_views(out@) == message_views(old(out)@) + message_views(messages@).subrange(
                from as int,
                i as int,
            ),
        decreases messages.len() - i,
    {
        let ghost before = message_views(out@);
        let ghost mv = message_views(messages@);
        out.push(messages[i].duplicate());
        assert(message_views(out@) =~= before.push(messages@[i as int]@));
        assert(mv.subrange(from as int, i + 1) =~= mv.subrange(from as int, i as int).push(
            messages@[i as int]@,
        ));
        assert(message_views(old(out)@) + mv.subrange(from as int, i + 1) =~= (message_views(old(out)@)
            + mv.subrange(from as int, i as int)).push(messages@[i as int]@));
        i += 1;
    }
    assert(message_views(messages@).subrange(from as int, messages@.len() as int) =~= message_views(
        messages@,
    ).skip(from as int));
}

/// The conversation with its older messages replaced by `summary`.
pub fn compacted_with(messages: &[Message], keep_recent: usize, summary: String) -> (out: Vec<Message>)
    ensures
        message_views(out@) == compacted(message_views(messages@), keep_recent as nat, summary@),
{
    let mut out: Vec<Message> = Vec::new();
    if messages.len() <= keep_recent {
        copy_messages(messages, 0, &mut out);
        assert(message_views(messages@).skip(0) =~= message_views(messages@));
    } else {
        out.push(
            Message::System(
                SystemMessage { content: summary, message_type: SystemMessageType::CompactBoundary },
            ),
        );
        assert(message_views(out@) =~= seq![
            MessageV::System(summary@, SystemMessageType::CompactBoundary),
        ]);
        copy_messages(messages, messages.len() - keep_recent, &mut out);
    }
    out
}

/// Compaction without the model: the older messages are replaced by the
/// fallback summary of them.
pub fn compact_messages(messages: &[Message], keep_recent: usize) -> (out: Vec<Message>)
    ensures
        message_views(out@) == compacted(
            message_views(messages@),
            keep_recent as nat,
            fallback_text(older(message_views(messages@), keep_recent as nat)),
        ),
{
    if messages.len() <= keep_recent {
        compacted_with(messages, keep_recent, String::new())
    } else {
        let split_at = messages.len() - keep_recent;
        let summary = fallback_of_prefix(messages, split_at);
        assert(message_views(messages@.take(split_at as int)) =~= older(
            message_views(messages@),
            keep_recent as nat,
        ));
        compacted_with(messages, keep_recent, summary)
    }
}

/// The request sent to the summariser for the older messages: their count,
/// their token estimate and the first 30000 characters of their transcript.
pub fn summary_request(old_messages: &[Message]) -> (out: String)
    ensures
        out@ == "Summarize this conversation ("@ + decimal(old_messages@.len()) + " messages, ~"@
            + decimal(token_estimate(capped(total_chars(message_views(old_messages@)))))
            + " tokens):\n\n"@ + prefix(join(transcript_parts(message_views(old_messages@)), "\n"@), 30000),
{
    let transcript = build_transcript(old_messages);
    let capped_transcript = prefix_chars(transcript.as_str(), 30000);
    let mut out = "Summarize this conversation (".to_owned();
    push_str(&mut out, decimal_string(old_messages.len() as u64).as_str());
    push_str(&mut out, " messages, ~");
    push_str(&mut out, decimal_string(estimate_tokens(old_messages)).as_str());
    push_str(&mut out, " tokens):\n\n");
    push_str(&mut out, capped_transcript.as_str());
    out
}

/// The summary to keep for the older messages, given the summariser's reply
/// (`None` when the call failed): the trimmed reply under a header, or the
/// fallback summary when there is no reply or it is blank.
pub fn summary_from_reply(old_messages: &[Message], reply: Option<&str>) -> (out: String)
    ensures
        out@ == match reply {
            Some(s) => if trim(s@).len() > 0 {
                "[Context compacted — "@ + decimal(old_messages@.len())
                    + " earlier messages summarized by AI]\n\n"@ + trim(s@)
            } else {
                fallback_text(message_views(old_messages@))
            },
            None => fallback_text(message_views(old_messages@)),
        },
{
    match reply {
        Some(s) => {
            let t = trim_str(s);
            if !t.as_str().is_empty() {
                let mut out = "[Context compacted — ".to_owned();
                push_str(&mut out, decimal_string(old_messages.len() as u64).as_str());
                push_str(&mut out, " earlier messages summarized by AI]\n\n");
                push_str(&mut out, t.as_str());
                out
            } else {
                build_fallback_summary(old_messages)
            }
        },
        None => build_fallback_summary(old_messages),
    }
}

/// The text of the summariser's reply: its text blocks concatenated, or what
/// was streamed when the blocks hold no text.
pub open spec fn reply_text(bs: Seq<BlockV>) -> Seq<char>
    decreases bs.len(),
{
    if bs.len() == 0 {
        seq![]
    } else {
        reply_text(bs.drop_last()) + match bs.last() {
            BlockV::Text(t) => t,
            _ => seq![],
        }
    }
}

pub fn extract_summary(blocks: &Vec<ContentBlock>, streamed: String) -> (out: String)
    ensures
        out@ == if reply_text(block_views(blocks@)).len() == 0 && streamed@.len() > 0 {
            streamed@
        } else {
            reply_text(block_views(blocks@))
        },
{
    let ghost bv = block_views(blocks@);
    let mut summary = String::new();
    let mut i: usize = 0;
    while i < blocks.len()
        invariant
            i <= blocks.len(),
            bv == block_views(blocks@),
            summary@ == reply_text(bv.take(i as int)),
        decreases blocks.len() - i,
    {
        assert(bv.take(i + 1).drop_last() =~= bv.take(i as int));
        assert(bv.take(i + 1).last() == blocks@[i as int]@);
        match &blocks[i] {
            ContentBlock::Text { text } => push_str(&mut summary, text.as_str()),
            _ => {
                assert(summary@ + Seq::<char>::empty() =~= summary@);
            },
        }
        i += 1;
    }
    assert(bv.take(blocks.len() as int) =~= bv);
    if summary.as_str().is_empty() && !streamed.as_str().is_empty() {
        streamed
    } else {
        summary
    }
}


// ─── Laws ──────────────────────────────────────────────────────────────────

/// Compaction keeps the most recent messages: a conversation longer than
/// `keep_recent` becomes one compact-boundary message holding the summary,
/// followed by exactly its last `keep_recent` messages in order, and those
/// together with the older messages (the ones summarised) make up the whole
/// conversation again; a shorter one is kept as it is.
pub proof fn law_compaction_keeps_recent(ms: Seq<MessageV>, keep_recent: nat, summary: Seq<char>)
    ensures
        ms.len() > keep_recent ==> {
            let out = compacted(ms, keep_recent, summary);
            &&& out.len() == keep_recent + 1
            &&& out[0] == MessageV::System(summary, SystemMessageType::CompactBoundary)
            &&& forall|j: int| 0 <= j < keep_recent ==> #[trigger] out[j + 1] == ms[ms.len() - keep_recent + j]
            &&& older(ms, keep_recent).len() == ms.len() - keep_recent
            &&& older(ms, keep_recent) + out.drop_first() == ms
        },
        ms.len() <= keep_recent ==> compacted(ms, keep_recent, summary) == ms,
{
    if ms.len() > keep_recent {
        let out = compacted(ms, keep_recent, summary);
        assert(out.drop_first() =~= ms.skip(ms.len() - keep_recent));
        assert(older(ms, keep_recent) + out.drop_first() =~= ms);
    }
}

} // verus!
