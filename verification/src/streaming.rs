//! Streaming replies of the chat-completions API: the server-sent-event
//! lines that carry JSON chunks, and the accumulation of chunks into a
//! complete reply.

use vstd::prelude::*;
use crate::api_errors::ApiError;
use crate::messages::{usage_of, ContentBlock, BlockV, ToolCall, Usage, UsageResponse, block_views};
use crate::text::{
    decimal, decimal_string, owned, push_str, split_char, split_on, starts_with, str_eq,
    str_starts_with, string_of, chars_of, trim, trim_str, views,
};

verus! {

// ─── Response chunks ───────────────────────────────────────────────────────

pub struct FunctionCallDelta {
    pub name: Option<String>,
    pub arguments: Option<String>,
}

/// A fragment of the tool call at position `index`.
pub struct ToolCallDelta {
    pub index: usize,
    pub id: Option<String>,
    pub call_type: Option<String>,
    pub function: Option<FunctionCallDelta>,
}

pub struct ResponseDelta {
    pub role: Option<String>,
    pub content: Option<String>,
    pub tool_calls: Option<Vec<ToolCallDelta>>,
    pub reasoning: Option<String>,
}

pub struct ResponseMessage {
    pub role: Option<String>,
    pub content: Option<String>,
    pub tool_calls: Option<Vec<ToolCall>>,
    pub reasoning: Option<String>,
}

pub struct Choice {
    pub index: usize,
    pub message: Option<ResponseMessage>,
    pub delta: Option<ResponseDelta>,
    pub finish_reason: Option<String>,
}

/// One chunk of a streamed reply (or a whole non-streamed reply).
pub struct ChatCompletionResponse {
    pub id: String,
    pub object: String,
    pub created: u64,
    pub model: String,
    pub choices: Vec<Choice>,
    pub usage: Option<UsageResponse>,
}

// ─── Accumulation ──────────────────────────────────────────────────────────

/// A tool call being assembled from fragments.
pub struct ToolCallAccum {
    pub id: String,
    pub name: String,
    pub arguments: String,
}

/// A reply being assembled from chunks.
pub struct StreamAccumulator {
    pub text: String,
    pub tool_calls: Vec<ToolCallAccum>,
    pub reasoning: String,
    pub finish_reason: Option<String>,
    pub usage: Usage,
    pub model: String,
    pub message_id: String,
}

/// A tool call under assembly as values: id, name, arguments so far.
pub type CallAcc = (Seq<char>, Seq<char>, Seq<char>);

/// The accumulator as values.
pub struct AccView {
    pub text: Seq<char>,
    pub reasoning: Seq<char>,
    pub finish: Option<Seq<char>>,
    pub usage: Usage,
    pub model: Seq<char>,
    pub id: Seq<char>,
    pub calls: Seq<CallAcc>,
}

pub open spec fn accum_views(cs: Seq<ToolCallAccum>) -> Seq<CallAcc> {
    cs.map_values(|c: ToolCallAccum| (c.id@, c.name@, c.arguments@))
}

pub open spec fn opt_seq(o: Option<String>) -> Option<Seq<char>> {
    match o {
        Some(s) => Some(s@),
        None => None,
    }
}

pub open spec fn text_of(o: Option<String>) -> Seq<char> {
    match o {
        Some(s) => s@,
        None => seq![],
    }
}

impl View for StreamAccumulator {
    type V = AccView;

    open spec fn view(&self) -> AccView {
        AccView {
            text: self.text@,
            reasoning: self.reasoning@,
            finish: opt_seq(self.finish_reason),
            usage: self.usage,
            model: self.model@,
            id: self.message_id@,
            calls: accum_views(self.tool_calls@),
        }
    }
}

/// `n` calls with nothing assembled yet.
pub open spec fn empties(n: nat) -> Seq<CallAcc> {
    Seq::new(n, |k: int| (Seq::<char>::empty(), Seq::<char>::empty(), Seq::<char>::empty()))
}

/// `calls` grown with empty calls to hold position `i`.
pub open spec fn padded(calls: Seq<CallAcc>, i: nat) -> Seq<CallAcc> {
    if i < calls.len() {
        calls
    } else {
        calls + empties((i + 1 - calls.len()) as nat)
    }
}

/// A fragment applied to the calls: the id and name replace, the argument
/// text extends.
pub open spec fn apply_call_delta(calls: Seq<CallAcc>, d: ToolCallDelta) -> Seq<CallAcc> {
    let p = padded(calls, d.index as nat);
    let tc = p[d.index as int];
    let id = match d.id {
        Some(s) => s@,
        None => tc.0,
    };
    let (name, args) = match d.function {
        Some(f) => (
            match f.name {
                Some(n) => n@,
                None => tc.1,
            },
            tc.2 + text_of(f.arguments),
        ),
        None => (tc.1, tc.2),
    };
    p.update(d.index as int, (id, name, args))
}

pub open spec fn apply_call_deltas(calls: Seq<CallAcc>, ds: Seq<ToolCallDelta>) -> Seq<CallAcc>
    decreases ds.len(),
{
    if ds.len() == 0 {
        calls
    } else {
        apply_call_delta(apply_call_deltas(calls, ds.drop_last()), ds.last())
    }
}

pub open spec fn message_calls(ts: Seq<ToolCall>) -> Seq<CallAcc> {
    ts.map_values(|t: ToolCall| (t.id@, t.function.name@, t.function.arguments@))
}

/// A choice applied to the accumulator: its finish reason, then its delta,
/// then its complete message.
pub open spec fn apply_choice(a: AccView, c: Choice) -> AccView {
    let a1 = match c.finish_reason {
        Some(r) => AccView { finish: Some(r@), ..a },
        None => a,
    };
    let a2 = match c.delta {
        Some(d) => AccView {
            text: a1.text + text_of(d.content),
            reasoning: a1.reasoning + text_of(d.reasoning),
            calls: match d.tool_calls {
                Some(ds) => apply_call_deltas(a1.calls, ds@),
                None => a1.calls,
            },
            ..a1
        },
        None => a1,
    };
    match c.message {
        Some(m) => AccView {
            text: a2.text + text_of(m.content),
            reasoning: a2.reasoning + text_of(m.reasoning),
            calls: match m.tool_calls {
                Some(ts) => a2.calls + message_calls(ts@),
                None => a2.calls,
            },
            ..a2
        },
        None => a2,
    }
}

pub open spec fn apply_choices(a: AccView, cs: Seq<Choice>) -> AccView
    decreases cs.len(),
{
    if cs.len() == 0 {
        a
    } else {
        apply_choice(apply_choices(a, cs.drop_last()), cs.last())
    }
}

/// A chunk applied to the accumulator: the first chunk names the reply and
/// its model, a usage report replaces the usage, and each choice applies.
pub open spec fn apply_chunk(a: AccView, ch: ChatCompletionResponse) -> AccView {
    let a1 = if a.id.len() == 0 { AccView { id: ch.id@, model: ch.model@, ..a } } else { a };
    let a2 = match ch.usage {
        Some(u) => AccView { usage: usage_of(u), ..a1 },
        None => a1,
    };
    apply_choices(a2, ch.choices@)
}

/// Every tool-call fragment of the chunk has a position below `usize::MAX`.
pub open spec fn chunk_positions_fit(ch: ChatCompletionResponse) -> bool {
    forall|i: int| 0 <= i < ch.choices@.len() ==> match (#[trigger] ch.choices@[i]).delta {
        Some(d) => match d.tool_calls {
            Some(ds) => forall|j: int| 0 <= j < ds@.len() ==> (#[trigger] ds@[j]).index < usize::MAX,
            None => true,
        },
        None => true,
    }
}

fn opt_clone(o: &Option<String>) -> (r: Option<String>)
    ensures
        r == *o,
{
    match o {
        Some(s) => Some(s.clone()),
        None => None,
    }
}

impl StreamAccumulator {
    pub fn new() -> (a: StreamAccumulator)
        ensures
            a@ == (AccView {
                text: seq![],
                reasoning: seq![],
                finish: None,
                usage: usage_of(UsageResponse { prompt_tokens: 0, completion_tokens: 0, total_tokens: 0 }),
                model: seq![],
                id: seq![],
                calls: seq![],
            }),
    {
        let a = StreamAccumulator {
            text: String::new(),
            tool_calls: Vec::new(),
            reasoning: String::new(),
            finish_reason: None,
            usage: Usage {
                input_tokens: 0,
                output_tokens: 0,
                cache_creation_input_tokens: None,
                cache_read_input_tokens: None,
            },
            model: String::new(),
            message_id: String::new(),
        };
        assert(accum_views(a.tool_calls@) =~= Seq::<CallAcc>::empty());
        a
    }

    fn apply_delta_call(&mut self, d: &ToolCallDelta)
        requires
            d.index < usize::MAX,
        ensures
            final(self)@ == (AccView { calls: apply_call_delta(old(self)@.calls, *d), ..old(self)@ }),
    {
        let ghost before = self@.calls;
        if self.tool_calls.len() <= d.index {
            while self.tool_calls.len() <= d.index
                invariant
                    d.index < usize::MAX,
                    self@ == (AccView { calls: self@.calls, ..old(self)@ }),
                    before == old(self)@.calls,
                    before.len() <= self@.calls.len() <= d.index + 1,
                    self@.calls == before + empties((self@.calls.len() - before.len()) as nat),
                decreases d.index + 1 - self.tool_calls@.len(),
            {
                let ghost k = (self@.calls.len() - before.len()) as nat;
                self.tool_calls.push(ToolCallAccum { id: String::new(), name: String::new(), arguments: String::new() });
                assert(accum_views(self.tool_calls@) =~= accum_views(self.tool_calls@.drop_last()).push(
                    (Seq::<char>::empty(), Seq::<char>::empty(), Seq::<char>::empty()),
                ));
                assert(empties(k + 1) =~= empties(k).push((Seq::<char>::empty(), Seq::<char>::empty(), Seq::<char>::empty())));
                assert(before + empties(k + 1) =~= (before + empties(k)).push(
                    (Seq::<char>::empty(), Seq::<char>::empty(), Seq::<char>::empty()),
                ));
            }
        }
        assert(self@.calls =~= padded(before, d.index as nat));
        let i = d.index;
        let old_tc = &self.tool_calls[i];
        let id = match &d.id {
            Some(s) => s.clone(),
            None => old_tc.id.clone(),
        };
        let (name, arguments) = match &d.function {
            Some(f) => {
                let name = match &f.name {
                    Some(n) => n.clone(),
                    None => old_tc.name.clone(),
                };
                let mut args = old_tc.arguments.clone();
                match &f.arguments {
                    Some(a) => push_str(&mut args, a.as_str()),
                    None => {},
                }
                (name, args)
            },
            None => (old_tc.name.clone(), old_tc.arguments.clone()),
        };
        self.tool_calls.set(i, ToolCallAccum { id, name, arguments });
        assert(accum_views(self.tool_calls@) =~= apply_call_delta(before, *d));
    }

    fn apply_choice_exec(&mut self, c: &Choice)
        requires
            match c.delta {
                Some(d) => match d.tool_calls {
                    Some(ds) => forall|j: int| 0 <= j < ds@.len() ==> (#[trigger] ds@[j]).index < usize::MAX,
                    None => true,
                },
                None => true,
            },
        ensures
            final(self)@ == apply_choice(old(self)@, *c),
    {
        match &c.finish_reason {
            Some(r) => {
                self.finish_reason = Some(r.clone());
            },
            None => {},
        }
        let ghost a1 = self@;
        match &c.delta {
            Some(d) => {
                match &d.content {
                    Some(t) => push_str(&mut self.text, t.as_str()),
                    None => {},
                }
                match &d.reasoning {
                    Some(t) => push_str(&mut self.reasoning, t.as_str()),
                    None => {},
                }
                match &d.tool_calls {
                    Some(ds) => {
                        let ghost mid = self@;
                        let mut j: usize = 0;
                        assert(ds@.take(0) =~= Seq::<ToolCallDelta>::empty());
                        while j < ds.len()
                            invariant
                                j <= ds@.len(),
                                forall|k: int| 0 <= k < ds@.len() ==> (#[trigger] ds@[k]).index < usize::MAX,
                                self@ == (AccView { calls: apply_call_deltas(a1.calls, ds@.take(j as int)), ..mid }),
                                mid.calls == a1.calls,
                            decreases ds@.len() - j,
                        {
                            assert(ds@.take(j + 1).drop_last() =~= ds@.take(j as int));
                            assert(ds@.take(j + 1).last() == ds@[j as int]);
                            self.apply_delta_call(&ds[j]);
                            j += 1;
                        }
                        assert(ds@.take(ds@.len() as int) =~= ds@);
                    },
                    None => {},
                }
            },
            None => {},
        }
        match &c.message {
            Some(m) => {
                match &m.content {
                    Some(t) => push_str(&mut self.text, t.as_str()),
                    None => {},
                }
                match &m.reasoning {
                    Some(t) => push_str(&mut self.reasoning, t.as_str()),
                    None => {},
                }
                match &m.tool_calls {
                    Some(ts) => {
                        let ghost mid = self@;
                        let mut j: usize = 0;
                        while j < ts.len()
                            invariant
                                j <= ts@.len(),
                                self@ == (AccView { calls: mid.calls + message_calls(ts@.take(j as int)), ..mid }),
                            decreases ts@.len() - j,
                        {
                            let t = &ts[j];
                            let ghost prev = self.tool_calls@;
                            self.tool_calls.push(
                                ToolCallAccum {
                                    id: t.id.clone(),
                                    name: t.function.name.clone(),
                                    arguments: t.function.arguments.clone(),
                                },
                            );
                            proof {
                                assert(accum_views(self.tool_calls@) =~= accum_views(prev).push(
                                    (t.id@, t.function.name@, t.function.arguments@),
                                ));
                                assert(message_calls(ts@.take(j + 1)) =~= message_calls(ts@.take(j as int)).push(
                                    (t.id@, t.function.name@, t.function.arguments@),
                                ));
                                assert(mid.calls + message_calls(ts@.take(j + 1)) =~= (mid.calls + message_calls(
                                    ts@.take(j as int),
                                )).push((t.id@, t.function.name@, t.function.arguments@)));
                            }
                            j += 1;
                        }
                        assert(ts@.take(ts@.len() as int) =~= ts@);
                    },
                    None => {},
                }
            },
            None => {},
        }
    }

    /// Adds a chunk to the reply (see `apply_chunk`).
    pub fn process_chunk(&mut self, chunk: &ChatCompletionResponse)
        requires
            chunk_positions_fit(*chunk),
        ensures
            final(self)@ == apply_chunk(old(self)@, *chunk),
    {
        if self.message_id.as_str().is_empty() {
            self.message_id = chunk.id.clone();
            self.model = chunk.model.clone();
        }
        match &chunk.usage {
            Some(u) => {
                self.usage = Usage::from(u);
            },
            None => {},
        }
        let ghost a2 = self@;
        let mut i: usize = 0;
        assert(chunk.choices@.take(0) =~= Seq::<Choice>::empty());
        while i < chunk.choices.len()
            invariant
                i <= chunk.choices@.len(),
                chunk_positions_fit(*chunk),
                self@ == apply_choices(a2, chunk.choices@.take(i as int)),
            decreases chunk.choices@.len() - i,
        {
            assert(chunk.choices@.take(i + 1).drop_last() =~= chunk.choices@.take(i as int));
            assert(chunk.choices@.take(i + 1).last() == chunk.choices@[i as int]);
            let c = &chunk.choices[i];
            assert(*c == chunk.choices@[i as int]);
            self.apply_choice_exec(c);
            i += 1;
        }
        assert(chunk.choices@.take(chunk.choices@.len() as int) =~= chunk.choices@);
    }
}

// ─── A stream of fragments ─────────────────────────────────────────────────

/// Chunks applied one after another.
pub open spec fn apply_chunks(a: AccView, chs: Seq<ChatCompletionResponse>) -> AccView
    decreases chs.len(),
{
    if chs.len() == 0 {
        a
    } else {
        apply_chunk(apply_chunks(a, chs.drop_last()), chs.last())
    }
}

/// A chunk whose one choice carries the fragment `d` and no complete
/// message.
pub open spec fn single_fragment_chunk(ch: ChatCompletionResponse, d: ToolCallDelta) -> bool {
    &&& ch.choices@.len() == 1
    &&& ch.choices@[0].message is None
    &&& match ch.choices@[0].delta {
        Some(delta) => match delta.tool_calls {
            Some(ds) => ds@ == seq![d],
            None => false,
        },
        None => false,
    }
}

/// The argument text a fragment adds.
pub open spec fn fragment_args(d: ToolCallDelta) -> Seq<char> {
    match d.function {
        Some(f) => text_of(f.arguments),
        None => seq![],
    }
}

/// The fragments' argument texts joined in order.
pub open spec fn joined_args(ds: Seq<ToolCallDelta>) -> Seq<char>
    decreases ds.len(),
{
    if ds.len() == 0 {
        seq![]
    } else {
        joined_args(ds.drop_last()) + fragment_args(ds.last())
    }
}

/// The last id a fragment gave, empty when none did.
pub open spec fn last_id(ds: Seq<ToolCallDelta>) -> Seq<char>
    decreases ds.len(),
{
    if ds.len() == 0 {
        seq![]
    } else {
        match ds.last().id {
            Some(s) => s@,
            None => last_id(ds.drop_last()),
        }
    }
}

/// The last name a fragment gave, empty when none did.
pub open spec fn last_name(ds: Seq<ToolCallDelta>) -> Seq<char>
    decreases ds.len(),
{
    if ds.len() == 0 {
        seq![]
    } else {
        match ds.last().function {
            Some(f) => match f.name {
                Some(n) => n@,
                None => last_name(ds.drop_last()),
            },
            None => last_name(ds.drop_last()),
        }
    }
}

proof fn lemma_fragments_at(ds: Seq<ToolCallDelta>, i: usize)
    requires
        ds.len() > 0,
        forall|j: int| 0 <= j < ds.len() ==> (#[trigger] ds[j]).index == i,
    ensures
        apply_call_deltas(seq![], ds).len() == i + 1,
        forall|k: int| 0 <= k < i ==> #[trigger] apply_call_deltas(seq![], ds)[k] == (
            Seq::<char>::empty(),
            Seq::<char>::empty(),
            Seq::<char>::empty(),
        ),
        apply_call_deltas(seq![], ds)[i as int] == (last_id(ds), last_name(ds), joined_args(ds)),
    decreases ds.len(),
{
    let prev = ds.drop_last();
    let d = ds.last();
    assert(d.index == i);
    if prev.len() == 0 {
        assert(apply_call_deltas(seq![], prev) == Seq::<CallAcc>::empty());
        assert(last_id(prev) == Seq::<char>::empty());
        assert(last_name(prev) == Seq::<char>::empty());
        assert(joined_args(prev) == Seq::<char>::empty());
        assert(padded(seq![], i as nat) =~= empties((i + 1) as nat));
    } else {
        assert forall|j: int| 0 <= j < prev.len() implies (#[trigger] prev[j]).index == i by {
            assert(prev[j] == ds[j]);
        }
        lemma_fragments_at(prev, i);
        assert(padded(apply_call_deltas(seq![], prev), i as nat) == apply_call_deltas(seq![], prev));
    }
}

proof fn lemma_chunks_calls(a: AccView, chs: Seq<ChatCompletionResponse>, ds: Seq<ToolCallDelta>)
    requires
        chs.len() == ds.len(),
        forall|j: int| 0 <= j < chs.len() ==> single_fragment_chunk(#[trigger] chs[j], ds[j]),
    ensures
        apply_chunks(a, chs).calls == apply_call_deltas(a.calls, ds),
    decreases chs.len(),
{
    if chs.len() > 0 {
        let prev = chs.drop_last();
        assert forall|j: int| 0 <= j < prev.len() implies single_fragment_chunk(
            #[trigger] prev[j],
            ds.drop_last()[j],
        ) by {
            assert(prev[j] == chs[j]);
            assert(ds.drop_last()[j] == ds[j]);
        }
        lemma_chunks_calls(a, prev, ds.drop_last());
        let b = apply_chunks(a, prev);
        let ch = chs.last();
        assert(single_fragment_chunk(chs[chs.len() - 1], ds[ds.len() - 1]));
        let c = ch.choices@[0];
        let b1 = if b.id.len() == 0 { AccView { id: ch.id@, model: ch.model@, ..b } } else { b };
        let b2 = match ch.usage {
            Some(u) => AccView { usage: usage_of(u), ..b1 },
            None => b1,
        };
        assert(ch.choices@.drop_last() =~= Seq::<Choice>::empty());
        assert(apply_choices(b2, ch.choices@.drop_last()) == b2);
        assert(apply_choices(b2, ch.choices@) == apply_choice(b2, c));
        let ds1 = c.delta->Some_0.tool_calls->Some_0@;
        assert(ds1 == seq![ds.last()]);
        assert(ds1.drop_last() =~= Seq::<ToolCallDelta>::empty());
        assert(apply_call_deltas(b.calls, ds1.drop_last()) == b.calls);
        assert(apply_call_deltas(b.calls, ds1) == apply_call_delta(b.calls, ds.last()));
    }
}

/// A tool call streamed in fragments: feeding a reply that has no calls yet
/// the chunks one by one, each carrying one fragment of the call at
/// position `i`, leaves `i + 1` calls, those before `i` still empty, and
/// call `i` with the last id and the last name any fragment gave (empty
/// where none did) and the fragments' argument texts joined in order.
pub proof fn law_call_fragments_accumulate(
    a: AccView,
    chs: Seq<ChatCompletionResponse>,
    ds: Seq<ToolCallDelta>,
    i: usize,
)
    requires
        a.calls.len() == 0,
        chs.len() == ds.len(),
        chs.len() > 0,
        forall|j: int| 0 <= j < chs.len() ==> single_fragment_chunk(#[trigger] chs[j], ds[j]),
        forall|j: int| 0 <= j < ds.len() ==> (#[trigger] ds[j]).index == i,
    ensures
        apply_chunks(a, chs).calls.len() == i + 1,
        forall|k: int| 0 <= k < i ==> #[trigger] apply_chunks(a, chs).calls[k] == (
            Seq::<char>::empty(),
            Seq::<char>::empty(),
            Seq::<char>::empty(),
        ),
        apply_chunks(a, chs).calls[i as int] == (last_id(ds), last_name(ds), joined_args(ds)),
{
    lemma_chunks_calls(a, chs, ds);
    assert(a.calls =~= seq![]);
    lemma_fragments_at(ds, i);
}

// ─── Completing the reply ──────────────────────────────────────────────────

/// Names the compact JSON text that `serde_json` prints for the value it
/// parses from `s`; `None` when `s` is not a JSON value.
pub uninterp spec fn json_canonical(s: Seq<char>) -> Option<Seq<char>>;

/// Parses `text` with `serde_json::from_str` as a JSON value and prints it
/// back with `to_string`. The contract only ties the result to the name
/// `json_canonical`; what JSON parsing accepts is not restated.
#[verifier::external_body]
fn canonical_json(text: &str) -> (r: Option<String>)
    ensures
        opt_seq(r) == json_canonical(text@),
{
    match serde_json::from_str::<serde_json::Value>(text) {
        Ok(v) => Some(v.to_string()),
        Err(_) => None,
    }
}

/// The JSON input of an assembled tool call: `{}` when its argument text is
/// blank or not JSON, else the argument text as `serde_json` prints it.
pub open spec fn call_input(args: Seq<char>, parsed: Option<Seq<char>>) -> Seq<char> {
    if trim(args).len() == 0 {
        "{}"@
    } else {
        match parsed {
            Some(j) => j,
            None => "{}"@,
        }
    }
}

/// The block of an assembled tool call, given what parsing its arguments
/// gave (`parsed`).
pub fn tool_use_block(tc: ToolCallAccum, parsed: Option<String>) -> (b: ContentBlock)
    ensures
        b@ == BlockV::ToolUse(tc.id@, tc.name@, call_input(tc.arguments@, opt_seq(parsed))),
{
    let blank = trim_str(tc.arguments.as_str()).as_str().is_empty();
    let input = if blank {
        "{}".to_owned()
    } else {
        match parsed {
            Some(j) => j,
            None => "{}".to_owned(),
        }
    };
    ContentBlock::ToolUse { id: tc.id, name: tc.name, input }
}

pub open spec fn call_blocks(calls: Seq<CallAcc>) -> Seq<BlockV> {
    calls.map_values(|c: CallAcc| BlockV::ToolUse(c.0, c.1, call_input(c.2, json_canonical(c.2))))
}

/// The blocks of a complete reply: its reasoning as thinking, its text, then
/// its tool calls, leaving out empty text.
pub open spec fn reply_blocks(a: AccView) -> Seq<BlockV> {
    (if a.reasoning.len() > 0 { seq![BlockV::Thinking(a.reasoning)] } else { seq![] })
        + (if a.text.len() > 0 { seq![BlockV::Text(a.text)] } else { seq![] })
        + call_blocks(a.calls)
}

impl StreamAccumulator {
    /// The content blocks of the complete reply (see `reply_blocks`).
    pub fn into_content_blocks(self) -> (blocks: Vec<ContentBlock>)
        ensures
            block_views(blocks@) == reply_blocks(self@),
    {
        let ghost a = self@;
        let mut blocks: Vec<ContentBlock> = Vec::new();
        if !self.reasoning.as_str().is_empty() {
            blocks.push(ContentBlock::Thinking { thinking: self.reasoning });
        }
        if !self.text.as_str().is_empty() {
            blocks.push(ContentBlock::Text { text: self.text });
        }
        let ghost head = block_views(blocks@);
        assert(head =~= (if a.reasoning.len() > 0 { seq![BlockV::Thinking(a.reasoning)] } else { seq![] })
            + (if a.text.len() > 0 { seq![BlockV::Text(a.text)] } else { seq![] }));
        let calls = self.tool_calls;
        let ghost cv = accum_views(calls@);
        let mut i: usize = 0;
        while i < calls.len()
            invariant
                i <= calls@.len(),
                cv == accum_views(calls@),
                cv == a.calls,
                block_views(blocks@) == head + call_blocks(cv.take(i as int)),
            decreases calls@.len() - i,
        {
            let tc = &calls[i];
            let parsed = if trim_str(tc.arguments.as_str()).as_str().is_empty() {
                None
            } else {
                canonical_json(tc.arguments.as_str())
            };
            let b = tool_use_block(
                ToolCallAccum { id: tc.id.clone(), name: tc.name.clone(), arguments: tc.arguments.clone() },
                parsed,
            );
            blocks.push(b);
            proof {
                assert(block_views(blocks@) =~= block_views(blocks@.drop_last()).push(b@));
                assert(cv.take(i + 1) =~= cv.take(i as int).push(cv[i as int]));
                assert(call_blocks(cv.take(i + 1)) =~= call_blocks(cv.take(i as int)).push(
                    BlockV::ToolUse(tc.id@, tc.name@, call_input(tc.arguments@, json_canonical(tc.arguments@))),
                ));
                assert(head + call_blocks(cv.take(i + 1)) =~= (head + call_blocks(cv.take(i as int))).push(b@));
            }
            i += 1;
        }
        assert(cv.take(calls@.len() as int) =~= cv);
        blocks
    }
}

// ─── Server-sent events ────────────────────────────────────────────────────

/// `s` without its trailing `\r` characters.
pub open spec fn trim_cr(s: Seq<char>) -> Seq<char>
    decreases s.len(),
{
    if s.len() > 0 && s.last() == '\r' {
        trim_cr(s.drop_last())
    } else {
        s
    }
}

/// The JSON payload of one event line: after `data: `, or the whole line
/// when it starts with `{`; blank lines, comments (`:`), other lines and the
/// `[DONE]` marker carry none.
pub open spec fn line_payload(line: Seq<char>) -> Option<Seq<char>> {
    let l = trim_cr(line);
    if l.len() == 0 || starts_with(l, ":"@) {
        None
    } else {
        let data = if starts_with(l, "data: "@) {
            Some(l.skip(6))
        } else if starts_with(l, "{"@) {
            Some(l)
        } else {
            None
        };
        match data {
            Some(d) => if trim(d) == "[DONE]"@ { None } else { Some(d) },
            None => None,
        }
    }
}

/// The payloads of the given lines, in order.
pub open spec fn payloads(lines: Seq<Seq<char>>) -> Seq<Seq<char>>
    decreases lines.len(),
{
    if lines.len() == 0 {
        seq![]
    } else {
        let r = payloads(lines.drop_last());
        match line_payload(lines.last()) {
            Some(p) => r.push(p),
            None => r,
        }
    }
}

fn payload_of(line: &str) -> (r: Option<String>)
    ensures
        opt_seq(r) == line_payload(line@),
    decreases line@.len(),
{
    let v = chars_of(line);
    let mut end = v.len();
    assert(v@.take(end as int) =~= v@);
    while end > 0 && v[end - 1] == '\r'
        invariant
            end <= v@.len(),
            v@ == line@,
            trim_cr(line@) == trim_cr(v@.take(end as int)),
        decreases end,
    {
        assert(v@.take(end as int).drop_last() =~= v@.take(end - 1));
        end -= 1;
    }
    assert(trim_cr(v@.take(end as int)) == v@.take(end as int));
    let l = string_of(&v, 0, end);
    assert(l@ =~= trim_cr(line@));
    let ls = l.as_str();
    if ls.is_empty() || str_starts_with(ls, ":") {
        return None;
    }
    let data = if str_starts_with(ls, "data: ") {
        proof {
            reveal_strlit("data: ");
        }
        let lv = chars_of(ls);
        let d = string_of(&lv, 6, lv.len());
        assert(d@ =~= l@.skip(6));
        Some(d)
    } else if str_starts_with(ls, "{") {
        Some(l.clone())
    } else {
        None
    };
    match data {
        Some(d) => {
            if str_eq(trim_str(d.as_str()).as_str(), "[DONE]") {
                None
            } else {
                Some(d)
            }
        },
        None => None,
    }
}

/// Splits a buffer of event text into the payloads of its complete lines
/// and the incomplete rest.
pub fn take_payloads(buffer: &str) -> (r: (Vec<String>, String))
    ensures
        views(r.0@) == payloads(split_char(buffer@, '\n').drop_last()),
        r.1@ == split_char(buffer@, '\n').last(),
{
    let parts = split_on(buffer, '\n');
    let ghost pv = views(parts@);
    proof {
        crate::text::lemma_split_char_nonempty(buffer@, '\n');
    }
    let n = parts.len() - 1;
    let mut out: Vec<String> = Vec::new();
    let mut i: usize = 0;
    while i < n
        invariant
            i <= n,
            n + 1 == parts@.len(),
            pv == views(parts@),
            pv == split_char(buffer@, '\n'),
            views(out@) == payloads(pv.take(i as int)),
        decreases n - i,
    {
        assert(pv.take(i + 1).drop_last() =~= pv.take(i as int));
        assert(pv.take(i + 1).last() == parts@[i as int]@);
        match payload_of(parts[i].as_str()) {
            Some(p) => {
                out.push(p);
                assert(views(out@) =~= views(out@.drop_last()).push(out@.last()@));
            },
            None => {},
        }
        i += 1;
    }
    assert(pv.take(n as int) =~= pv.drop_last());
    (out, parts[n].clone())
}

/// The error a stream reports in place of a chunk: the code (or, without
/// one, the type; else `unknown`) and the message (else `Unknown error`).
pub fn stream_error(message: Option<&str>, code: Option<u64>, error_type: Option<&str>) -> (e: ApiError)
    ensures
        e matches ApiError::ApiResponse { error_type: t, message: m } && m@ == match message {
            Some(s) => s@,
            None => "Unknown error"@,
        } && t@ == match code {
            Some(c) => decimal(c as nat),
            None => match error_type {
                Some(s) => s@,
                None => "unknown"@,
            },
        },
{
    let m = match message {
        Some(s) => s.to_owned(),
        None => "Unknown error".to_owned(),
    };
    let t = match code {
        Some(c) => decimal_string(c),
        None => match error_type {
            Some(s) => s.to_owned(),
            None => "unknown".to_owned(),
        },
    };
    ApiError::ApiResponse { error_type: t, message: m }
}

// ─── Around a request ───────────────────────────────────────────────────────

/// The stop reason a reply ends with: its `finish_reason`, else the end of
/// the turn.
pub open spec fn reply_stop(finish: Option<Seq<char>>) -> crate::messages::StopReason {
    match finish {
        Some(f) => crate::messages::stop_reason_of(f),
        None => crate::messages::StopReason::EndTurn,
    }
}

/// The last choice of a chunk that gives a finish reason decides the
/// reply's stop reason: a reply cut off at the token limit (`length`) stops
/// for `MaxTokens`, and only such a reply does.
pub proof fn law_length_finish_is_max_tokens(a: AccView, ch: ChatCompletionResponse)
    requires
        ch.choices@.len() > 0,
        ch.choices@.last().finish_reason is Some,
    ensures
        ({
            let f = ch.choices@.last().finish_reason->Some_0@;
            &&& apply_chunk(a, ch).finish == Some(f)
            &&& (reply_stop(apply_chunk(a, ch).finish) == crate::messages::StopReason::MaxTokens) <==> (f
                == "length"@)
        }),
{
    crate::messages::law_finish_reasons(ch.choices@.last().finish_reason->Some_0@);
}

impl StreamAccumulator {
    /// The stop reason of the accumulated reply.
    pub fn stop_reason(&self) -> (r: crate::messages::StopReason)
        ensures
            r == reply_stop(self@.finish),
    {
        match &self.finish_reason {
            Some(f) => crate::messages::StopReason::from_api(f.as_str()),
            None => crate::messages::StopReason::EndTurn,
        }
    }
}

/// The messages of a request: the system prompt first.
pub fn request_messages(system_prompt: &str, messages: Vec<crate::messages::ChatMessage>) -> (out: Vec<crate::messages::ChatMessage>)
    ensures
        crate::messages::chat_views(out@) == seq![crate::messages::plain_chat("system"@, system_prompt@)]
            + crate::messages::chat_views(messages@),
{
    let mut out = vec![crate::messages::ChatMessage::system(system_prompt)];
    let mut rest = messages;
    let ghost first = out@;
    let ghost all = rest@;
    out.append(&mut rest);
    assert(out@ =~= first + all);
    assert(crate::messages::chat_views(out@) =~= crate::messages::chat_views(first) + crate::messages::chat_views(all));
    out
}

/// Whether a character may stand in an HTTP header value: a tab, or any
/// character but the other control characters and DEL (the bytes of a
/// non-ASCII character are all allowed).
pub open spec fn header_char_ok(c: char) -> bool {
    c == '\t' || ((c as u32) >= 32 && (c as u32) != 127)
}

/// The `Authorization` header's value, `Bearer <key>`, or `Auth(message)`
/// when the key holds a character a header value cannot.
fn bearer_value(api_key: &str, message: &str) -> (r: Result<String, ApiError>)
    ensures
        match r {
            Ok(v) => v@ == "Bearer "@ + api_key@ && forall|i: int| 0 <= i < api_key@.len() ==> header_char_ok(
                #[trigger] api_key@[i],
            ),
            Err(e) => e matches ApiError::Auth(m) && m@ == message@ && exists|i: int|
                0 <= i < api_key@.len() && !header_char_ok(#[trigger] api_key@[i]),
        },
{
    let v = chars_of(api_key);
    let mut i: usize = 0;
    while i < v.len()
        invariant
            i <= v@.len(),
            v@ == api_key@,
            forall|j: int| 0 <= j < i ==> header_char_ok(#[trigger] api_key@[j]),
        decreases v@.len() - i,
    {
        let c = v[i];
        let u = c as u32;
        if !(c == '\t' || (u >= 32 && u != 127)) {
            assert(!header_char_ok(api_key@[i as int]));
            return Err(ApiError::Auth(owned(message)));
        }
        i += 1;
    }
    let mut out = owned("Bearer ");
    push_str(&mut out, api_key);
    Ok(out)
}

/// The `Authorization` header's value for the Arcee API.
pub fn auth_value(api_key: &str) -> (r: Result<String, ApiError>)
    ensures
        match r {
            Ok(v) => v@ == "Bearer "@ + api_key@ && forall|i: int| 0 <= i < api_key@.len() ==> header_char_ok(
                #[trigger] api_key@[i],
            ),
            Err(e) => e matches ApiError::Auth(m) && m@
                == "API key contains invalid characters. Keys must be ASCII-only."@ && exists|i: int|
                0 <= i < api_key@.len() && !header_char_ok(#[trigger] api_key@[i]),
        },
{
    bearer_value(api_key, "API key contains invalid characters. Keys must be ASCII-only.")
}

/// The `Authorization` header's value for an OpenAI-compatible API.
pub fn openai_auth_value(api_key: &str) -> (r: Result<String, ApiError>)
    ensures
        match r {
            Ok(v) => v@ == "Bearer "@ + api_key@ && forall|i: int| 0 <= i < api_key@.len() ==> header_char_ok(
                #[trigger] api_key@[i],
            ),
            Err(e) => e matches ApiError::Auth(m) && m@ == "API key contains invalid characters."@ && exists|i: int|
                0 <= i < api_key@.len() && !header_char_ok(#[trigger] api_key@[i]),
        },
{
    bearer_value(api_key, "API key contains invalid characters.")
}

/// What an error reply's body says, when it is JSON: its `retry_after`
/// count, and, when it has an `error` member, that member's text (itself
/// when a string, else its `message` when that is a string).
pub struct ErrorBody {
    pub retry_after: Option<u64>,
    pub error: Option<Option<String>>,
}

/// The error for a reply with a status that is not a success: `status` is
/// the number, `status_text` how it displays (`404 Not Found`), `body` the
/// body, `parsed` what the body says when it is JSON.
pub open spec fn http_error(status: u16, status_text: Seq<char>, body: Seq<char>, parsed: Option<ErrorBody>) -> ErrorShape {
    if status == 401 || status == 403 {
        ErrorShape::Auth(
            "Authentication failed (HTTP "@ + status_text + "). Check your ARCEE_API_KEY.\n"@ + body,
        )
    } else if status == 402 {
        ErrorShape::Auth("Insufficient balance. Top up your Arcee account at https://app.arcee.ai/"@)
    } else if status == 429 {
        ErrorShape::RateLimit(
            match parsed {
                Some(p) => p.retry_after,
                None => None,
            },
        )
    } else if status == 422 {
        ErrorShape::ApiResponse("invalid_parameters"@, body)
    } else if 500 <= status <= 599 {
        ErrorShape::Server("HTTP "@ + status_text + ": "@ + body)
    } else {
        match parsed {
            Some(p) => match p.error {
                Some(m) => ErrorShape::ApiResponse(
                    "api_error"@,
                    match m {
                        Some(t) => t@,
                        None => body,
                    },
                ),
                None => ErrorShape::Server("HTTP "@ + status_text + ": "@ + body),
            },
            None => ErrorShape::Server("HTTP "@ + status_text + ": "@ + body),
        }
    }
}

/// The errors an HTTP reply maps to, as values.
pub enum ErrorShape {
    Auth(Seq<char>),
    RateLimit(Option<u64>),
    Server(Seq<char>),
    ApiResponse(Seq<char>, Seq<char>),
}

/// An API error as values, for the kinds an HTTP reply maps to.
pub open spec fn error_shape(e: ApiError) -> Option<ErrorShape> {
    match e {
        ApiError::Auth(m) => Some(ErrorShape::Auth(m@)),
        ApiError::RateLimit { retry_after_secs } => Some(ErrorShape::RateLimit(retry_after_secs)),
        ApiError::Server(m) => Some(ErrorShape::Server(m@)),
        ApiError::ApiResponse { error_type, message } => Some(ErrorShape::ApiResponse(error_type@, message@)),
        _ => None,
    }
}

fn server_error(status_text: &str, body: &str) -> (e: ApiError)
    ensures
        error_shape(e) == Some(ErrorShape::Server("HTTP "@ + status_text@ + ": "@ + body@)),
{
    let mut m = owned("HTTP ");
    push_str(&mut m, status_text);
    push_str(&mut m, ": ");
    push_str(&mut m, body);
    ApiError::Server(m)
}

/// The error for a reply with a status that is not a success.
pub fn error_for_status(status: u16, status_text: &str, body: &str, parsed: Option<ErrorBody>) -> (e: ApiError)
    ensures
        error_shape(e) == Some(http_error(status, status_text@, body@, parsed)),
{
    if status == 401 || status == 403 {
        let mut m = owned("Authentication failed (HTTP ");
        push_str(&mut m, status_text);
        push_str(&mut m, "). Check your ARCEE_API_KEY.\n");
        push_str(&mut m, body);
        ApiError::Auth(m)
    } else if status == 402 {
        ApiError::Auth(owned("Insufficient balance. Top up your Arcee account at https://app.arcee.ai/"))
    } else if status == 429 {
        ApiError::RateLimit {
            retry_after_secs: match &parsed {
                Some(p) => p.retry_after,
                None => None,
            },
        }
    } else if status == 422 {
        ApiError::ApiResponse { error_type: owned("invalid_parameters"), message: owned(body) }
    } else if 500 <= status && status <= 599 {
        server_error(status_text, body)
    } else {
        match parsed {
            Some(p) => match p.error {
                Some(m) => ApiError::ApiResponse {
                    error_type: owned("api_error"),
                    message: match m {
                        Some(t) => t,
                        None => owned(body),
                    },
                },
                None => server_error(status_text, body),
            },
            None => server_error(status_text, body),
        }
    }
}

// ─── Notices while streaming ────────────────────────────────────────────────

/// What a chunk shows the user as it arrives: text, or the start of a tool
/// call (its id and name).
pub enum StreamNotice {
    Text(String),
    ToolStart { id: String, name: String },
}

/// A notice as values.
pub enum NoticeV {
    Text(Seq<char>),
    ToolStart(Seq<char>, Seq<char>),
}

pub open spec fn notice_views(ns: Seq<StreamNotice>) -> Seq<NoticeV> {
    ns.map_values(|n: StreamNotice| match n {
        StreamNotice::Text(t) => NoticeV::Text(t@),
        StreamNotice::ToolStart { id, name } => NoticeV::ToolStart(id@, name@),
    })
}

/// The starts among tool-call deltas: a call is announced once, by the
/// first delta that names its function; `seen` holds the calls already
/// announced.
pub open spec fn call_notices(tcs: Seq<ToolCallDelta>, seen: Set<usize>) -> (Seq<NoticeV>, Set<usize>)
    decreases tcs.len(),
{
    if tcs.len() == 0 {
        (seq![], seen)
    } else {
        let (a, s1) = call_notices(tcs.drop_last(), seen);
        let tc = tcs.last();
        match tc.function {
            Some(f) => match f.name {
                Some(n) => if !s1.contains(tc.index) {
                    (a.push(NoticeV::ToolStart(text_of(tc.id), n@)), s1.insert(tc.index))
                } else {
                    (a, s1)
                },
                None => (a, s1),
            },
            None => (a, s1),
        }
    }
}

/// The notices of a chunk's choices, in order, and the calls announced.
pub open spec fn choice_notices(cs: Seq<Choice>, seen: Set<usize>) -> (Seq<NoticeV>, Set<usize>)
    decreases cs.len(),
{
    if cs.len() == 0 {
        (seq![], seen)
    } else {
        let (a, s1) = choice_notices(cs.drop_last(), seen);
        match cs.last().delta {
            None => (a, s1),
            Some(d) => {
                let a2 = match d.content {
                    Some(c) => a.push(NoticeV::Text(c@)),
                    None => a,
                };
                match d.tool_calls {
                    None => (a2, s1),
                    Some(tcs) => {
                        let (b, s2) = call_notices(tcs@, s1);
                        (a2 + b, s2)
                    },
                }
            },
        }
    }
}

fn seen_contains(seen: &Vec<usize>, k: usize) -> (b: bool)
    ensures
        b == seen@.to_set().contains(k),
{
    let mut i: usize = 0;
    while i < seen.len()
        invariant
            i <= seen@.len(),
            forall|j: int| 0 <= j < i ==> seen@[j] != k,
        decreases seen@.len() - i,
    {
        if seen[i] == k {
            assert(seen@.to_set().contains(k)) by {
                assert(seen@.contains(k));
            }
            return true;
        }
        i += 1;
    }
    assert(!seen@.to_set().contains(k)) by {
        if seen@.contains(k) {
            let j = choose|j: int| 0 <= j < seen@.len() && seen@[j] == k;
        }
    }
    false
}

fn push_call_notices(out: &mut Vec<StreamNotice>, seen: &mut Vec<usize>, tcs: &Vec<ToolCallDelta>)
    ensures
        ({
            let (b, s2) = call_notices(tcs@, old(seen)@.to_set());
            &&& notice_views(final(out)@) == notice_views(old(out)@) + b
            &&& final(seen)@.to_set() == s2
        }),
{
    let mut i: usize = 0;
    let ghost start = notice_views(out@);
    let ghost seen0 = seen@.to_set();
    assert(tcs@.take(0) =~= Seq::<ToolCallDelta>::empty());
    assert(start + Seq::<NoticeV>::empty() =~= start);
    while i < tcs.len()
        invariant
            i <= tcs@.len(),
            seen0 == old(seen)@.to_set(),
            start == notice_views(old(out)@),
            ({
                let (b, s2) = call_notices(tcs@.take(i as int), seen0);
                &&& notice_views(out@) == start + b
                &&& seen@.to_set() == s2
            }),
        decreases tcs@.len() - i,
    {
        proof {
            assert(tcs@.take(i + 1).drop_last() =~= tcs@.take(i as int));
            assert(tcs@.take(i + 1).last() == tcs@[i as int]);
        }
        let ghost before = notice_views(out@);
        let tc = &tcs[i];
        match &tc.function {
            Some(f) => match &f.name {
                Some(n) => {
                    if !seen_contains(seen, tc.index) {
                        let id = match &tc.id {
                            Some(x) => x.clone(),
                            None => String::new(),
                        };
                        out.push(StreamNotice::ToolStart { id, name: n.clone() });
                        let ghost s_before = seen@;
                        seen.push(tc.index);
                        proof {
                            assert(seen@ =~= s_before.push(tc.index));
                            assert(seen@.to_set() =~= s_before.to_set().insert(tc.index)) by {
                                assert forall|x: usize| seen@.to_set().contains(x) <==> s_before.to_set().insert(tc.index).contains(x) by {
                                    if seen@.contains(x) && x != tc.index {
                                        let j = choose|j: int| 0 <= j < seen@.len() && seen@[j] == x;
                                        assert(s_before[j] == x);
                                    }
                                    if s_before.contains(x) {
                                        let j = choose|j: int| 0 <= j < s_before.len() && s_before[j] == x;
                                        assert(seen@[j] == x);
                                    }
                                    if x == tc.index {
                                        assert(seen@[s_before.len() as int] == x);
                                    }
                                }
                            }
                            assert(notice_views(out@) =~= before.push(NoticeV::ToolStart(text_of(tc.id), n@)));
                        }
                    }
                },
                None => {},
            },
            None => {},
        }
        i += 1;
    }
    assert(tcs@.take(tcs@.len() as int) =~= tcs@);
}

/// The notices of a chunk, given the calls already announced (which it
/// extends).
pub fn chunk_notices(chunk: &ChatCompletionResponse, seen: &mut Vec<usize>) -> (out: Vec<StreamNotice>)
    ensures
        ({
            let (a, s2) = choice_notices(chunk.choices@, old(seen)@.to_set());
            &&& notice_views(out@) == a
            &&& final(seen)@.to_set() == s2
        }),
{
    let mut out: Vec<StreamNotice> = Vec::new();
    let ghost seen0 = seen@.to_set();
    let mut i: usize = 0;
    assert(chunk.choices@.take(0) =~= Seq::<Choice>::empty());
    assert(notice_views(out@) =~= Seq::<NoticeV>::empty());
    while i < chunk.choices.len()
        invariant
            i <= chunk.choices@.len(),
            seen0 == old(seen)@.to_set(),
            ({
                let (a, s2) = choice_notices(chunk.choices@.take(i as int), seen0);
                &&& notice_views(out@) == a
                &&& seen@.to_set() == s2
            }),
        decreases chunk.choices@.len() - i,
    {
        proof {
            assert(chunk.choices@.take(i + 1).drop_last() =~= chunk.choices@.take(i as int));
            assert(chunk.choices@.take(i + 1).last() == chunk.choices@[i as int]);
        }
        let c = &chunk.choices[i];
        match &c.delta {
            None => {},
            Some(d) => {
                match &d.content {
                    Some(t) => {
                        let ghost before = notice_views(out@);
                        out.push(StreamNotice::Text(t.clone()));
                        assert(notice_views(out@) =~= before.push(NoticeV::Text(t@)));
                    },
                    None => {},
                }
                match &d.tool_calls {
                    None => {},
                    Some(tcs) => {
                        push_call_notices(&mut out, seen, tcs);
                    },
                }
            },
        }
        i += 1;
    }
    assert(chunk.choices@.take(chunk.choices@.len() as int) =~= chunk.choices@);
    out
}

/// The error an OpenAI-compatible API's reply with a failing status maps
/// to.
pub open spec fn openai_http_error(status: u16, status_text: Seq<char>, body: Seq<char>, parsed: Option<ErrorBody>) -> ErrorShape {
    if status == 401 || status == 403 {
        ErrorShape::Auth("Authentication failed (HTTP "@ + status_text + "). Check your API key.\n"@ + body)
    } else if status == 429 {
        ErrorShape::RateLimit(
            match parsed {
                Some(p) => p.retry_after,
                None => None,
            },
        )
    } else {
        ErrorShape::Server("HTTP "@ + status_text + ": "@ + body)
    }
}

/// The error an OpenAI-compatible API's reply with a failing status maps
/// to.
pub fn openai_error_for_status(status: u16, status_text: &str, body: &str, parsed: Option<ErrorBody>) -> (e: ApiError)
    ensures
        error_shape(e) == Some(openai_http_error(status, status_text@, body@, parsed)),
{
    if status == 401 || status == 403 {
        let mut m = owned("Authentication failed (HTTP ");
        push_str(&mut m, status_text);
        push_str(&mut m, "). Check your API key.\n");
        push_str(&mut m, body);
        ApiError::Auth(m)
    } else if status == 429 {
        ApiError::RateLimit {
            retry_after_secs: match &parsed {
                Some(p) => p.retry_after,
                None => None,
            },
        }
    } else {
        server_error(status_text, body)
    }
}

/// The stop reason of a provider's reply: a tool use when it calls tools,
/// else by its `finish_reason`, else the end of the turn.
pub open spec fn response_stop(blocks: Seq<BlockV>, finish: Option<Seq<char>>) -> crate::messages::StopReason {
    if exists|i: int| 0 <= i < blocks.len() && blocks[i] is ToolUse {
        crate::messages::StopReason::ToolUse
    } else {
        reply_stop(finish)
    }
}

/// The stop reason of a provider's reply.
pub fn response_stop_reason(blocks: &Vec<ContentBlock>, finish: Option<&str>) -> (r: crate::messages::StopReason)
    ensures
        r == response_stop(block_views(blocks@), match finish {
            Some(f) => Some(f@),
            None => None,
        }),
{
    let mut i: usize = 0;
    while i < blocks.len()
        invariant
            i <= blocks@.len(),
            forall|j: int| 0 <= j < i ==> !(block_views(blocks@)[j] is ToolUse),
        decreases blocks@.len() - i,
    {
        if matches!(blocks[i], ContentBlock::ToolUse { .. }) {
            assert(block_views(blocks@)[i as int] is ToolUse);
            return crate::messages::StopReason::ToolUse;
        }
        i += 1;
    }
    match finish {
        Some(f) => crate::messages::StopReason::from_api(f),
        None => crate::messages::StopReason::EndTurn,
    }
}

} // verus!
