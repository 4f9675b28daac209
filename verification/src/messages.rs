//! The conversation: messages and their content, token usage, and the
//! conversion of a conversation into the chat-completions wire format.

use vstd::prelude::*;
use crate::text::{join, push_joined, push_str, str_eq, views};

verus! {

// ─── Content blocks, stop reasons, usage ───────────────────────────────────

/// One block of an assistant reply.
pub enum ContentBlock {
    Text { text: String },
    /// A tool call; `input` is the compact JSON text of its arguments.
    ToolUse { id: String, name: String, input: String },
    Thinking { thinking: String },
}

/// The value a content block stands for.
pub enum BlockV {
    Text(Seq<char>),
    ToolUse(Seq<char>, Seq<char>, Seq<char>),
    Thinking(Seq<char>),
}

impl View for ContentBlock {
    type V = BlockV;

    open spec fn view(&self) -> BlockV {
        match self {
            ContentBlock::Text { text } => BlockV::Text(text@),
            ContentBlock::ToolUse { id, name, input } => BlockV::ToolUse(id@, name@, input@),
            ContentBlock::Thinking { thinking } => BlockV::Thinking(thinking@),
        }
    }
}

impl ContentBlock {
    /// A copy of the block.
    pub fn duplicate(&self) -> (r: ContentBlock)
        ensures
            r@ == self@,
    {
        match self {
            ContentBlock::Text { text } => ContentBlock::Text { text: text.clone() },
            ContentBlock::ToolUse { id, name, input } => ContentBlock::ToolUse {
                id: id.clone(),
                name: name.clone(),
                input: input.clone(),
            },
            ContentBlock::Thinking { thinking } => ContentBlock::Thinking {
                thinking: thinking.clone(),
            },
        }
    }
}

/// Why the model stopped generating.
#[derive(Debug, Clone, Copy, PartialEq, Eq, Structural)]
pub enum StopReason {
    EndTurn,
    ToolUse,
    MaxTokens,
    StopSequence,
}

/// The stop reason for an API `finish_reason`; unknown reasons count as the
/// end of the turn.
pub open spec fn stop_reason_of(s: Seq<char>) -> StopReason {
    if s == "stop"@ {
        StopReason::EndTurn
    } else if s == "tool_calls"@ {
        StopReason::ToolUse
    } else if s == "length"@ {
        StopReason::MaxTokens
    } else if s == "stop_sequence"@ {
        StopReason::StopSequence
    } else {
        StopReason::EndTurn
    }
}

/// Each stop reason but the end of the turn comes from exactly one API
/// finish reason: `tool_calls` is tool use, `length` is the token limit,
/// `stop_sequence` a stop sequence; every other reason ends the turn.
pub proof fn law_finish_reasons(s: Seq<char>)
    ensures
        (stop_reason_of(s) == StopReason::ToolUse) <==> (s == "tool_calls"@),
        (stop_reason_of(s) == StopReason::MaxTokens) <==> (s == "length"@),
        (stop_reason_of(s) == StopReason::StopSequence) <==> (s == "stop_sequence"@),
        (stop_reason_of(s) == StopReason::EndTurn) <==> (s != "tool_calls"@ && s != "length"@ && s
            != "stop_sequence"@),
{
    reveal_strlit("stop");
    reveal_strlit("tool_calls");
    reveal_strlit("length");
    reveal_strlit("stop_sequence");
    assert("stop"@.len() == 4);
    assert("tool_calls"@.len() == 10);
    assert("length"@.len() == 6);
    assert("stop_sequence"@.len() == 13);
}

impl StopReason {
    /// Maps an API `finish_reason` to a stop reason.
    pub fn from_api(s: &str) -> (r: StopReason)
        ensures
            r == stop_reason_of(s@),
    {
        if str_eq(s, "stop") {
            StopReason::EndTurn
        } else if str_eq(s, "tool_calls") {
            StopReason::ToolUse
        } else if str_eq(s, "length") {
            StopReason::MaxTokens
        } else if str_eq(s, "stop_sequence") {
            StopReason::StopSequence
        } else {
            StopReason::EndTurn
        }
    }
}

/// Token counts of one API call, as the API reports them.
#[derive(Debug, Clone, Copy, PartialEq, Eq, Structural)]
pub struct UsageResponse {
    pub prompt_tokens: u64,
    pub completion_tokens: u64,
    pub total_tokens: u64,
}

impl Default for UsageResponse {
    fn default() -> (u: UsageResponse)
        ensures
            u.prompt_tokens == 0 && u.completion_tokens == 0 && u.total_tokens == 0,
    {
        UsageResponse { prompt_tokens: 0, completion_tokens: 0, total_tokens: 0 }
    }
}

/// Token counts of one API call.
#[derive(Debug, Clone, Copy, PartialEq, Eq, Structural)]
pub struct Usage {
    pub input_tokens: u64,
    pub output_tokens: u64,
    pub cache_creation_input_tokens: Option<u64>,
    pub cache_read_input_tokens: Option<u64>,
}

impl Default for Usage {
    fn default() -> (u: Usage)
        ensures
            u == (Usage {
                input_tokens: 0,
                output_tokens: 0,
                cache_creation_input_tokens: None,
                cache_read_input_tokens: None,
            }),
    {
        Usage {
            input_tokens: 0,
            output_tokens: 0,
            cache_creation_input_tokens: None,
            cache_read_input_tokens: None,
        }
    }
}

/// The usage an API report stands for.
pub open spec fn usage_of(u: UsageResponse) -> Usage {
    Usage {
        input_tokens: u.prompt_tokens,
        output_tokens: u.completion_tokens,
        cache_creation_input_tokens: None,
        cache_read_input_tokens: None,
    }
}

impl<'a> vstd::std_specs::convert::FromSpecImpl<&'a UsageResponse> for Usage {
    open spec fn obeys_from_spec() -> bool {
        true
    }

    open spec fn from_spec(u: &'a UsageResponse) -> Usage {
        usage_of(*u)
    }
}

impl<'a> From<&'a UsageResponse> for Usage {
    fn from(u: &'a UsageResponse) -> (r: Usage) {
        Usage {
            input_tokens: u.prompt_tokens,
            output_tokens: u.completion_tokens,
            cache_creation_input_tokens: None,
            cache_read_input_tokens: None,
        }
    }
}

// ─── Messages ──────────────────────────────────────────────────────────────

/// One part of a user message.
pub enum UserContent {
    Text(String),
    ToolResult { tool_use_id: String, content: String, is_error: bool },
}

pub enum UserContentV {
    Text(Seq<char>),
    ToolResult(Seq<char>, Seq<char>, bool),
}

impl View for UserContent {
    type V = UserContentV;

    open spec fn view(&self) -> UserContentV {
        match self {
            UserContent::Text(t) => UserContentV::Text(t@),
            UserContent::ToolResult { tool_use_id, content, is_error } => UserContentV::ToolResult(
                tool_use_id@,
                content@,
                *is_error,
            ),
        }
    }
}

pub struct UserMessage {
    pub content: Vec<UserContent>,
}

pub struct AssistantMessage {
    pub content: Vec<ContentBlock>,
    pub stop_reason: StopReason,
    pub usage: Usage,
}

#[derive(Debug, Clone, Copy, PartialEq, Eq, Structural)]
pub enum SystemMessageType {
    CompactBoundary,
    Info,
    Error,
}

pub struct SystemMessage {
    pub content: String,
    pub message_type: SystemMessageType,
}

/// A message of the conversation.
pub enum Message {
    User(UserMessage),
    Assistant(AssistantMessage),
    System(SystemMessage),
}

/// The value a message stands for.
pub enum MessageV {
    User(Seq<UserContentV>),
    Assistant(Seq<BlockV>, StopReason, Usage),
    System(Seq<char>, SystemMessageType),
}

pub open spec fn content_views(cs: Seq<UserContent>) -> Seq<UserContentV> {
    cs.map_values(|c: UserContent| c@)
}

pub open spec fn block_views(bs: Seq<ContentBlock>) -> Seq<BlockV> {
    bs.map_values(|b: ContentBlock| b@)
}

pub open spec fn message_views(ms: Seq<Message>) -> Seq<MessageV> {
    ms.map_values(|m: Message| m@)
}

impl View for Message {
    type V = MessageV;

    open spec fn view(&self) -> MessageV {
        match self {
            Message::User(u) => MessageV::User(content_views(u.content@)),
            Message::Assistant(a) => MessageV::Assistant(
                block_views(a.content@),
                a.stop_reason,
                a.usage,
            ),
            Message::System(s) => MessageV::System(s.content@, s.message_type),
        }
    }
}

/// The tool results of `(id, content, is_error)` triples, in order.
pub open spec fn results_view(rs: Seq<(String, String, bool)>) -> Seq<UserContentV> {
    rs.map_values(|r: (String, String, bool)| UserContentV::ToolResult(r.0@, r.1@, r.2))
}

impl UserContent {
    pub fn duplicate(&self) -> (r: UserContent)
        ensures
            r@ == self@,
    {
        match self {
            UserContent::Text(t) => UserContent::Text(t.clone()),
            UserContent::ToolResult { tool_use_id, content, is_error } => UserContent::ToolResult {
                tool_use_id: tool_use_id.clone(),
                content: content.clone(),
                is_error: *is_error,
            },
        }
    }
}

impl Message {
    /// A user message holding one text part.
    pub fn user_text(text: &str) -> (m: Message)
        ensures
            m@ == MessageV::User(seq![UserContentV::Text(text@)]),
    {
        let mut content: Vec<UserContent> = Vec::new();
        content.push(UserContent::Text(text.to_owned()));
        let m = Message::User(UserMessage { content });
        assert(content_views(content@) =~= seq![UserContentV::Text(text@)]);
        m
    }

    /// A user message holding one tool result per `(id, content, is_error)`,
    /// in order.
    pub fn tool_results(results: Vec<(String, String, bool)>) -> (m: Message)
        ensures
            m@ == MessageV::User(results_view(results@)),
    {
        let mut content: Vec<UserContent> = Vec::new();
        let mut i: usize = 0;
        while i < results.len()
            invariant
                i <= results.len(),
                content_views(content@) == results_view(results@.take(i as int)),
            decreases results.len() - i,
        {
            let r = &results[i];
            content.push(
                UserContent::ToolResult { tool_use_id: r.0.clone(), content: r.1.clone(), is_error: r.2 },
            );
            proof {
                assert(content_views(content@) =~= content_views(content@.drop_last()).push(
                    content@.last()@,
                ));
                assert(results_view(results@.take(i + 1)) =~= results_view(results@.take(i as int)).push(
                    UserContentV::ToolResult(results@[i as int].0@, results@[i as int].1@, results@[i as int].2),
                ));
            }
            i += 1;
        }
        assert(results@.take(results.len() as int) =~= results@);
        Message::User(UserMessage { content })
    }

    /// A copy of the message.
    pub fn duplicate(&self) -> (r: Message)
        ensures
            r@ == self@,
    {
        match self {
            Message::User(u) => {
                let mut content: Vec<UserContent> = Vec::new();
                let mut i: usize = 0;
                while i < u.content.len()
                    invariant
                        i <= u.content.len(),
                        content_views(content@) == content_views(u.content@.take(i as int)),
                    decreases u.content.len() - i,
                {
                    content.push(u.content[i].duplicate());
                    proof {
                        assert(content_views(content@) =~= content_views(content@.drop_last()).push(
                            content@.last()@,
                        ));
                        assert(content_views(u.content@.take(i + 1)) =~= content_views(
                            u.content@.take(i as int),
                        ).push(u.content@[i as int]@));
                    }
                    i += 1;
                }
                assert(u.content@.take(u.content.len() as int) =~= u.content@);
                Message::User(UserMessage { content })
            },
            Message::Assistant(a) => {
                let mut content: Vec<ContentBlock> = Vec::new();
                let mut i: usize = 0;
                while i < a.content.len()
                    invariant
                        i <= a.content.len(),
                        block_views(content@) == block_views(a.content@.take(i as int)),
                    decreases a.content.len() - i,
                {
                    content.push(a.content[i].duplicate());
                    proof {
                        assert(block_views(content@) =~= block_views(content@.drop_last()).push(
                            content@.last()@,
                        ));
                        assert(block_views(a.content@.take(i + 1)) =~= block_views(
                            a.content@.take(i as int),
                        ).push(a.content@[i as int]@));
                    }
                    i += 1;
                }
                assert(a.content@.take(a.content.len() as int) =~= a.content@);
                Message::Assistant(
                    AssistantMessage { content, stop_reason: a.stop_reason, usage: a.usage },
                )
            },
            Message::System(s) => Message::System(
                SystemMessage { content: s.content.clone(), message_type: s.message_type },
            ),
        }
    }
}

// ─── The chat-completions wire format ──────────────────────────────────────

pub struct FunctionCall {
    pub name: String,
    pub arguments: String,
}

pub struct ToolCall {
    pub id: String,
    pub call_type: String,
    pub function: FunctionCall,
}

/// A tool call as values: id, type, function name, arguments.
pub struct CallV {
    pub id: Seq<char>,
    pub call_type: Seq<char>,
    pub name: Seq<char>,
    pub arguments: Seq<char>,
}

impl View for ToolCall {
    type V = CallV;

    open spec fn view(&self) -> CallV {
        CallV {
            id: self.id@,
            call_type: self.call_type@,
            name: self.function.name@,
            arguments: self.function.arguments@,
        }
    }
}

/// One message of a chat-completions request; `content` is always text.
pub struct ChatMessage {
    pub role: String,
    pub content: Option<String>,
    pub tool_calls: Option<Vec<ToolCall>>,
    pub tool_call_id: Option<String>,
    pub name: Option<String>,
}

pub struct ChatV {
    pub role: Seq<char>,
    pub content: Option<Seq<char>>,
    pub tool_calls: Option<Seq<CallV>>,
    pub tool_call_id: Option<Seq<char>>,
    pub name: Option<Seq<char>>,
}

pub open spec fn opt_view(o: Option<String>) -> Option<Seq<char>> {
    match o {
        Some(s) => Some(s@),
        None => None,
    }
}

pub open spec fn call_views(cs: Seq<ToolCall>) -> Seq<CallV> {
    cs.map_values(|c: ToolCall| c@)
}

pub open spec fn chat_views(cs: Seq<ChatMessage>) -> Seq<ChatV> {
    cs.map_values(|c: ChatMessage| c@)
}

impl View for ChatMessage {
    type V = ChatV;

    open spec fn view(&self) -> ChatV {
        ChatV {
            role: self.role@,
            content: opt_view(self.content),
            tool_calls: match self.tool_calls {
                Some(v) => Some(call_views(v@)),
                None => None,
            },
            tool_call_id: opt_view(self.tool_call_id),
            name: opt_view(self.name),
        }
    }
}

/// A chat message with only a role and text content.
pub open spec fn plain_chat(role: Seq<char>, text: Seq<char>) -> ChatV {
    ChatV { role, content: Some(text), tool_calls: None, tool_call_id: None, name: None }
}

/// A `tool` message answering the call `id`.
pub open spec fn tool_chat(id: Seq<char>, text: Seq<char>) -> ChatV {
    ChatV { role: "tool"@, content: Some(text), tool_calls: None, tool_call_id: Some(id), name: None }
}

impl ChatMessage {
    pub fn system(text: &str) -> (m: ChatMessage)
        ensures
            m@ == plain_chat("system"@, text@),
    {
        ChatMessage {
            role: "system".to_owned(),
            content: Some(text.to_owned()),
            tool_calls: None,
            tool_call_id: None,
            name: None,
        }
    }

    pub fn user(text: &str) -> (m: ChatMessage)
        ensures
            m@ == plain_chat("user"@, text@),
    {
        ChatMessage {
            role: "user".to_owned(),
            content: Some(text.to_owned()),
            tool_calls: None,
            tool_call_id: None,
            name: None,
        }
    }

    pub fn assistant_text(text: &str) -> (m: ChatMessage)
        ensures
            m@ == plain_chat("assistant"@, text@),
    {
        ChatMessage {
            role: "assistant".to_owned(),
            content: Some(text.to_owned()),
            tool_calls: None,
            tool_call_id: None,
            name: None,
        }
    }

    pub fn assistant_tool_calls(tool_calls: Vec<ToolCall>) -> (m: ChatMessage)
        ensures
            m@ == (ChatV {
                role: "assistant"@,
                content: None,
                tool_calls: Some(call_views(tool_calls@)),
                tool_call_id: None,
                name: None,
            }),
    {
        ChatMessage {
            role: "assistant".to_owned(),
            content: None,
            tool_calls: Some(tool_calls),
            tool_call_id: None,
            name: None,
        }
    }

    pub fn tool_result(tool_call_id: &str, content: &str) -> (m: ChatMessage)
        ensures
            m@ == tool_chat(tool_call_id@, content@),
    {
        ChatMessage {
            role: "tool".to_owned(),
            content: Some(content.to_owned()),
            tool_calls: None,
            tool_call_id: Some(tool_call_id.to_owned()),
            name: None,
        }
    }
}

// ─── Normalisation ─────────────────────────────────────────────────────────

/// The text parts of a user message, in order.
pub open spec fn user_texts(cs: Seq<UserContentV>) -> Seq<Seq<char>>
    decreases cs.len(),
{
    if cs.len() == 0 {
        seq![]
    } else {
        let r = user_texts(cs.drop_last());
        match cs.last() {
            UserContentV::Text(t) => r.push(t),
            _ => r,
        }
    }
}

/// One `tool` message per tool result of a user message, in order.
pub open spec fn user_results(cs: Seq<UserContentV>) -> Seq<ChatV>
    decreases cs.len(),
{
    if cs.len() == 0 {
        seq![]
    } else {
        let r = user_results(cs.drop_last());
        match cs.last() {
            UserContentV::ToolResult(id, c, _) => r.push(tool_chat(id, c)),
            _ => r,
        }
    }
}

/// A user message on the wire: its tool results, then its text parts joined
/// by newlines as one `user` message, if there are any.
pub open spec fn user_chat(cs: Seq<UserContentV>) -> Seq<ChatV> {
    let texts = user_texts(cs);
    user_results(cs) + if texts.len() > 0 {
        seq![plain_chat("user"@, join(texts, "\n"@))]
    } else {
        seq![]
    }
}

/// The text of an assistant message: its text blocks, and each non-empty
/// thinking block wrapped in `<thinking>` tags, in order.
pub open spec fn assistant_parts(bs: Seq<BlockV>) -> Seq<Seq<char>>
    decreases bs.len(),
{
    if bs.len() == 0 {
        seq![]
    } else {
        let r = assistant_parts(bs.drop_last());
        match bs.last() {
            BlockV::Text(t) => r.push(t),
            BlockV::Thinking(th) => if th.len() > 0 {
                r.push("<thinking>\n"@ + th + "\n</thinking>"@)
            } else {
                r
            },
            _ => r,
        }
    }
}

/// The tool calls of an assistant message, in order.
pub open spec fn assistant_calls(bs: Seq<BlockV>) -> Seq<CallV>
    decreases bs.len(),
{
    if bs.len() == 0 {
        seq![]
    } else {
        let r = assistant_calls(bs.drop_last());
        match bs.last() {
            BlockV::ToolUse(id, name, input) => r.push(
                CallV { id, call_type: "function"@, name, arguments: input },
            ),
            _ => r,
        }
    }
}

/// An assistant message on the wire: one message carrying the tool calls
/// (and the joined text, if any), or one text message, or nothing.
pub open spec fn assistant_chat(bs: Seq<BlockV>) -> Seq<ChatV> {
    let parts = assistant_parts(bs);
    let calls = assistant_calls(bs);
    if calls.len() > 0 {
        seq![
            ChatV {
                role: "assistant"@,
                content: if parts.len() > 0 { Some(join(parts, "\n"@)) } else { None },
                tool_calls: Some(calls),
                tool_call_id: None,
                name: None,
            },
        ]
    } else if parts.len() > 0 {
        seq![plain_chat("assistant"@, join(parts, "\n"@))]
    } else {
        seq![]
    }
}

/// A message on the wire; system messages are sent separately.
pub open spec fn message_chat(m: MessageV) -> Seq<ChatV> {
    match m {
        MessageV::User(cs) => user_chat(cs),
        MessageV::Assistant(bs, _, _) => assistant_chat(bs),
        MessageV::System(_, _) => seq![],
    }
}

/// A conversation on the wire, message by message.
pub open spec fn normalized(ms: Seq<MessageV>) -> Seq<ChatV>
    decreases ms.len(),
{
    if ms.len() == 0 {
        seq![]
    } else {
        normalized(ms.drop_last()) + message_chat(ms.last())
    }
}

fn push_user_chat(out: &mut Vec<ChatMessage>, u: &UserMessage)
    ensures
        chat_views(final(out)@) == chat_views(old(out)@) + user_chat(content_views(u.content@)),
{
    let ghost cv = content_views(u.content@);
    let mut texts: Vec<String> = Vec::new();
    let mut i: usize = 0;
    while i < u.content.len()
        invariant
            i <= u.content.len(),
            cv == content_views(u.content@),
            views(texts@) == user_texts(cv.take(i as int)),
            chat_views(out@) == chat_views(old(out)@) + user_results(cv.take(i as int)),
        decreases u.content.len() - i,
    {
        assert(cv.take(i + 1).drop_last() =~= cv.take(i as int));
        assert(cv.take(i + 1).last() == u.content@[i as int]@);
        match &u.content[i] {
            UserContent::Text(t) => {
                texts.push(t.clone());
                assert(views(texts@) =~= views(texts@.drop_last()).push(t@));
            },
            UserContent::ToolResult { tool_use_id, content, .. } => {
                let ghost before = chat_views(out@);
                out.push(ChatMessage::tool_result(tool_use_id.as_str(), content.as_str()));
                assert(chat_views(out@) =~= before.push(tool_chat(tool_use_id@, content@)));
                assert(chat_views(old(out)@) + user_results(cv.take(i + 1)) =~= (chat_views(old(out)@)
                    + user_results(cv.take(i as int))).push(tool_chat(tool_use_id@, content@)));
            },
        }
        i += 1;
    }
    assert(cv.take(u.content.len() as int) =~= cv);
    if texts.len() > 0 {
        let mut joined = String::new();
        push_joined(&mut joined, &texts, "\n");
        assert(joined@ =~= join(user_texts(cv), "\n"@));
        let ghost before = chat_views(out@);
        out.push(ChatMessage::user(joined.as_str()));
        assert(chat_views(out@) =~= before.push(plain_chat("user"@, joined@)));
    } else {
        assert(user_chat(cv) =~= user_results(cv));
    }
}

fn push_assistant_chat(out: &mut Vec<ChatMessage>, a: &AssistantMessage)
    ensures
        chat_views(final(out)@) == chat_views(old(out)@) + assistant_chat(block_views(a.content@)),
{
    let ghost bv = block_views(a.content@);
    let mut parts: Vec<String> = Vec::new();
    let mut calls: Vec<ToolCall> = Vec::new();
    let mut i: usize = 0;
    while i < a.content.len()
        invariant
            i <= a.content.len(),
            bv == block_views(a.content@),
            views(parts@) == assistant_parts(bv.take(i as int)),
            call_views(calls@) == assistant_calls(bv.take(i as int)),
        decreases a.content.len() - i,
    {
        assert(bv.take(i + 1).drop_last() =~= bv.take(i as int));
        assert(bv.take(i + 1).last() == a.content@[i as int]@);
        match &a.content[i] {
            ContentBlock::Text { text } => {
                parts.push(text.clone());
                assert(views(parts@) =~= views(parts@.drop_last()).push(text@));
            },
            ContentBlock::ToolUse { id, name, input } => {
                calls.push(
                    ToolCall {
                        id: id.clone(),
                        call_type: "function".to_owned(),
                        function: FunctionCall { name: name.clone(), arguments: input.clone() },
                    },
                );
                assert(call_views(calls@) =~= call_views(calls@.drop_last()).push(calls@.last()@));
            },
            ContentBlock::Thinking { thinking } => {
                if !thinking.as_str().is_empty() {
                    let mut w = "<thinking>\n".to_owned();
                    push_str(&mut w, thinking.as_str());
                    push_str(&mut w, "\n</thinking>");
                    parts.push(w);
                    assert(views(parts@) =~= views(parts@.drop_last()).push(parts@.last()@));
                }
            },
        }
        i += 1;
    }
    assert(bv.take(a.content.len() as int) =~= bv);
    if calls.len() > 0 {
        let mut m = ChatMessage::assistant_tool_calls(calls);
        if parts.len() > 0 {
            let mut joined = String::new();
            push_joined(&mut joined, &parts, "\n");
            m.content = Some(joined);
        }
        out.push(m);
        assert(chat_views(out@) =~= chat_views(out@.drop_last()).push(out@.last()@));
    } else if parts.len() > 0 {
        let mut joined = String::new();
        push_joined(&mut joined, &parts, "\n");
        out.push(ChatMessage::assistant_text(joined.as_str()));
        assert(chat_views(out@) =~= chat_views(out@.drop_last()).push(out@.last()@));
    }
}

/// The conversation in chat-completions form: per message, tool results as
/// `tool` messages and text as one `user` message; assistant text, thinking
/// and tool calls as one `assistant` message; system messages left out.
pub fn normalize_for_api(messages: &[Message]) -> (out: Vec<ChatMessage>)
    ensures
        chat_views(out@) == normalized(message_views(messages@)),
{
    let ghost mv = message_views(messages@);
    let mut out: Vec<ChatMessage> = Vec::new();
    let mut i: usize = 0;
    while i < messages.len()
        invariant
            i <= messages.len(),
            mv == message_views(messages@),
            chat_views(out@) == normalized(mv.take(i as int)),
        decreases messages.len() - i,
    {
        assert(mv.take(i + 1).drop_last() =~= mv.take(i as int));
        assert(mv.take(i + 1).last() == messages@[i as int]@);
        match &messages[i] {
            Message::User(u) => push_user_chat(&mut out, u),
            Message::Assistant(a) => push_assistant_chat(&mut out, a),
            Message::System(_) => {
                assert(message_chat(messages@[i as int]@) =~= Seq::<ChatV>::empty());
            },
        }
        i += 1;
    }
    assert(mv.take(messages.len() as int) =~= mv);
    out
}

} // verus!
