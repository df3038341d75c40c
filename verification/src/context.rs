//! The layered conversation context: system instructions, retrieval results,
//! history summary, the truncatable history and the per-round working area.

use crate::config::{AgentConfig, Modality};
use crate::text::{chars_of, concat2, concat3, join_seq};
use crate::types::{
    clone_opt_string, clone_tool_calls, opt_calls_view, opt_text, KnowledgeResult, LlmMessage,
    MessageRole, MessageView, ToolCall,
};
use std::collections::VecDeque;
use vstd::prelude::*;

verus! {

/// A message of the conversation.
#[derive(Debug)]
pub struct Message {
    pub role: MessageRole,
    pub content: String,
    pub tool_calls: Option<Vec<ToolCall>>,
    pub tool_call_id: Option<String>,
}

impl View for Message {
    type V = MessageView;

    open spec fn view(&self) -> MessageView {
        MessageView {
            role: self.role,
            content: self.content@,
            tool_calls: opt_calls_view(self.tool_calls),
            tool_call_id: opt_text(self.tool_call_id),
        }
    }
}

impl Clone for Message {
    fn clone(&self) -> (r: Self)
        ensures
            r@ == self@,
    {
        Message {
            role: self.role,
            content: self.content.clone(),
            tool_calls: clone_tool_calls(&self.tool_calls),
            tool_call_id: clone_opt_string(&self.tool_call_id),
        }
    }
}

/// Abstract value of a list of messages.
pub open spec fn messages_view(v: Seq<Message>) -> Seq<MessageView> {
    v.map_values(|m: Message| m@)
}

/// Input of the agent: the session and the customer's message.
#[derive(Debug)]
pub struct AgentInput {
    pub session_id: String,
    pub message: Message,
}

impl AgentInput {
    /// The input for a text the customer sent in a session: a user message
    /// without tool calls.
    pub fn user_text(session_id: String, text: String) -> (i: Self)
        ensures
            i.session_id == session_id,
            i.message == (Message {
                role: MessageRole::User,
                content: text,
                tool_calls: None,
                tool_call_id: None,
            }),
    {
        AgentInput {
            session_id,
            message: Message { role: MessageRole::User, content: text, tool_calls: None, tool_call_id: None },
        }
    }
}

/// Events the agent emits while it handles a message.
#[derive(Debug)]
pub enum AgentEvent {
    /// A model reply starts.
    StreamStart,
    /// A piece of reply text.
    Token(String),
    /// A model reply ends.
    StreamEnd,
    /// A tool call starts.
    ToolCallStart { tool_name: String, arguments: String },
    /// A tool call ends with its result text.
    ToolCallEnd { tool_name: String, result: String },
    /// The conversation goes to a human agent.
    TransferToHuman { reason: String },
    /// The model reported an error.
    Error(String),
}

/// The part of the built-in system prompt that both modalities share.
pub open spec fn base_prompt() -> Seq<char> {
    "你是客服助手。回复必须简洁、专业、有温度。

## 话术规则

### 转人工话术（必须委婉）
- ✅ \"好的，为您转接专属客服\"
- ✅ \"这个操作需要专员为您处理，正在转接\"
- ✅ \"您的问题正在加急处理中，请稍候\"
- ❌ \"我处理不了，转人工\"
- ❌ \"系统出错了\"
- ❌ \"我不知道\"

### 通用话术原则
1. 使用\"您\"而不是\"你\"
2. 使用\"我们\"而不是\"我\"
3. 避免负面词汇（不行、不能、不知道）
4. 用\"正在为您...\"代替\"我需要...\"
5. 用\"建议您...\"代替\"你应该...\""@
}

/// The built-in system prompt of a modality.
pub open spec fn default_prompt(m: Modality) -> Seq<char> {
    match m {
        Modality::Text => base_prompt() + "\n\n回复可以稍长，分段清晰。"@,
        Modality::Voice => base_prompt() + "\n\n回复必须简短（<100字），口语化，适合语音播放。"@,
    }
}

/// Builds the built-in system prompt of a modality.
pub fn build_default_system_prompt(modality: &Modality) -> (r: String)
    ensures
        r@ == default_prompt(*modality),
{
    let base = "你是客服助手。回复必须简洁、专业、有温度。

## 话术规则

### 转人工话术（必须委婉）
- ✅ \"好的，为您转接专属客服\"
- ✅ \"这个操作需要专员为您处理，正在转接\"
- ✅ \"您的问题正在加急处理中，请稍候\"
- ❌ \"我处理不了，转人工\"
- ❌ \"系统出错了\"
- ❌ \"我不知道\"

### 通用话术原则
1. 使用\"您\"而不是\"你\"
2. 使用\"我们\"而不是\"我\"
3. 避免负面词汇（不行、不能、不知道）
4. 用\"正在为您...\"代替\"我需要...\"
5. 用\"建议您...\"代替\"你应该...\"";
    match modality {
        Modality::Text => concat2(base, "\n\n回复可以稍长，分段清晰。"),
        Modality::Voice => concat2(base, "\n\n回复必须简短（<100字），口语化，适合语音播放。"),
    }
}

/// The system prompt a configuration selects: its own, or the built-in one.
pub open spec fn configured_prompt(c: AgentConfig) -> Seq<char> {
    match c.system_prompt {
        Some(p) => p@,
        None => default_prompt(c.modality),
    }
}

/// The layered context of one conversation.
#[derive(Debug)]
pub struct Context {
    /// Session id.
    pub session_id: String,
    /// Conversation modality.
    pub modality: Modality,
    /// System messages (never truncated).
    pub system: Vec<Message>,
    /// Retrieval results of the current round (never truncated).
    pub retrieval: Vec<KnowledgeResult>,
    /// Summary of earlier sessions (never truncated).
    pub history_summary: Option<String>,
    /// Conversation history (the only truncatable layer).
    pub history: VecDeque<Message>,
    /// Working area of the current round (tool results).
    pub working: Vec<Message>,
    /// Configuration.
    pub config: AgentConfig,
}

/// A message value with the given parts.
pub open spec fn message_value(
    role: MessageRole,
    content: Seq<char>,
    tool_calls: Option<Seq<crate::types::ToolCallView>>,
    tool_call_id: Option<Seq<char>>,
) -> MessageView {
    MessageView { role, content, tool_calls, tool_call_id }
}

/// System messages as sent: role and text only.
pub open spec fn system_part(s: Seq<Message>) -> Seq<MessageView> {
    s.map_values(|m: Message| message_value(m.role, m.content@, None, None))
}

/// The history-summary message, present when there is a summary.
pub open spec fn summary_part(o: Option<String>) -> Seq<MessageView> {
    match o {
        Some(s) => seq![message_value(MessageRole::System, "历史会话摘要："@ + s@, None, None)],
        None => Seq::empty(),
    }
}

/// The line that shows one retrieval result.
pub open spec fn retrieval_line(r: KnowledgeResult) -> Seq<char> {
    "【"@ + r.id@ + "】"@ + r.content@
}

/// The text of the retrieval message: a heading and one line per result.
pub open spec fn retrieval_text(rs: Seq<KnowledgeResult>) -> Seq<char> {
    "知识库检索结果：\n"@ + join_seq(rs.map_values(|r: KnowledgeResult| retrieval_line(r)), "\n"@)
}

/// The retrieval message, present when there are results.
pub open spec fn retrieval_part(rs: Seq<KnowledgeResult>) -> Seq<MessageView> {
    if rs.len() == 0 {
        Seq::empty()
    } else {
        seq![message_value(MessageRole::System, retrieval_text(rs), None, None)]
    }
}

/// Working messages as sent: without tool calls.
pub open spec fn working_part(w: Seq<Message>) -> Seq<MessageView> {
    w.map_values(|m: Message| message_value(m.role, m.content@, None, opt_text(m.tool_call_id)))
}

/// The messages sent to the model, in layer order: system, summary,
/// retrieval, history, working.
pub open spec fn prompt_of(ctx: Context) -> Seq<MessageView> {
    system_part(ctx.system@) + summary_part(ctx.history_summary) + retrieval_part(ctx.retrieval@)
        + messages_view(ctx.history@) + working_part(ctx.working@)
}

/// Estimated tokens of a text: its number of characters divided by four.
pub open spec fn text_tokens(s: String) -> nat {
    s@.len() / 4
}

/// Estimated tokens of a list of messages.
pub open spec fn message_tokens(s: Seq<Message>) -> nat
    decreases s.len(),
{
    if s.len() == 0 {
        0
    } else {
        message_tokens(s.drop_last()) + text_tokens(s.last().content)
    }
}

/// Estimated tokens of a list of retrieval results.
pub open spec fn retrieval_tokens(s: Seq<KnowledgeResult>) -> nat
    decreases s.len(),
{
    if s.len() == 0 {
        0
    } else {
        retrieval_tokens(s.drop_last()) + text_tokens(s.last().content)
    }
}

/// Estimated tokens of the summary.
pub open spec fn summary_tokens(o: Option<String>) -> nat {
    match o {
        Some(s) => text_tokens(s),
        None => 0,
    }
}

/// Estimated tokens of the whole context.
pub open spec fn context_tokens(ctx: Context) -> nat {
    message_tokens(ctx.system@) + summary_tokens(ctx.history_summary) + retrieval_tokens(
        ctx.retrieval@,
    ) + message_tokens(ctx.history@) + message_tokens(ctx.working@)
}

/// Appending a message to the history adds exactly that message's estimated
/// tokens to the context's estimate; every other layer counts as before.
pub proof fn lemma_history_append_tokens(before: Context, after: Context, m: Message)
    requires
        after.history@ == before.history@.push(m),
        after.system == before.system,
        after.retrieval == before.retrieval,
        after.history_summary == before.history_summary,
        after.working == before.working,
    ensures
        context_tokens(after) == context_tokens(before) + text_tokens(m.content),
{
    assert(after.history@.drop_last() == before.history@);
}

/// Adding a tool result to the working area adds exactly that message's
/// estimated tokens to the context's estimate; every other layer counts as
/// before.
pub proof fn lemma_working_append_tokens(before: Context, after: Context, m: Message)
    requires
        after.working@ == before.working@.push(m),
        after.system == before.system,
        after.retrieval == before.retrieval,
        after.history_summary == before.history_summary,
        after.history == before.history,
    ensures
        context_tokens(after) == context_tokens(before) + text_tokens(m.content),
{
    assert(after.working@.drop_last() == before.working@);
}

/// Adding a system message adds exactly its estimated tokens to the
/// context's estimate.
pub proof fn lemma_system_append_tokens(before: Context, after: Context, m: Message)
    requires
        after.system@ == before.system@.push(m),
        after.working == before.working,
        after.retrieval == before.retrieval,
        after.history_summary == before.history_summary,
        after.history == before.history,
    ensures
        context_tokens(after) == context_tokens(before) + text_tokens(m.content),
{
    assert(after.system@.drop_last() == before.system@);
}

/// Adding a retrieval result adds exactly the estimated tokens of its
/// content to the context's estimate.
pub proof fn lemma_retrieval_append_tokens(before: Context, after: Context, k: KnowledgeResult)
    requires
        after.retrieval@ == before.retrieval@.push(k),
        after.working == before.working,
        after.system == before.system,
        after.history_summary == before.history_summary,
        after.history == before.history,
    ensures
        context_tokens(after) == context_tokens(before) + text_tokens(k.content),
{
    assert(after.retrieval@.drop_last() == before.retrieval@);
}

/// Giving a context without a summary the summary `s` adds exactly the
/// estimated tokens of `s` to the context's estimate.
pub proof fn lemma_summary_tokens(before: Context, after: Context, s: String)
    requires
        before.history_summary is None,
        after.history_summary == Some(s),
        after.working == before.working,
        after.system == before.system,
        after.retrieval == before.retrieval,
        after.history == before.history,
    ensures
        context_tokens(after) == context_tokens(before) + text_tokens(s),
{
}

/// Partial sums of message tokens grow with the prefix.
pub proof fn lemma_message_tokens_prefix(s: Seq<Message>, i: int, j: int)
    requires
        0 <= i <= j <= s.len(),
    ensures
        message_tokens(s.take(i)) <= message_tokens(s.take(j)),
    decreases j - i,
{
    if i < j {
        lemma_message_tokens_prefix(s, i, j - 1);
        assert(s.take(j).drop_last() == s.take(j - 1));
    }
}

/// Partial sums of retrieval tokens grow with the prefix.
pub proof fn lemma_retrieval_tokens_prefix(s: Seq<KnowledgeResult>, i: int, j: int)
    requires
        0 <= i <= j <= s.len(),
    ensures
        retrieval_tokens(s.take(i)) <= retrieval_tokens(s.take(j)),
    decreases j - i,
{
    if i < j {
        lemma_retrieval_tokens_prefix(s, i, j - 1);
        assert(s.take(j).drop_last() == s.take(j - 1));
    }
}

/// The estimated tokens of one text.
fn tokens_of(s: &String) -> (r: usize)
    ensures
        r == text_tokens(*s),
{
    chars_of(s.as_str()).len() / 4
}

/// Estimated tokens of a list of messages, added to `acc`.
fn add_message_tokens(acc: usize, s: &Vec<Message>, Ghost(bound): Ghost<nat>) -> (r: usize)
    requires
        acc + message_tokens(s@) <= bound,
        bound <= usize::MAX,
    ensures
        r == acc + message_tokens(s@),
{
    let mut total = acc;
    let mut i: usize = 0;
    while i < s.len()
        invariant
            i <= s.len(),
            total == acc + message_tokens(s@.take(i as int)),
            acc + message_tokens(s@) <= bound,
            bound <= usize::MAX,
        decreases s.len() - i,
    {
        proof {
            assert(s@.take(i + 1).drop_last() == s@.take(i as int));
            lemma_message_tokens_prefix(s@, i + 1, s@.len() as int);
            assert(s@.take(s@.len() as int) == s@);
        }
        total = total + tokens_of(&s[i].content);
        i = i + 1;
    }
    assert(s@.take(s@.len() as int) == s@);
    total
}

impl Context {
    /// Creates the context of a session: one system message with the
    /// configured prompt, all other layers empty.
    pub fn new(session_id: String, config: AgentConfig) -> (ctx: Self)
        ensures
            ctx.session_id == session_id,
            ctx.modality == config.modality,
            ctx.config == config,
            ctx.system@.len() == 1,
            ctx.system@[0]@ == message_value(
                MessageRole::System,
                configured_prompt(config),
                None,
                None,
            ),
            ctx.retrieval@.len() == 0,
            ctx.history_summary is None,
            ctx.history@.len() == 0,
            ctx.working@.len() == 0,
    {
        let system_prompt = match &config.system_prompt {
            Some(p) => p.clone(),
            None => build_default_system_prompt(&config.modality),
        };
        let mut system: Vec<Message> = Vec::new();
        system.push(
            Message {
                role: MessageRole::System,
                content: system_prompt,
                tool_calls: None,
                tool_call_id: None,
            },
        );
        Context {
            session_id,
            modality: config.modality,
            system,
            retrieval: Vec::new(),
            history_summary: None,
            history: VecDeque::new(),
            working: Vec::new(),
            config,
        }
    }

    /// Appends a user message to the history.
    pub fn add_user_message(&mut self, content: String)
        ensures
            final(self).history@ == old(self).history@.push(
                Message { role: MessageRole::User, content, tool_calls: None, tool_call_id: None },
            ),
            final(self).session_id == old(self).session_id,
            final(self).modality == old(self).modality,
            final(self).system == old(self).system,
            final(self).retrieval == old(self).retrieval,
            final(self).history_summary == old(self).history_summary,
            final(self).working == old(self).working,
            final(self).config == old(self).config,
    {
        self.history.push_back(
            Message { role: MessageRole::User, content, tool_calls: None, tool_call_id: None },
        );
    }

    /// Appends an assistant message, with the tool calls it requests, to the
    /// history.
    pub fn add_assistant_message(&mut self, content: String, tool_calls: Option<Vec<ToolCall>>)
        ensures
            final(self).history@ == old(self).history@.push(
                Message { role: MessageRole::Assistant, content, tool_calls, tool_call_id: None },
            ),
            final(self).session_id == old(self).session_id,
            final(self).modality == old(self).modality,
            final(self).system == old(self).system,
            final(self).retrieval == old(self).retrieval,
            final(self).history_summary == old(self).history_summary,
            final(self).working == old(self).working,
            final(self).config == old(self).config,
    {
        self.history.push_back(
            Message { role: MessageRole::Assistant, content, tool_calls, tool_call_id: None },
        );
    }

    /// Appends a tool result, answering the call `tool_call_id`, to the
    /// working area.
    pub fn add_tool_result(&mut self, tool_call_id: String, content: String)
        ensures
            final(self).working@ == old(self).working@.push(
                Message {
                    role: MessageRole::Tool,
                    content,
                    tool_calls: None,
                    tool_call_id: Some(tool_call_id),
                },
            ),
            final(self).session_id == old(self).session_id,
            final(self).modality == old(self).modality,
            final(self).system == old(self).system,
            final(self).retrieval == old(self).retrieval,
            final(self).history_summary == old(self).history_summary,
            final(self).history == old(self).history,
            final(self).config == old(self).config,
    {
        self.working.push(
            Message {
                role: MessageRole::Tool,
                content,
                tool_calls: None,
                tool_call_id: Some(tool_call_id),
            },
        );
    }

    /// Replaces the retrieval results.
    pub fn set_retrieval(&mut self, results: Vec<KnowledgeResult>)
        ensures
            final(self).retrieval == results,
            final(self).session_id == old(self).session_id,
            final(self).modality == old(self).modality,
            final(self).system == old(self).system,
            final(self).history_summary == old(self).history_summary,
            final(self).history == old(self).history,
            final(self).working == old(self).working,
            final(self).config == old(self).config,
    {
        self.retrieval = results;
    }

    /// Replaces the history summary.
    pub fn set_history_summary(&mut self, summary: Option<String>)
        ensures
            final(self).history_summary == summary,
            final(self).session_id == old(self).session_id,
            final(self).modality == old(self).modality,
            final(self).system == old(self).system,
            final(self).retrieval == old(self).retrieval,
            final(self).history == old(self).history,
            final(self).working == old(self).working,
            final(self).config == old(self).config,
    {
        self.history_summary = summary;
    }

    /// Builds the messages for the model, layer by layer: the system messages,
    /// the summary (when there is one), the retrieval results (when there are
    /// any), the history, then the working area.
    pub fn build_messages(&self) -> (r: Vec<LlmMessage>)
        ensures
            crate::types::llm_messages_view(r@) == prompt_of(*self),
    {
        // 1. system messages
        let mut out = self.system_messages();
        let ghost p1 = system_part(self.system@);
        // 2. history summary
        if let Some(summary) = &self.history_summary {
            out.push(
                LlmMessage {
                    role: MessageRole::System,
                    content: concat2("历史会话摘要：", summary.as_str()),
                    tool_calls: None,
                    tool_call_id: None,
                },
            );
        }
        assert(crate::types::llm_messages_view(out@) =~= p1 + summary_part(self.history_summary));
        let ghost p2 = p1 + summary_part(self.history_summary);
        // 3. retrieval results
        if self.retrieval.len() > 0 {
            let body = self.retrieval_body();
            out.push(
                LlmMessage {
                    role: MessageRole::System,
                    content: concat2("知识库检索结果：\n", body.as_str()),
                    tool_calls: None,
                    tool_call_id: None,
                },
            );
        }
        assert(crate::types::llm_messages_view(out@) =~= p2 + retrieval_part(self.retrieval@));
        let ghost p3 = p2 + retrieval_part(self.retrieval@);
        // 4. history
        let ghost before = out@;
        let mut hist = self.history_messages();
        out.append(&mut hist);
        assert(crate::types::llm_messages_view(out@) =~= p3 + messages_view(self.history@));
        let ghost p4 = p3 + messages_view(self.history@);
        // 5. working area
        let mut work = self.working_messages();
        out.append(&mut work);
        assert(crate::types::llm_messages_view(out@) =~= p4 + working_part(self.working@));
        out
    }

    fn system_messages(&self) -> (r: Vec<LlmMessage>)
        ensures
            crate::types::llm_messages_view(r@) == system_part(self.system@),
    {
        let mut out: Vec<LlmMessage> = Vec::new();
        let mut i: usize = 0;
        while i < self.system.len()
            invariant
                i <= self.system@.len(),
                out@.len() == i,
                forall|k: int|
                    0 <= k < i ==> #[trigger] out@[k]@ == message_value(
                        self.system@[k].role,
                        self.system@[k].content@,
                        None,
                        None,
                    ),
            decreases self.system.len() - i,
        {
            let m = &self.system[i];
            out.push(
                LlmMessage {
                    role: m.role,
                    content: m.content.clone(),
                    tool_calls: None,
                    tool_call_id: None,
                },
            );
            i = i + 1;
        }
        assert(crate::types::llm_messages_view(out@) =~= system_part(self.system@));
        out
    }

    fn history_messages(&self) -> (r: Vec<LlmMessage>)
        ensures
            crate::types::llm_messages_view(r@) == messages_view(self.history@),
    {
        let mut out: Vec<LlmMessage> = Vec::new();
        let mut i: usize = 0;
        while i < self.history.len()
            invariant
                i <= self.history@.len(),
                out@.len() == i,
                forall|k: int| 0 <= k < i ==> #[trigger] out@[k]@ == self.history@[k]@,
            decreases self.history@.len() - i,
        {
            let m = &self.history[i];
            out.push(
                LlmMessage {
                    role: m.role,
                    content: m.content.clone(),
                    tool_calls: clone_tool_calls(&m.tool_calls),
                    tool_call_id: clone_opt_string(&m.tool_call_id),
                },
            );
            i = i + 1;
        }
        assert(crate::types::llm_messages_view(out@) =~= messages_view(self.history@));
        out
    }

    fn working_messages(&self) -> (r: Vec<LlmMessage>)
        ensures
            crate::types::llm_messages_view(r@) == working_part(self.working@),
    {
        let mut out: Vec<LlmMessage> = Vec::new();
        let mut i: usize = 0;
        while i < self.working.len()
            invariant
                i <= self.working@.len(),
                out@.len() == i,
                forall|k: int|
                    0 <= k < i ==> #[trigger] out@[k]@ == message_value(
                        self.working@[k].role,
                        self.working@[k].content@,
                        None,
                        opt_text(self.working@[k].tool_call_id),
                    ),
            decreases self.working@.len() - i,
        {
            let m = &self.working[i];
            out.push(
                LlmMessage {
                    role: m.role,
                    content: m.content.clone(),
                    tool_calls: None,
                    tool_call_id: clone_opt_string(&m.tool_call_id),
                },
            );
            i = i + 1;
        }
        assert(crate::types::llm_messages_view(out@) =~= working_part(self.working@));
        out
    }

    /// The retrieval lines joined by newlines.
    fn retrieval_body(&self) -> (r: String)
        ensures
            r@ == join_seq(
                self.retrieval@.map_values(|x: KnowledgeResult| retrieval_line(x)),
                "\n"@,
            ),
    {
        let ghost lines = self.retrieval@.map_values(|x: KnowledgeResult| retrieval_line(x));
        let mut r = String::new();
        let mut i: usize = 0;
        while i < self.retrieval.len()
            invariant
                i <= self.retrieval@.len(),
                lines == self.retrieval@.map_values(|x: KnowledgeResult| retrieval_line(x)),
                r@ == join_seq(lines.take(i as int), "\n"@),
            decreases self.retrieval@.len() - i,
        {
            let item = &self.retrieval[i];
            let line = concat3("【", item.id.as_str(), "】");
            let line = concat2(line.as_str(), item.content.as_str());
            proof {
                assert(lines.take(i + 1).drop_last() == lines.take(i as int));
                assert(lines.take(i + 1).last() == lines[i as int]);
            }
            if i > 0 {
                r.append("\n");
            }
            r.append(line.as_str());
            proof {
                if i == 0 {
                    assert(lines.take(1) =~= seq![lines[0]]);
                }
            }
            i = i + 1;
        }
        assert(lines.take(lines.len() as int) == lines);
        r
    }

    /// Empties the working area.
    pub fn clear_working(&mut self)
        ensures
            final(self).working@.len() == 0,
            final(self).session_id == old(self).session_id,
            final(self).modality == old(self).modality,
            final(self).system == old(self).system,
            final(self).retrieval == old(self).retrieval,
            final(self).history_summary == old(self).history_summary,
            final(self).history == old(self).history,
            final(self).config == old(self).config,
    {
        self.working.clear();
    }

    /// Moves the working area, in order, to the end of the history.
    pub fn flush_working_to_history(&mut self)
        ensures
            final(self).history@ == old(self).history@ + old(self).working@,
            final(self).working@.len() == 0,
            final(self).session_id == old(self).session_id,
            final(self).modality == old(self).modality,
            final(self).system == old(self).system,
            final(self).retrieval == old(self).retrieval,
            final(self).history_summary == old(self).history_summary,
            final(self).config == old(self).config,
    {
        let mut moved: Vec<Message> = Vec::new();
        std::mem::swap(&mut moved, &mut self.working);
        let ghost h0 = self.history@;
        let ghost all = moved@;
        assert(all.take(0) == Seq::<Message>::empty());
        assert(all.take(all.len() as int) == all);
        for m in it: moved
            invariant
                it.seq() == all,
                self.history@ == h0 + all.take(it.index() as int),
                self.working@.len() == 0,
                self.session_id == old(self).session_id,
                self.modality == old(self).modality,
                self.system == old(self).system,
                self.retrieval == old(self).retrieval,
                self.history_summary == old(self).history_summary,
                self.config == old(self).config,
        {
            self.history.push_back(m);
            assert(all.take(it.index() + 1) == all.take(it.index() as int).push(m));
        }
    }

    /// Drops the oldest history messages until at most
    /// `config.min_history_messages` remain; no other layer changes.
    pub fn truncate_history(&mut self)
        ensures
            final(self).history@ == if old(self).history@.len() > old(
                self,
            ).config.min_history_messages {
                old(self).history@.skip(
                    old(self).history@.len() - old(self).config.min_history_messages,
                )
            } else {
                old(self).history@
            },
            final(self).session_id == old(self).session_id,
            final(self).modality == old(self).modality,
            final(self).system == old(self).system,
            final(self).retrieval == old(self).retrieval,
            final(self).history_summary == old(self).history_summary,
            final(self).working == old(self).working,
            final(self).config == old(self).config,
    {
        let min_messages = self.config.min_history_messages;
        let ghost h0 = self.history@;
        let ghost mut dropped: int = 0;
        while self.history.len() > min_messages
            invariant
                min_messages == self.config.min_history_messages,
                self.session_id == old(self).session_id,
                self.modality == old(self).modality,
                self.system == old(self).system,
                self.retrieval == old(self).retrieval,
                self.history_summary == old(self).history_summary,
                self.working == old(self).working,
                self.config == old(self).config,
                h0 == old(self).history@,
                0 <= dropped <= h0.len(),
                self.history@ == h0.skip(dropped),
                h0.len() > min_messages ==> dropped <= h0.len() - min_messages,
                h0.len() <= min_messages ==> dropped == 0,
            decreases self.history@.len(),
        {
            self.history.pop_front();
            proof {
                dropped = dropped + 1;
                assert(h0.skip(dropped - 1).subrange(1, h0.skip(dropped - 1).len() as int)
                    =~= h0.skip(dropped));
            }
        }
        assert(h0.skip(0) == h0);
    }

    /// Estimated tokens of the context: a quarter of the number of characters
    /// of every system, summary, retrieval, history and working text, each
    /// rounded down.
    pub fn estimate_tokens(&self) -> (r: usize)
        requires
            context_tokens(*self) <= usize::MAX,
        ensures
            r == context_tokens(*self),
    {
        let ghost bound = context_tokens(*self);
        let mut total: usize = add_message_tokens(0, &self.system, Ghost(bound));
        if let Some(summary) = &self.history_summary {
            total = total + tokens_of(summary);
        }
        let mut i: usize = 0;
        while i < self.retrieval.len()
            invariant
                i <= self.retrieval@.len(),
                bound == context_tokens(*self),
                bound <= usize::MAX,
                total == message_tokens(self.system@) + summary_tokens(self.history_summary)
                    + retrieval_tokens(self.retrieval@.take(i as int)),
            decreases self.retrieval@.len() - i,
        {
            proof {
                assert(self.retrieval@.take(i + 1).drop_last() == self.retrieval@.take(i as int));
                lemma_retrieval_tokens_prefix(self.retrieval@, i + 1, self.retrieval@.len() as int);
                assert(self.retrieval@.take(self.retrieval@.len() as int) == self.retrieval@);
            }
            total = total + tokens_of(&self.retrieval[i].content);
            i = i + 1;
        }
        assert(self.retrieval@.take(self.retrieval@.len() as int) == self.retrieval@);
        let mut j: usize = 0;
        while j < self.history.len()
            invariant
                j <= self.history@.len(),
                bound == context_tokens(*self),
                bound <= usize::MAX,
                total == message_tokens(self.system@) + summary_tokens(self.history_summary)
                    + retrieval_tokens(self.retrieval@) + message_tokens(
                    self.history@.take(j as int),
                ),
            decreases self.history@.len() - j,
        {
            proof {
                assert(self.history@.take(j + 1).drop_last() == self.history@.take(j as int));
                lemma_message_tokens_prefix(self.history@, j + 1, self.history@.len() as int);
                assert(self.history@.take(self.history@.len() as int) == self.history@);
            }
            total = total + tokens_of(&self.history[j].content);
            j = j + 1;
        }
        assert(self.history@.take(self.history@.len() as int) == self.history@);
        add_message_tokens(total, &self.working, Ghost(bound))
    }
}

} // verus!
