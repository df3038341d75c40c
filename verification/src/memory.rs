//! Short-term memory (sliding-window trimming of the history), session
//! summaries (the prompt that asks for one and the collection of the reply)
//! and the records of long-term memory.

use crate::context::{messages_view, Message};
use crate::fields::{lookup, JsonFields};
use crate::text::{
    concat2, concat3, contains_part, has_suffix, join_seq, lemma_contains_extend, lemma_contains_three,
    lemma_suffix_of_concat, trim_seq, trim_text,
};
use crate::types::{
    llm_messages_view, LlmMessage, LlmRequest, LlmStreamChunk, MessageRole, MessageView,
    ToolDefinition,
};
use vstd::prelude::*;

verus! {

// ---------------------------------------------------------------------------
// Short-term memory
// ---------------------------------------------------------------------------

/// Sliding-window trimming of the conversation history.
#[derive(Debug, Clone)]
pub struct ShortTermMemory {
    /// Window size; 0 means no limit.
    max_messages: usize,
    /// Messages kept when the window overflows.
    min_messages: usize,
}

/// The trimmed history: unchanged within the window (or without a window);
/// otherwise the last `min` messages, whatever their role (all of them if
/// fewer), in order.
pub open spec fn trimmed_history(max: nat, min: nat, h: Seq<MessageView>) -> Seq<MessageView> {
    if max == 0 || h.len() <= max {
        h
    } else {
        let keep = if min < h.len() {
            min
        } else {
            h.len()
        };
        h.skip(h.len() - keep)
    }
}

impl ShortTermMemory {
    /// Window size.
    pub closed spec fn spec_max_messages(&self) -> nat {
        self.max_messages as nat
    }

    /// Messages kept on overflow.
    pub closed spec fn spec_min_messages(&self) -> nat {
        self.min_messages as nat
    }

    /// A window of `max_messages` that keeps two messages on overflow.
    pub fn new(max_messages: usize) -> (m: Self)
        ensures
            m.spec_max_messages() == max_messages,
            m.spec_min_messages() == 2,
    {
        ShortTermMemory { max_messages, min_messages: 2 }
    }

    /// The same window, keeping `min_messages` messages on overflow.
    pub fn with_min_messages(self, min_messages: usize) -> (m: Self)
        ensures
            m.spec_max_messages() == self.spec_max_messages(),
            m.spec_min_messages() == min_messages,
    {
        ShortTermMemory { min_messages, ..self }
    }

    /// Trims a history to the window.
    pub fn trim(&self, history: &[Message]) -> (r: Vec<Message>)
        ensures
            messages_view(r@) == trimmed_history(
                self.spec_max_messages(),
                self.spec_min_messages(),
                messages_view(history@),
            ),
    {
        let ghost hv = messages_view(history@);
        if self.max_messages == 0 || history.len() <= self.max_messages {
            let mut out: Vec<Message> = Vec::new();
            let mut i: usize = 0;
            while i < history.len()
                invariant
                    i <= history@.len(),
                    out@.len() == i,
                    forall|k: int| 0 <= k < i ==> #[trigger] out@[k]@ == history@[k]@,
                decreases history.len() - i,
            {
                out.push(history[i].clone());
                i = i + 1;
            }
            assert(messages_view(out@) =~= hv);
            return out;
        }
        let keep = if self.min_messages < history.len() {
            self.min_messages
        } else {
            history.len()
        };
        let start = history.len() - keep;
        let ghost tail = hv.skip(start as int);
        let mut out: Vec<Message> = Vec::new();
        let mut i: usize = start;
        while i < history.len()
            invariant
                start <= i <= history@.len(),
                hv == messages_view(history@),
                tail == hv.skip(start as int),
                messages_view(out@) == tail.take(i - start),
            decreases history.len() - i,
        {
            let m = &history[i];
            proof {
                assert(tail.take(i + 1 - start) == tail.take(i - start).push(history@[i as int]@));
            }
            out.push(m.clone());
            assert(messages_view(out@) =~= tail.take(i - start).push(m@));
            i = i + 1;
        }
        assert(tail.take(history.len() - start) == tail);
        out
    }
}

/// A trimmed history holds at most `max(max, min)` messages when there is a
/// window: the history never grows without bound.
pub proof fn lemma_trim_bounded(max: nat, min: nat, h: Seq<MessageView>)
    requires
        max > 0,
    ensures
        trimmed_history(max, min, h).len() <= if max < min {
            min
        } else {
            max
        },
{
    if h.len() > max {
        let keep = if min < h.len() {
            min
        } else {
            h.len()
        };
        assert(h.skip(h.len() - keep).len() == keep);
    }
}

/// Trimming a trimmed history changes nothing.
pub proof fn lemma_trim_idempotent(max: nat, min: nat, h: Seq<MessageView>)
    ensures
        trimmed_history(max, min, trimmed_history(max, min, h)) == trimmed_history(max, min, h),
{
    let t = trimmed_history(max, min, h);
    if !(max == 0 || h.len() <= max) {
        let keep = if min < h.len() {
            min
        } else {
            h.len()
        };
        assert(t.len() == keep);
        if t.len() > max {
            assert(t.skip(0) == t);
        }
    }
}

// ---------------------------------------------------------------------------
// Session summaries
// ---------------------------------------------------------------------------

/// Output limit of a summary request.
pub const SUMMARY_MAX_TOKENS: usize = 200;

/// Sampling temperature of a summary request, in thousandths.
pub const SUMMARY_TEMPERATURE_MILLI: u32 = 300;

/// Debug name of a role.
pub open spec fn role_debug_name(r: MessageRole) -> Seq<char> {
    match r {
        MessageRole::System => "System"@,
        MessageRole::User => "User"@,
        MessageRole::Assistant => "Assistant"@,
        MessageRole::Tool => "Tool"@,
    }
}

/// Distinct roles have distinct names in a transcript, so each line tells
/// whose message it is.
pub proof fn lemma_role_debug_names_distinct(r1: MessageRole, r2: MessageRole)
    ensures
        role_debug_name(r1) == role_debug_name(r2) ==> r1 == r2,
{
    reveal_strlit("System");
    reveal_strlit("User");
    reveal_strlit("Assistant");
    reveal_strlit("Tool");
    if role_debug_name(r1) == role_debug_name(r2) && r1 != r2 {
        assert(role_debug_name(r1).len() != role_debug_name(r2).len() || role_debug_name(r1)[0]
            != role_debug_name(r2)[0]);
    }
}

/// The transcript line of a message: `Role: content`.
pub open spec fn transcript_line(m: MessageView) -> Seq<char> {
    role_debug_name(m.role) + ": "@ + m.content
}

/// The transcript of a conversation, one line per message.
pub open spec fn transcript(h: Seq<MessageView>) -> Seq<char> {
    join_seq(h.map_values(|m: MessageView| transcript_line(m)), "\n"@)
}

/// The prompt that asks for a summary: a fresh one, or a revision of the
/// existing summary.
pub open spec fn summary_prompt_text(h: Seq<MessageView>, existing: Option<Seq<char>>) -> Seq<char> {
    match existing {
        Some(e) => "以下是客户的历史摘要和最新对话，请修正并合并为不超过100字的最新摘要：\n\n已有摘要："@ + e
            + "\n\n最新对话：\n"@ + transcript(h),
        None => "请将以下对话总结为不超过100字的结构化摘要（包含客户意图和关键事实）：\n\n"@ + transcript(h),
    }
}

/// The summary prompt ends with the whole transcript of the conversation; a
/// revision also carries the existing summary, between its label and the
/// transcript's label.
pub proof fn lemma_summary_prompt_parts(h: Seq<MessageView>, existing: Option<Seq<char>>)
    ensures
        has_suffix(summary_prompt_text(h, existing), transcript(h)),
        existing matches Some(e) ==> contains_part(
            summary_prompt_text(h, existing),
            "已有摘要："@ + e + "\n\n最新对话：\n"@,
        ),
{
    match existing {
        Some(e) => {
            let head = "以下是客户的历史摘要和最新对话，请修正并合并为不超过100字的最新摘要：\n\n已有摘要："@;
            let intro = "以下是客户的历史摘要和最新对话，请修正并合并为不超过100字的最新摘要：\n\n"@;
            let label = "已有摘要："@;
            let l2 = "\n\n最新对话：\n"@;
            assert(head =~= intro + label) by {
                reveal_strlit("以下是客户的历史摘要和最新对话，请修正并合并为不超过100字的最新摘要：\n\n已有摘要：");
                reveal_strlit("以下是客户的历史摘要和最新对话，请修正并合并为不超过100字的最新摘要：\n\n");
                reveal_strlit("已有摘要：");
            }
            lemma_suffix_of_concat(head + e + l2, transcript(h));
            lemma_contains_three(intro, label, e, l2);
            lemma_contains_extend(intro + label + e + l2, label + e + l2, transcript(h));
        },
        None => {
            lemma_suffix_of_concat(
                "请将以下对话总结为不超过100字的结构化摘要（包含客户意图和关键事实）：\n\n"@,
                transcript(h),
            );
        },
    }
}

fn role_debug(r: MessageRole) -> (s: &'static str)
    ensures
        s@ == role_debug_name(r),
{
    match r {
        MessageRole::System => "System",
        MessageRole::User => "User",
        MessageRole::Assistant => "Assistant",
        MessageRole::Tool => "Tool",
    }
}

/// The transcript of a conversation.
pub fn build_transcript(history: &[LlmMessage]) -> (r: String)
    ensures
        r@ == transcript(llm_messages_view(history@)),
{
    let ghost hv = llm_messages_view(history@);
    let ghost lines = hv.map_values(|m: MessageView| transcript_line(m));
    let mut r = String::new();
    let mut i: usize = 0;
    while i < history.len()
        invariant
            i <= history@.len(),
            hv == llm_messages_view(history@),
            lines == hv.map_values(|m: MessageView| transcript_line(m)),
            r@ == join_seq(lines.take(i as int), "\n"@),
        decreases history.len() - i,
    {
        let m = &history[i];
        let line = concat3(role_debug(m.role), ": ", m.content.as_str());
        proof {
            assert(lines.take(i + 1).drop_last() == lines.take(i as int));
            assert(lines.take(i + 1).last() == lines[i as int]);
            if i == 0 {
                assert(lines.take(1) =~= seq![lines[0]]);
            }
        }
        if i > 0 {
            r.append("\n");
        }
        r.append(line.as_str());
        i = i + 1;
    }
    assert(lines.take(lines.len() as int) == lines);
    r
}

/// Builds the prompt that asks for a summary of `history`, revising
/// `existing` when there is one.
pub fn build_summary_prompt(history: &[LlmMessage], existing: Option<&str>) -> (r: String)
    ensures
        r@ == summary_prompt_text(
            llm_messages_view(history@),
            match existing {
                Some(e) => Some(e@),
                None => None,
            },
        ),
{
    let text = build_transcript(history);
    match existing {
        Some(e) => {
            let head = concat2(
                "以下是客户的历史摘要和最新对话，请修正并合并为不超过100字的最新摘要：\n\n已有摘要：",
                e,
            );
            concat3(head.as_str(), "\n\n最新对话：\n", text.as_str())
        },
        None => concat2(
            "请将以下对话总结为不超过100字的结构化摘要（包含客户意图和关键事实）：\n\n",
            text.as_str(),
        ),
    }
}

/// The request that asks the model for a summary: one user message holding
/// the prompt, no tools, at most 200 tokens, temperature 0.3, not streamed.
pub fn summary_request(history: &[LlmMessage], existing: Option<&str>) -> (req: LlmRequest)
    ensures
        req.messages@.len() == 1,
        req.messages@[0]@.role == MessageRole::User,
        req.messages@[0]@.content == summary_prompt_text(
            llm_messages_view(history@),
            match existing {
                Some(e) => Some(e@),
                None => None,
            },
        ),
        req.messages@[0]@.tool_calls is None,
        req.messages@[0]@.tool_call_id is None,
        req.tools@.len() == 0,
        req.max_tokens == Some(SUMMARY_MAX_TOKENS),
        req.temperature_milli == Some(SUMMARY_TEMPERATURE_MILLI),
        !req.stream,
{
    let prompt = build_summary_prompt(history, existing);
    let mut messages: Vec<LlmMessage> = Vec::new();
    messages.push(
        LlmMessage { role: MessageRole::User, content: prompt, tool_calls: None, tool_call_id: None },
    );
    let tools: Vec<ToolDefinition> = Vec::new();
    LlmRequest {
        messages,
        tools,
        max_tokens: Some(SUMMARY_MAX_TOKENS),
        temperature_milli: Some(SUMMARY_TEMPERATURE_MILLI),
        stream: false,
    }
}

/// Collects a summary from the model's streamed reply.
#[derive(Debug)]
pub struct SummaryCollector {
    /// Text so far.
    pub text: String,
}

/// Whether a chunk ends the collection: the end of the reply does.
pub open spec fn ends_summary(c: LlmStreamChunk) -> bool {
    c is Done
}

/// The text after a chunk: text chunks are appended, all others ignored.
pub open spec fn summary_step(t: Seq<char>, c: LlmStreamChunk) -> Seq<char> {
    match c {
        LlmStreamChunk::Content(x) => t + x@,
        _ => t,
    }
}

impl SummaryCollector {
    /// No text yet.
    pub fn new() -> (c: Self)
        ensures
            c.text@ == Seq::<char>::empty(),
    {
        SummaryCollector { text: String::new() }
    }

    /// Takes one chunk; returns whether the reply has ended.
    pub fn on_chunk(&mut self, chunk: &LlmStreamChunk) -> (done: bool)
        ensures
            final(self).text@ == summary_step(old(self).text@, *chunk),
            done == ends_summary(*chunk),
    {
        match chunk {
            LlmStreamChunk::Content(x) => {
                self.text.append(x.as_str());
                false
            },
            LlmStreamChunk::Done { .. } => true,
            _ => false,
        }
    }

    /// The summary: the collected text without surrounding white space.
    pub fn finish(&self) -> (r: String)
        ensures
            r@ == trim_seq(self.text@),
    {
        trim_text(self.text.as_str())
    }
}

// ---------------------------------------------------------------------------
// Long-term memory records
// ---------------------------------------------------------------------------

/// The record id of a session summary: `summary:{session}:{customer}`.
pub open spec fn summary_key_text(session_id: Seq<char>, customer_id: Seq<char>) -> Seq<char> {
    "summary:"@ + session_id + ":"@ + customer_id
}

/// Builds the record id of a session summary.
pub fn summary_key(session_id: &str, customer_id: &str) -> (r: String)
    ensures
        r@ == summary_key_text(session_id@, customer_id@),
{
    let head = concat3("summary:", session_id, ":");
    concat2(head.as_str(), customer_id)
}

/// Deleting the summary of a session of a customer removes it for good:
/// when every stored summary sits under the key of its own session and
/// customer, no summary of that session and customer remains, so a search
/// finds none, and every other stored summary stays as it was.
pub proof fn lemma_delete_summary(
    before: Map<Seq<char>, (Seq<char>, Seq<char>)>,
    after: Map<Seq<char>, (Seq<char>, Seq<char>)>,
    session: Seq<char>,
    customer: Seq<char>,
)
    requires
        forall|k: Seq<char>|
            #[trigger] before.contains_key(k) ==> k == summary_key_text(before[k].0, before[k].1),
        after == before.remove(summary_key_text(session, customer)),
    ensures
        forall|k: Seq<char>|
            #[trigger] after.contains_key(k) ==> !(after[k].0 == session && after[k].1 == customer),
        forall|k: Seq<char>|
            #[trigger] before.contains_key(k) && k != summary_key_text(session, customer)
                ==> after.contains_key(k) && after[k] == before[k],
{
}

/// The metadata stored with a summary: its session, its customer and its
/// text.
pub fn summary_metadata(session_id: &str, customer_id: &str, summary: &str) -> (f: JsonFields)
    ensures
        f.entries@.len() == 3,
        f.entries@[0].0@ == "session_id"@ && f.entries@[0].1@ == session_id@,
        f.entries@[1].0@ == "customer_id"@ && f.entries@[1].1@ == customer_id@,
        f.entries@[2].0@ == "summary"@ && f.entries@[2].1@ == summary@,
{
    let mut f = JsonFields::new();
    f.insert(String::from_str("session_id"), String::from_str(session_id));
    f.insert(String::from_str("customer_id"), String::from_str(customer_id));
    f.insert(String::from_str("summary"), String::from_str(summary));
    f
}

/// A summary found for a customer: the position of the search hit it comes
/// from, its session and its text.
#[derive(Debug)]
pub struct SummaryHit {
    pub index: usize,
    pub session_id: String,
    pub summary: String,
}

/// The session and text of a hit that belongs to `customer`: its metadata
/// names the customer and holds both a session and a summary.
pub open spec fn hit_summary(f: Seq<(String, String)>, customer: Seq<char>) -> Option<
    (Seq<char>, Seq<char>),
> {
    if lookup(f, "customer_id"@) == Some(customer) && lookup(f, "session_id"@) is Some && lookup(
        f,
        "summary"@,
    ) is Some {
        Some((lookup(f, "session_id"@).unwrap(), lookup(f, "summary"@).unwrap()))
    } else {
        None
    }
}

/// The summaries of the hits that belong to `customer`, in hit order, each
/// with the position of its hit.
pub open spec fn selected_summaries(hits: Seq<JsonFields>, customer: Seq<char>) -> Seq<
    (int, Seq<char>, Seq<char>),
>
    decreases hits.len(),
{
    if hits.len() == 0 {
        Seq::empty()
    } else {
        let rest = selected_summaries(hits.drop_last(), customer);
        match hit_summary(hits.last().entries@, customer) {
            Some((s, t)) => rest.push((hits.len() - 1, s, t)),
            None => rest,
        }
    }
}

/// Abstract value of a list of found summaries.
pub open spec fn hits_view(v: Seq<SummaryHit>) -> Seq<(int, Seq<char>, Seq<char>)> {
    v.map_values(|h: SummaryHit| (h.index as int, h.session_id@, h.summary@))
}

/// Keeps the search hits whose metadata belongs to `customer_id` and has a
/// session and a summary; the search itself covers all customers.
pub fn select_summaries(hits: &Vec<JsonFields>, customer_id: &str) -> (r: Vec<SummaryHit>)
    ensures
        hits_view(r@) == selected_summaries(hits@, customer_id@),
{
    let mut out: Vec<SummaryHit> = Vec::new();
    let mut i: usize = 0;
    while i < hits.len()
        invariant
            i <= hits@.len(),
            hits_view(out@) == selected_summaries(hits@.take(i as int), customer_id@),
        decreases hits.len() - i,
    {
        let f = &hits[i];
        proof {
            assert(hits@.take(i + 1).drop_last() == hits@.take(i as int));
            assert(hits@.take(i + 1).last() == hits@[i as int]);
        }
        let owner = f.get_str("customer_id");
        let session = f.get_str("session_id");
        let text = f.get_str("summary");
        let belongs = match &owner {
            Some(o) => crate::text::same_text(o.as_str(), customer_id),
            None => false,
        };
        if belongs {
            match (session, text) {
                (Some(s), Some(t)) => {
                    let ghost before = out@;
                    out.push(SummaryHit { index: i, session_id: s, summary: t });
                    assert(hits_view(out@) =~= hits_view(before).push((i as int, s@, t@)));
                },
                _ => {},
            }
        }
        i = i + 1;
    }
    assert(hits@.take(hits@.len() as int) == hits@);
    out
}

} // verus!
