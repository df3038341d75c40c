//! Decisions of the agent loop. One customer message is handled in rounds: a
//! round asks the model, streams its reply and runs the tools it calls; the
//! loop ends when the model replies without tool calls, when its stream
//! reports an error, when the round limit is reached, or when the time limit
//! is reached. This module holds the state
//! of that loop and every decision in it; the caller performs the model calls,
//! the tool executions and the event delivery.

use crate::config::AgentConfig;
use crate::context::{
    message_value, messages_view, prompt_of, retrieval_part, summary_part, system_part, working_part,
    AgentEvent, AgentInput, Context, Message,
};
use crate::error::{error_text, AgentError};
use crate::fields::{json_parse, parse_json};
use crate::text::{concat2, same_text};
use crate::types::{
    calls_view, clone_call_list, KnowledgeResult, LlmMessage, LlmRequest, LlmStreamChunk,
    MessageRole, MessageView, ToolCall, ToolCallView, ToolDefinition,
};
use vstd::prelude::*;

verus! {

/// Sampling temperature of the agent's model calls, in thousandths.
pub const AGENT_TEMPERATURE_MILLI: u32 = 700;

/// Knowledge hits looked up for the customer's message before the first
/// round.
pub const RETRIEVAL_LIMIT: usize = 3;

/// The knowledge lookup made before the first round, when a knowledge base
/// is attached: the customer's message text as the query, and at most
/// `RETRIEVAL_LIMIT` hits.
pub fn retrieval_query(input: &AgentInput) -> (q: (String, usize))
    ensures
        q.0@ == input.message.content@,
        q.1 == RETRIEVAL_LIMIT,
{
    (input.message.content.clone(), RETRIEVAL_LIMIT)
}

/// Accumulated state of one streamed model reply.
#[derive(Debug)]
pub struct StreamTurn {
    /// Reply text so far.
    pub content: String,
    /// Tool calls completed so far.
    pub tool_calls: Vec<ToolCall>,
    /// The tool call being streamed.
    pub current: Option<ToolCall>,
}

/// Abstract value of a streamed reply.
pub struct TurnView {
    pub content: Seq<char>,
    pub calls: Seq<ToolCallView>,
    pub current: Option<ToolCallView>,
}

impl View for StreamTurn {
    type V = TurnView;

    open spec fn view(&self) -> TurnView {
        TurnView {
            content: self.content@,
            calls: calls_view(self.tool_calls@),
            current: match self.current {
                Some(c) => Some(c@),
                None => None,
            },
        }
    }
}

/// The reply state before any chunk.
pub open spec fn empty_turn() -> TurnView {
    TurnView { content: Seq::empty(), calls: Seq::empty(), current: None }
}

/// Effect of one chunk on the reply state: text is appended; a tool-call
/// start opens a call with empty arguments; argument text is appended to the
/// open call, if any; the end of the reply closes the open call, if any.
pub open spec fn turn_step(t: TurnView, c: LlmStreamChunk) -> TurnView {
    match c {
        LlmStreamChunk::Content(x) => TurnView { content: t.content + x@, ..t },
        LlmStreamChunk::ToolCallStart { id, name } => TurnView {
            current: Some(ToolCallView { id: id@, name: name@, arguments: Seq::empty() }),
            ..t
        },
        LlmStreamChunk::ToolCallDelta { arguments } => match t.current {
            Some(tc) => TurnView {
                current: Some(ToolCallView { arguments: tc.arguments + arguments@, ..tc }),
                ..t
            },
            None => t,
        },
        LlmStreamChunk::Done { .. } => match t.current {
            Some(tc) => TurnView { calls: t.calls.push(tc), current: None, ..t },
            None => t,
        },
        LlmStreamChunk::Error(_) => t,
    }
}

/// The reply state after a sequence of chunks.
pub open spec fn turn_of(chunks: Seq<LlmStreamChunk>) -> TurnView
    decreases chunks.len(),
{
    if chunks.len() == 0 {
        empty_turn()
    } else {
        turn_step(turn_of(chunks.drop_last()), chunks.last())
    }
}

/// The concatenated text of the text chunks of a sequence.
pub open spec fn streamed_text(chunks: Seq<LlmStreamChunk>) -> Seq<char>
    decreases chunks.len(),
{
    if chunks.len() == 0 {
        Seq::empty()
    } else {
        match chunks.last() {
            LlmStreamChunk::Content(x) => streamed_text(chunks.drop_last()) + x@,
            _ => streamed_text(chunks.drop_last()),
        }
    }
}

/// What the loop does with one chunk.
#[derive(Debug)]
pub enum ChunkOutcome {
    /// Nothing to emit; read the next chunk.
    Continue,
    /// Emit the event, then read the next chunk.
    Emit(AgentEvent),
    /// Emit the event and end the handling of the message successfully.
    Stop(AgentEvent),
}

/// The outcome of a chunk: text is emitted as a token, an error is emitted
/// and stops the handling, everything else is absorbed.
pub open spec fn chunk_outcome(c: LlmStreamChunk) -> ChunkOutcome {
    match c {
        LlmStreamChunk::Content(x) => ChunkOutcome::Emit(AgentEvent::Token(x)),
        LlmStreamChunk::Error(e) => ChunkOutcome::Stop(AgentEvent::Error(e)),
        _ => ChunkOutcome::Continue,
    }
}

impl StreamTurn {
    /// The state before any chunk.
    pub fn new() -> (t: Self)
        ensures
            t@ == empty_turn(),
    {
        let t = StreamTurn { content: String::new(), tool_calls: Vec::new(), current: None };
        assert(calls_view(t.tool_calls@) =~= Seq::<ToolCallView>::empty());
        t
    }

    /// Applies one chunk of the model's reply.
    pub fn on_chunk(&mut self, chunk: LlmStreamChunk) -> (r: ChunkOutcome)
        ensures
            final(self)@ == turn_step(old(self)@, chunk),
            r == chunk_outcome(chunk),
    {
        match chunk {
            LlmStreamChunk::Content(text) => {
                self.content.append(text.as_str());
                ChunkOutcome::Emit(AgentEvent::Token(text))
            },
            LlmStreamChunk::ToolCallStart { id, name } => {
                self.current = Some(ToolCall { id, name, arguments: String::new() });
                ChunkOutcome::Continue
            },
            LlmStreamChunk::ToolCallDelta { arguments } => {
                match self.current.take() {
                    Some(mut tc) => {
                        tc.arguments.append(arguments.as_str());
                        self.current = Some(tc);
                    },
                    None => {},
                }
                ChunkOutcome::Continue
            },
            LlmStreamChunk::Done { .. } => {
                match self.current.take() {
                    Some(tc) => {
                        self.tool_calls.push(tc);
                        assert(calls_view(self.tool_calls@) =~= calls_view(
                            old(self).tool_calls@,
                        ).push(tc@));
                    },
                    None => {},
                }
                ChunkOutcome::Continue
            },
            LlmStreamChunk::Error(e) => ChunkOutcome::Stop(AgentEvent::Error(e)),
        }
    }
}

/// The reply text accumulated over a stream is the concatenation of its text
/// chunks, in order.
pub proof fn lemma_turn_text(chunks: Seq<LlmStreamChunk>)
    ensures
        turn_of(chunks).content == streamed_text(chunks),
    decreases chunks.len(),
{
    if chunks.len() > 0 {
        lemma_turn_text(chunks.drop_last());
    }
}

/// A completed tool call is never lost: the calls recorded after more chunks
/// extend the calls recorded before them.
pub proof fn lemma_turn_calls_grow(chunks: Seq<LlmStreamChunk>, more: Seq<LlmStreamChunk>)
    ensures
        turn_of(chunks).calls.is_prefix_of(turn_of(chunks + more).calls),
    decreases more.len(),
{
    if more.len() == 0 {
        assert(chunks + more == chunks);
    } else {
        lemma_turn_calls_grow(chunks, more.drop_last());
        assert((chunks + more).drop_last() == chunks + more.drop_last());
    }
}

/// What happened when a requested tool was looked up and run.
#[derive(Debug)]
pub enum ToolOutcome {
    /// No registered tool has the requested name.
    Missing,
    /// The tool returned this result text.
    Finished(String),
    /// The tool failed with this error.
    Failed(AgentError),
}

/// The result text the model sees for a tool call.
pub open spec fn tool_result_text(name: Seq<char>, outcome: ToolOutcome) -> Seq<char> {
    match outcome {
        ToolOutcome::Missing => "工具不存在: "@ + name,
        ToolOutcome::Finished(r) => r@,
        ToolOutcome::Failed(e) => "工具执行失败: "@ + error_text(e),
    }
}

/// Index of the first tool name equal to `name`.
pub fn find_tool(names: &Vec<String>, name: &str) -> (r: Option<usize>)
    ensures
        r matches Some(i) ==> i < names@.len() && names@[i as int]@ == name@ && forall|k: int|
            0 <= k < i ==> names@[k]@ != name@,
        r is None ==> forall|k: int| 0 <= k < names@.len() ==> names@[k]@ != name@,
{
    let mut i: usize = 0;
    while i < names.len()
        invariant
            i <= names@.len(),
            forall|k: int| 0 <= k < i ==> names@[k]@ != name@,
        decreases names.len() - i,
    {
        if same_text(names[i].as_str(), name) {
            return Some(i);
        }
        i = i + 1;
    }
    None
}

/// The arguments of a tool call: the JSON value of the text that the model
/// wrote. Text that is not JSON is a serialization error, which ends the
/// handling of the message.
pub fn tool_arguments(arguments: &str) -> (r: Result<serde_json::Value, AgentError>)
    ensures
        match json_parse(arguments@) {
            Ok(v) => r matches Ok(x) && x == v,
            Err(e) => r matches Err(AgentError::Serialization(x)) && x == e,
        },
{
    match parse_json(arguments) {
        Ok(v) => Ok(v),
        Err(e) => Err(AgentError::Serialization(e)),
    }
}

/// The text that reports a failed handling to a remote caller.
pub fn agent_failure_text(e: &AgentError) -> (r: String)
    ensures
        r@ == "Agent 处理错误: "@ + error_text(*e),
{
    let m = e.message();
    concat2("Agent 处理错误: ", m.as_str())
}

/// The event announcing that a tool call starts.
pub fn tool_started(call: &ToolCall) -> (e: AgentEvent)
    ensures
        e == (AgentEvent::ToolCallStart {
            tool_name: call.name,
            arguments: call.arguments,
        }),
{
    AgentEvent::ToolCallStart { tool_name: call.name.clone(), arguments: call.arguments.clone() }
}

/// Builds the result text of a tool call.
pub fn render_tool_result(name: &str, outcome: &ToolOutcome) -> (r: String)
    ensures
        r@ == tool_result_text(name@, *outcome),
{
    match outcome {
        ToolOutcome::Missing => concat2("工具不存在: ", name),
        ToolOutcome::Finished(text) => text.clone(),
        ToolOutcome::Failed(e) => {
            let m = e.message();
            concat2("工具执行失败: ", m.as_str())
        },
    }
}

/// Why the handling of a message ended.
pub enum StopCause {
    /// It has not ended.
    Running,
    /// The model replied without calling a tool.
    Replied,
    /// `max_rounds` rounds were completed.
    RoundLimit,
    /// The time limit was reached.
    TimeLimit,
    /// The model's stream reported an error.
    StreamError,
}

/// The tool messages that answer the calls `cs` with the result texts `rs`,
/// one per result, in order.
pub open spec fn tool_messages(cs: Seq<ToolCallView>, rs: Seq<Seq<char>>) -> Seq<MessageView> {
    Seq::new(
        rs.len(),
        |j: int| message_value(MessageRole::Tool, rs[j], None, Some(cs[j].id)),
    )
}

/// The assistant message that carries a reply and the calls it made.
pub open spec fn call_message(reply: Seq<char>, cs: Seq<ToolCallView>) -> MessageView {
    message_value(MessageRole::Assistant, reply, Some(cs), None)
}

/// The history after a tool round: the history the round started from, the
/// assistant's message with its calls, then one tool message per call with
/// its result, in call order.
pub open spec fn after_tool_round(
    start: Seq<MessageView>,
    reply: Seq<char>,
    cs: Seq<ToolCallView>,
    rs: Seq<Seq<char>>,
) -> Seq<MessageView> {
    start.push(call_message(reply, cs)) + tool_messages(cs, rs)
}

/// A completed tool round: the history it started from, the reply text, the
/// calls and their result texts.
pub struct ToolRoundView {
    pub start: Seq<MessageView>,
    pub reply: Seq<char>,
    pub calls: Seq<ToolCallView>,
    pub results: Seq<Seq<char>>,
}

/// The messages that stay in front of the history in every request: system,
/// summary and retrieval.
pub open spec fn fixed_part(ctx: Context) -> Seq<MessageView> {
    system_part(ctx.system@) + summary_part(ctx.history_summary) + retrieval_part(ctx.retrieval@)
}

// ---------------------------------------------------------------------------
// The events of a handling
// ---------------------------------------------------------------------------

/// Abstract value of an event.
pub enum EventView {
    StreamStart,
    Token(Seq<char>),
    StreamEnd,
    ToolCallStart { tool_name: Seq<char>, arguments: Seq<char> },
    ToolCallEnd { tool_name: Seq<char>, result: Seq<char> },
    TransferToHuman(Seq<char>),
    Error(Seq<char>),
}

/// Abstract value of an event.
pub open spec fn event_view(e: AgentEvent) -> EventView {
    match e {
        AgentEvent::StreamStart => EventView::StreamStart,
        AgentEvent::Token(t) => EventView::Token(t@),
        AgentEvent::StreamEnd => EventView::StreamEnd,
        AgentEvent::ToolCallStart { tool_name, arguments } => EventView::ToolCallStart {
            tool_name: tool_name@,
            arguments: arguments@,
        },
        AgentEvent::ToolCallEnd { tool_name, result } => EventView::ToolCallEnd {
            tool_name: tool_name@,
            result: result@,
        },
        AgentEvent::TransferToHuman { reason } => EventView::TransferToHuman(reason@),
        AgentEvent::Error(e) => EventView::Error(e@),
    }
}

/// One token event per text chunk, in order.
pub open spec fn token_events(chunks: Seq<LlmStreamChunk>) -> Seq<EventView>
    decreases chunks.len(),
{
    if chunks.len() == 0 {
        Seq::empty()
    } else {
        token_events(chunks.drop_last()) + match chunks.last() {
            LlmStreamChunk::Content(x) => seq![EventView::Token(x@)],
            _ => Seq::empty(),
        }
    }
}

/// Whether a tool name is among the registered names.
pub open spec fn listed(names: Seq<Seq<char>>, name: Seq<char>) -> bool {
    exists|k: int| 0 <= k < names.len() && names[k] == name
}

/// The events of the first `n` answered calls: for each, its start when the
/// tool was found, then its end with the result.
pub open spec fn tool_events(
    cs: Seq<ToolCallView>,
    started: Seq<bool>,
    rs: Seq<Seq<char>>,
    n: nat,
) -> Seq<EventView>
    decreases n,
{
    if n == 0 {
        Seq::empty()
    } else {
        let j = n - 1;
        tool_events(cs, started, rs, (n - 1) as nat) + (if started[j] {
            seq![EventView::ToolCallStart { tool_name: cs[j].name, arguments: cs[j].arguments }]
        } else {
            Seq::empty()
        }) + seq![EventView::ToolCallEnd { tool_name: cs[j].name, result: rs[j] }]
    }
}

/// What happened in one round: the chunks taken (an error chunk that ended
/// the handling apart), whether the stream ended, the calls, for each call
/// looked up whether its tool was found and among which names, and the
/// results recorded.
pub struct RoundTrace {
    pub chunks: Seq<LlmStreamChunk>,
    pub error: Option<Seq<char>>,
    pub ended: bool,
    pub calls: Seq<ToolCallView>,
    pub started: Seq<bool>,
    pub names: Seq<Seq<Seq<char>>>,
    pub results: Seq<Seq<char>>,
}

/// The events of a round: its start, a token per text chunk, then either the
/// error that ended the handling, or the end of the stream followed, call by
/// call in order, by the call's start when its tool was found and its end.
pub open spec fn trace_events(t: RoundTrace) -> Seq<EventView> {
    seq![EventView::StreamStart] + token_events(t.chunks) + match t.error {
        Some(e) => seq![EventView::Error(e)],
        None => if t.ended {
            seq![EventView::StreamEnd] + tool_events(t.calls, t.started, t.results, t.results.len())
                + if t.started.len() > t.results.len() && t.started[t.results.len() as int] {
                seq![
                    EventView::ToolCallStart {
                        tool_name: t.calls[t.results.len() as int].name,
                        arguments: t.calls[t.results.len() as int].arguments,
                    },
                ]
            } else {
                Seq::empty()
            }
        } else {
            Seq::empty()
        },
    }
}

/// The events of a sequence of rounds, round after round.
pub open spec fn rounds_events(ts: Seq<RoundTrace>) -> Seq<EventView>
    decreases ts.len(),
{
    if ts.len() == 0 {
        Seq::empty()
    } else {
        rounds_events(ts.drop_last()) + trace_events(ts.last())
    }
}

/// A round that ran to its end: no stream error, the stream ended, the calls
/// are those of its chunks, and every call was looked up (found exactly when
/// its name was registered) and answered.
pub open spec fn complete_round(t: RoundTrace) -> bool {
    &&& t.error is None
    &&& t.ended
    &&& t.calls == turn_of(t.chunks).calls
    &&& t.started.len() == t.calls.len()
    &&& t.names.len() == t.calls.len()
    &&& t.results.len() == t.calls.len()
    &&& forall|j: int| 0 <= j < t.calls.len() ==> #[trigger] t.started[j] == listed(t.names[j], t.calls[j].name)
}

/// A round before any chunk.
pub open spec fn fresh_trace() -> RoundTrace {
    RoundTrace {
        chunks: Seq::empty(),
        error: None,
        ended: false,
        calls: Seq::empty(),
        started: Seq::empty(),
        names: Seq::empty(),
        results: Seq::empty(),
    }
}

/// A round after one more chunk: a stream error is kept apart, any other
/// chunk is appended.
pub open spec fn chunk_trace(t: RoundTrace, c: LlmStreamChunk) -> RoundTrace {
    match c {
        LlmStreamChunk::Error(e) => RoundTrace { error: Some(e@), ..t },
        _ => RoundTrace { chunks: t.chunks.push(c), ..t },
    }
}

/// The rounds with the last one replaced.
pub open spec fn with_last(ts: Seq<RoundTrace>, t: RoundTrace) -> Seq<RoundTrace> {
    ts.update(ts.len() - 1, t)
}

/// Changing the results beyond the first `n` leaves the events of the
/// first `n` calls as they were.
proof fn lemma_tool_events_prefix(
    cs: Seq<ToolCallView>,
    s1: Seq<bool>,
    s2: Seq<bool>,
    r1: Seq<Seq<char>>,
    r2: Seq<Seq<char>>,
    n: nat,
)
    requires
        n <= s1.len(),
        n <= s2.len(),
        n <= r1.len(),
        n <= r2.len(),
        forall|j: int| 0 <= j < n ==> s1[j] == s2[j] && r1[j] == r2[j],
    ensures
        tool_events(cs, s1, r1, n) == tool_events(cs, s2, r2, n),
    decreases n,
{
    if n > 0 {
        lemma_tool_events_prefix(cs, s1, s2, r1, r2, (n - 1) as nat);
    }
}

/// Replacing the last round changes the events only in their last round.
proof fn lemma_rounds_events_last(ts: Seq<RoundTrace>, t: RoundTrace)
    requires
        ts.len() > 0,
    ensures
        rounds_events(ts.update(ts.len() - 1, t)) == rounds_events(ts.drop_last()) + trace_events(t),
        rounds_events(ts) == rounds_events(ts.drop_last()) + trace_events(ts.last()),
{
    assert(ts.update(ts.len() - 1, t).drop_last() =~= ts.drop_last());
}

/// No event of a sequence hands the customer over to a human agent.
pub open spec fn no_transfer(s: Seq<EventView>) -> bool {
    forall|i: int| 0 <= i < s.len() ==> !(#[trigger] s[i] is TransferToHuman)
}

proof fn lemma_no_transfer_concat(a: Seq<EventView>, b: Seq<EventView>)
    requires
        no_transfer(a),
        no_transfer(b),
    ensures
        no_transfer(a + b),
{
    assert forall|i: int| 0 <= i < (a + b).len() implies !(#[trigger] (a + b)[i] is TransferToHuman) by {
        if i >= a.len() {
            assert((a + b)[i] == b[i - a.len()]);
        }
    }
}

proof fn lemma_no_transfer_tokens(chunks: Seq<LlmStreamChunk>)
    ensures
        no_transfer(token_events(chunks)),
    decreases chunks.len(),
{
    if chunks.len() > 0 {
        lemma_no_transfer_tokens(chunks.drop_last());
        let tail = match chunks.last() {
            LlmStreamChunk::Content(x) => seq![EventView::Token(x@)],
            _ => Seq::empty(),
        };
        lemma_no_transfer_concat(token_events(chunks.drop_last()), tail);
    }
}

proof fn lemma_no_transfer_tools(
    cs: Seq<ToolCallView>,
    started: Seq<bool>,
    rs: Seq<Seq<char>>,
    n: nat,
)
    ensures
        no_transfer(tool_events(cs, started, rs, n)),
    decreases n,
{
    if n > 0 {
        let j = n - 1;
        lemma_no_transfer_tools(cs, started, rs, (n - 1) as nat);
        let s: Seq<EventView> = if started[j] {
            seq![EventView::ToolCallStart { tool_name: cs[j].name, arguments: cs[j].arguments }]
        } else {
            Seq::empty()
        };
        let e = seq![EventView::ToolCallEnd { tool_name: cs[j].name, result: rs[j] }];
        lemma_no_transfer_concat(tool_events(cs, started, rs, (n - 1) as nat), s);
        lemma_no_transfer_concat(tool_events(cs, started, rs, (n - 1) as nat) + s, e);
    }
}

proof fn lemma_no_transfer_rounds(ts: Seq<RoundTrace>)
    ensures
        no_transfer(rounds_events(ts)),
    decreases ts.len(),
{
    if ts.len() > 0 {
        lemma_no_transfer_rounds(ts.drop_last());
        let t = ts.last();
        lemma_no_transfer_tokens(t.chunks);
        lemma_no_transfer_tools(t.calls, t.started, t.results, t.results.len());
        let head = seq![EventView::StreamStart] + token_events(t.chunks);
        lemma_no_transfer_concat(seq![EventView::StreamStart], token_events(t.chunks));
        let ended = seq![EventView::StreamEnd] + tool_events(
            t.calls,
            t.started,
            t.results,
            t.results.len(),
        );
        lemma_no_transfer_concat(
            seq![EventView::StreamEnd],
            tool_events(t.calls, t.started, t.results, t.results.len()),
        );
        let open: Seq<EventView> = if t.started.len() > t.results.len()
            && t.started[t.results.len() as int] {
            seq![
                EventView::ToolCallStart {
                    tool_name: t.calls[t.results.len() as int].name,
                    arguments: t.calls[t.results.len() as int].arguments,
                },
            ]
        } else {
            Seq::empty()
        };
        lemma_no_transfer_concat(ended, open);
        let rest: Seq<EventView> = match t.error {
            Some(e) => seq![EventView::Error(e)],
            None => if t.ended {
                ended + open
            } else {
                Seq::empty()
            },
        };
        lemma_no_transfer_concat(head, rest);
        lemma_no_transfer_concat(rounds_events(ts.drop_last()), head + rest);
    }
}

/// The state of the handling of one customer message.
pub struct AgentRun {
    context: Context,
    round: usize,
    in_round: bool,
    finished: bool,
    /// The reply being streamed in the current round.
    turn: StreamTurn,
    /// Calls of the current round that have no result yet, in order.
    pending: Vec<ToolCall>,
    /// Whether the first waiting call has been looked up.
    begun: bool,
    /// Whether the current round's reply has been recorded.
    streamed: Ghost<bool>,
    /// History when the current round started.
    start: Ghost<Seq<MessageView>>,
    /// Reply text of the current round.
    reply: Ghost<Seq<char>>,
    /// Calls of the current round.
    calls: Ghost<Seq<ToolCallView>>,
    /// Result texts recorded in the current round.
    results: Ghost<Seq<Seq<char>>>,
    /// Requests issued so far.
    requests: Ghost<nat>,
    /// Why the handling ended, or that it goes on.
    stop: Ghost<StopCause>,
    /// The last completed tool round.
    last: Ghost<Option<ToolRoundView>>,
    /// Every round so far, the current one last.
    traces: Ghost<Seq<RoundTrace>>,
    /// Every event handed out so far, in order.
    events: Ghost<Seq<EventView>>,
}

impl AgentRun {
    /// The context.
    pub closed spec fn spec_context(&self) -> Context {
        self.context
    }

    /// Rounds completed (a round is completed when its tool results are in the
    /// history).
    pub closed spec fn spec_round(&self) -> nat {
        self.round as nat
    }

    /// Whether a round has started and not yet completed.
    pub closed spec fn spec_in_round(&self) -> bool {
        self.in_round
    }

    /// Whether the current round's reply has been recorded.
    pub closed spec fn spec_streamed(&self) -> bool {
        self.streamed@
    }

    /// Whether the handling has ended.
    pub closed spec fn spec_finished(&self) -> bool {
        self.finished
    }

    /// The reply streamed so far in the current round.
    pub closed spec fn spec_turn(&self) -> TurnView {
        self.turn@
    }

    /// Calls of the current round still waiting for their result, in order.
    pub closed spec fn spec_pending(&self) -> Seq<ToolCallView> {
        calls_view(self.pending@)
    }

    /// Whether the first waiting call has been looked up.
    pub closed spec fn spec_begun(&self) -> bool {
        self.begun
    }

    /// Requests to the model issued so far.
    pub closed spec fn spec_requests(&self) -> nat {
        self.requests@
    }

    /// Why the handling ended, or that it goes on.
    pub closed spec fn spec_stop(&self) -> StopCause {
        self.stop@
    }

    /// Whether the handling ended on the model's reply without tool calls.
    pub open spec fn spec_replied(&self) -> bool {
        self.spec_stop() == StopCause::Replied
    }

    /// The last completed tool round, if any.
    pub closed spec fn spec_last_round(&self) -> Option<ToolRoundView> {
        self.last@
    }

    /// Every round so far, the current one last.
    pub closed spec fn spec_traces(&self) -> Seq<RoundTrace> {
        self.traces@
    }

    /// Every event handed out so far, in order.
    pub closed spec fn spec_events(&self) -> Seq<EventView> {
        self.events@
    }

    /// Model calls made so far: every completed round made one, and so did
    /// the round under way or the round that ended the handling.
    pub open spec fn calls_made(&self) -> nat {
        self.spec_round() + if self.spec_in_round() || self.spec_replied() || self.spec_stop()
            == StopCause::StreamError {
            1nat
        } else {
            0nat
        }
    }

    /// The state is consistent: the completed rounds, plus the one under way
    /// or the one that ended the handling, stay within `max_rounds` and are
    /// the requests issued; an ended handling has no round under way; within
    /// a round, the history is the round's start followed by the reply with
    /// its calls, and the working area holds the results recorded so far
    /// while the other calls wait, in order; between rounds, the history ends
    /// with the last tool round; the events handed out are those of the
    /// rounds, every round but the current one ran to its end, and every
    /// round but the last made tool calls.
    pub closed spec fn wf(&self) -> bool {
        let h = messages_view(self.context.history@);
        let ts = self.traces@;
        let cur = ts.last();
        let ends_round = self.in_round || self.stop@ == StopCause::Replied || self.stop@
            == StopCause::StreamError;
        &&& self.round <= self.context.config.max_rounds
        &&& self.in_round ==> self.round < self.context.config.max_rounds
        &&& !(self.in_round && self.finished)
        &&& self.requests@ == self.round + if ends_round {
            1nat
        } else {
            0nat
        }
        &&& (self.stop@ == StopCause::Running) == !self.finished
        &&& self.stop@ == StopCause::RoundLimit ==> self.round == self.context.config.max_rounds
        &&& (self.stop@ == StopCause::Replied || self.stop@ == StopCause::StreamError) ==> self.round
            < self.context.config.max_rounds
        &&& !self.in_round ==> self.context.working@.len() == 0 && self.pending@.len() == 0
            && !self.begun
        &&& (self.in_round && !self.streamed@) ==> {
            &&& h == self.start@
            &&& self.context.working@.len() == 0
            &&& self.pending@.len() == 0
            &&& !self.begun
            &&& cur.error is None
            &&& !cur.ended
            &&& cur.started.len() == 0
            &&& cur.names.len() == 0
            &&& cur.results.len() == 0
            &&& self.turn@ == turn_of(cur.chunks)
        }
        &&& (self.in_round && self.streamed@) ==> {
            &&& self.calls@.len() > 0
            &&& h == self.start@.push(call_message(self.reply@, self.calls@))
            &&& self.results@.len() + self.pending@.len() == self.calls@.len()
            &&& calls_view(self.pending@) == self.calls@.skip(self.results@.len() as int)
            &&& messages_view(self.context.working@) == tool_messages(self.calls@, self.results@)
            &&& self.begun ==> self.pending@.len() > 0
            &&& cur.error is None
            &&& cur.ended
            &&& cur.calls == self.calls@
            &&& cur.calls == turn_of(cur.chunks).calls
            &&& cur.results == self.results@
            &&& cur.started.len() == self.results@.len() + if self.begun {
                1nat
            } else {
                0nat
            }
            &&& cur.names.len() == cur.started.len()
            &&& forall|j: int|
                0 <= j < cur.started.len() ==> #[trigger] cur.started[j] == listed(
                    cur.names[j],
                    cur.calls[j].name,
                )
        }
        &&& (self.round > 0) == (self.last@ is Some)
        &&& (!self.in_round && !self.finished && self.last@ is Some) ==> {
            let l = self.last@.unwrap();
            &&& l.calls.len() > 0
            &&& l.calls.len() == l.results.len()
            &&& h == after_tool_round(l.start, l.reply, l.calls, l.results)
        }
        &&& ts.len() == self.requests@
        &&& self.events@ == rounds_events(ts)
        &&& forall|k: int|
            0 <= k < ts.len() && !(k == ts.len() - 1 && (self.in_round || self.stop@
                == StopCause::StreamError)) ==> complete_round(#[trigger] ts[k])
        &&& forall|k: int| 0 <= k < ts.len() - 1 ==> (#[trigger] ts[k]).calls.len() > 0
        &&& (!self.in_round && !self.finished && ts.len() > 0) ==> cur.calls.len() > 0
        &&& self.stop@ == StopCause::StreamError ==> ts.len() > 0 && cur.error is Some
        &&& self.stop@ == StopCause::Replied ==> ts.len() > 0 && cur.error is None
            && cur.calls.len() == 0
    }

    /// Starts the handling of a message: a fresh context holding the user's
    /// message.
    pub fn start(config: AgentConfig, input: &AgentInput) -> (run: Self)
        ensures
            run.wf(),
            run.spec_round() == 0,
            run.spec_requests() == 0,
            run.spec_events().len() == 0,
            !run.spec_in_round(),
            !run.spec_finished(),
            run.spec_context().session_id == input.session_id,
            run.spec_context().config == config,
            run.spec_context().modality == config.modality,
            run.spec_context().system@.len() == 1,
            run.spec_context().system@[0]@.content == crate::context::configured_prompt(config),
            run.spec_context().retrieval@.len() == 0,
            run.spec_context().history_summary is None,
            run.spec_context().working@.len() == 0,
            run.spec_context().history@.len() == 1,
            run.spec_context().history@[0] == (Message {
                role: MessageRole::User,
                content: input.message.content,
                tool_calls: None,
                tool_call_id: None,
            }),
    {
        let mut context = Context::new(input.session_id.clone(), config);
        context.add_user_message(input.message.content.clone());
        AgentRun {
            context,
            round: 0,
            in_round: false,
            finished: false,
            turn: StreamTurn::new(),
            pending: Vec::new(),
            begun: false,
            streamed: Ghost(false),
            start: Ghost(Seq::empty()),
            reply: Ghost(Seq::empty()),
            calls: Ghost(Seq::empty()),
            results: Ghost(Seq::empty()),
            requests: Ghost(0),
            stop: Ghost(StopCause::Running),
            last: Ghost(None),
            traces: Ghost(Seq::empty()),
            events: Ghost(Seq::empty()),
        }
    }

    /// The context.
    pub fn context(&self) -> (c: &Context)
        ensures
            *c == self.spec_context(),
    {
        &self.context
    }

    /// Rounds completed.
    pub fn round(&self) -> (r: usize)
        ensures
            r == self.spec_round(),
    {
        self.round
    }

    /// Whether the handling has ended.
    pub fn is_finished(&self) -> (r: bool)
        ensures
            r == self.spec_finished(),
    {
        self.finished
    }

    /// Number of calls of the current round still waiting for their result.
    pub fn unanswered(&self) -> (n: usize)
        ensures
            n == self.spec_pending().len(),
    {
        self.pending.len()
    }

    /// Installs the knowledge retrieved for the user's message.
    pub fn set_retrieval(&mut self, results: Vec<KnowledgeResult>)
        requires
            old(self).wf(),
        ensures
            final(self).wf(),
            final(self).spec_context().retrieval == results,
            final(self).spec_context().history == old(self).spec_context().history,
            final(self).spec_context().system == old(self).spec_context().system,
            final(self).spec_context().working == old(self).spec_context().working,
            final(self).spec_context().history_summary == old(
                self,
            ).spec_context().history_summary,
            final(self).spec_context().config == old(self).spec_context().config,
            final(self).spec_round() == old(self).spec_round(),
            final(self).spec_in_round() == old(self).spec_in_round(),
            final(self).spec_finished() == old(self).spec_finished(),
            final(self).spec_requests() == old(self).spec_requests(),
            final(self).spec_streamed() == old(self).spec_streamed(),
            final(self).spec_pending() == old(self).spec_pending(),
            final(self).spec_begun() == old(self).spec_begun(),
            final(self).spec_last_round() == old(self).spec_last_round(),
            final(self).spec_events() == old(self).spec_events(),
            final(self).spec_traces() == old(self).spec_traces(),
            final(self).spec_turn() == old(self).spec_turn(),
    {
        self.context.set_retrieval(results);
    }

    /// Decides whether another round starts. It does when the handling has
    /// not ended, fewer than `max_rounds` rounds are completed and the time
    /// limit is not reached; the request then carries the context's messages,
    /// the given tools and the configured output limit, counts as one more
    /// request, and comes with the event that announces the reply. Otherwise
    /// the handling ends.
    pub fn begin_round(&mut self, time_exceeded: bool, tools: Vec<ToolDefinition>) -> (r: Option<
        (LlmRequest, AgentEvent),
    >)
        requires
            old(self).wf(),
            !old(self).spec_in_round(),
        ensures
            final(self).wf(),
            r is Some <==> (!old(self).spec_finished() && old(self).spec_round() < old(
                self,
            ).spec_context().config.max_rounds && !time_exceeded),
            r matches Some((req, ev)) ==> {
                &&& crate::types::llm_messages_view(req.messages@) == prompt_of(
                    old(self).spec_context(),
                )
                &&& req.tools == tools
                &&& req.max_tokens == Some(old(self).spec_context().config.max_output_tokens)
                &&& req.temperature_milli == Some(AGENT_TEMPERATURE_MILLI)
                &&& req.stream
                &&& ev == AgentEvent::StreamStart
                &&& final(self).spec_in_round()
                &&& !final(self).spec_streamed()
                &&& !final(self).spec_finished()
                &&& final(self).spec_requests() == old(self).spec_requests() + 1
                &&& final(self).spec_turn() == empty_turn()
                &&& final(self).spec_events() == old(self).spec_events().push(EventView::StreamStart)
                &&& final(self).spec_traces() == old(self).spec_traces().push(fresh_trace())
            },
            r is None ==> {
                &&& final(self).spec_finished()
                &&& !final(self).spec_in_round()
                &&& final(self).spec_requests() == old(self).spec_requests()
                &&& final(self).spec_events() == old(self).spec_events()
                &&& final(self).spec_traces() == old(self).spec_traces()
            },
            r is None && !old(self).spec_finished() ==> final(self).spec_stop() == (
                if old(self).spec_round() >= old(self).spec_context().config.max_rounds {
                    StopCause::RoundLimit
                } else {
                    StopCause::TimeLimit
                }),
            old(self).spec_finished() ==> final(self).spec_stop() == old(self).spec_stop(),
            final(self).spec_context() == old(self).spec_context(),
            final(self).spec_round() == old(self).spec_round(),
            final(self).spec_last_round() == old(self).spec_last_round(),
    {
        if self.finished || self.round >= self.context.config.max_rounds || time_exceeded {
            if !self.finished {
                if self.round >= self.context.config.max_rounds {
                    self.stop = Ghost(StopCause::RoundLimit);
                } else {
                    self.stop = Ghost(StopCause::TimeLimit);
                }
            }
            self.finished = true;
            return None;
        }
        let messages = self.context.build_messages();
        self.in_round = true;
        self.streamed = Ghost(false);
        self.start = Ghost(messages_view(self.context.history@));
        self.requests = Ghost(self.requests@ + 1);
        self.turn = StreamTurn::new();
        proof {
            let ts0 = self.traces@;
            let t0 = RoundTrace {
                chunks: Seq::empty(),
                error: None,
                ended: false,
                calls: Seq::empty(),
                started: Seq::empty(),
                names: Seq::empty(),
                results: Seq::empty(),
            };
            let ts = ts0.push(t0);
            assert(ts.drop_last() =~= ts0);
            assert(trace_events(t0) =~= seq![EventView::StreamStart]);
            self.traces = Ghost(ts);
            self.events = Ghost(self.events@.push(EventView::StreamStart));
            assert(turn_of(t0.chunks) == empty_turn());
            assert forall|k: int| 0 <= k < ts.len() - 1 implies complete_round(#[trigger] ts[k])
                && ts[k].calls.len() > 0 by {
                assert(ts[k] == ts0[k]);
            }
            assert(rounds_events(ts) == rounds_events(ts0) + trace_events(t0));
            assert(self.events@ =~= rounds_events(self.traces@));
            assert(self.traces@.last() == t0);
            assert(self.turn@ == turn_of(t0.chunks));
            assert(self.wf());
        }
        Some(
            (
                LlmRequest {
                    messages,
                    tools,
                    max_tokens: Some(self.context.config.max_output_tokens),
                    temperature_milli: Some(AGENT_TEMPERATURE_MILLI),
                    stream: true,
                },
                AgentEvent::StreamStart,
            ),
        )
    }

    /// Takes one chunk of the model's reply: text is appended and handed out
    /// as a token event, a stream error is handed out and ends the handling,
    /// everything else is absorbed.
    pub fn on_chunk(&mut self, chunk: LlmStreamChunk) -> (r: ChunkOutcome)
        requires
            old(self).wf(),
            old(self).spec_in_round(),
            !old(self).spec_streamed(),
        ensures
            final(self).wf(),
            r == chunk_outcome(chunk),
            chunk is Error ==> {
                &&& final(self).spec_finished()
                &&& !final(self).spec_in_round()
                &&& final(self).spec_stop() == StopCause::StreamError
                &&& final(self).spec_turn() == old(self).spec_turn()
            },
            !(chunk is Error) ==> {
                &&& final(self).spec_in_round()
                &&& !final(self).spec_streamed()
                &&& final(self).spec_turn() == turn_step(old(self).spec_turn(), chunk)
            },
            final(self).spec_events() == old(self).spec_events() + match chunk_outcome(chunk) {
                ChunkOutcome::Emit(e) => seq![event_view(e)],
                ChunkOutcome::Stop(e) => seq![event_view(e)],
                ChunkOutcome::Continue => Seq::empty(),
            },
            final(self).spec_traces() == with_last(
                old(self).spec_traces(),
                chunk_trace(old(self).spec_traces().last(), chunk),
            ),
            final(self).spec_context() == old(self).spec_context(),
            final(self).spec_round() == old(self).spec_round(),
            final(self).spec_requests() == old(self).spec_requests(),
            final(self).spec_last_round() == old(self).spec_last_round(),
    {
        let ghost ts0 = self.traces@;
        let ghost cur = ts0.last();
        proof {
            lemma_rounds_events_last(ts0, cur);
        }
        match chunk {
            LlmStreamChunk::Error(e) => {
                let ghost t1 = RoundTrace { error: Some(e@), ..cur };
                proof {
                    lemma_rounds_events_last(ts0, t1);
                    self.traces = Ghost(ts0.update(ts0.len() - 1, t1));
                    self.events = Ghost(self.events@.push(EventView::Error(e@)));
                    assert(trace_events(t1) =~= trace_events(cur).push(EventView::Error(e@)));
                    assert(self.events@ =~= rounds_events(self.traces@));
                    self.stop = Ghost(StopCause::StreamError);
                    assert forall|k: int|
                        0 <= k < self.traces@.len() - 1 implies complete_round(
                        #[trigger] self.traces@[k],
                    ) by {
                        assert(self.traces@[k] == ts0[k]);
                    }
                    assert forall|k: int| 0 <= k < self.traces@.len() - 1 implies (
                    #[trigger] self.traces@[k]).calls.len() > 0 by {
                        assert(self.traces@[k] == ts0[k]);
                    }
                }
                self.in_round = false;
                self.finished = true;
                ChunkOutcome::Stop(AgentEvent::Error(e))
            },
            _ => {
                let ghost c = chunk;
                let ghost t1 = RoundTrace { chunks: cur.chunks.push(c), ..cur };
                let r = self.turn.on_chunk(chunk);
                proof {
                    lemma_rounds_events_last(ts0, t1);
                    assert(t1.chunks.drop_last() =~= cur.chunks);
                    self.traces = Ghost(ts0.update(ts0.len() - 1, t1));
                    let delta = match chunk_outcome(c) {
                        ChunkOutcome::Emit(e) => seq![event_view(e)],
                        ChunkOutcome::Stop(e) => seq![event_view(e)],
                        ChunkOutcome::Continue => Seq::<EventView>::empty(),
                    };
                    assert(trace_events(t1) =~= trace_events(cur) + delta);
                    self.events = Ghost(self.events@ + delta);
                    assert(self.events@ =~= rounds_events(self.traces@));
                    assert forall|k: int|
                        0 <= k < self.traces@.len() - 1 implies complete_round(
                        #[trigger] self.traces@[k],
                    ) by {
                        assert(self.traces@[k] == ts0[k]);
                    }
                    assert forall|k: int| 0 <= k < self.traces@.len() - 1 implies (
                    #[trigger] self.traces@[k]).calls.len() > 0 by {
                        assert(self.traces@[k] == ts0[k]);
                    }
                }
                r
            },
        }
    }

    /// Records the model's reply of the current round in the history and
    /// hands out the event that ends the stream. A reply without tool calls
    /// ends the handling; otherwise the calls to run are returned, in the
    /// order the model made them, and they wait for their results in that
    /// order.
    pub fn end_stream(&mut self) -> (r: (AgentEvent, Option<Vec<ToolCall>>))
        requires
            old(self).wf(),
            old(self).spec_in_round(),
            !old(self).spec_streamed(),
        ensures
            final(self).wf(),
            r.0 == AgentEvent::StreamEnd,
            final(self).spec_events() == old(self).spec_events().push(EventView::StreamEnd),
            final(self).spec_traces() == with_last(
                old(self).spec_traces(),
                RoundTrace { ended: true, calls: old(self).spec_turn().calls, ..old(self).spec_traces().last() },
            ),
            final(self).spec_context().history@.len() == old(self).spec_context().history@.len()
                + 1,
            final(self).spec_context().history@.drop_last() == old(self).spec_context().history@,
            final(self).spec_context().history@.last().role == MessageRole::Assistant,
            final(self).spec_context().history@.last().content@ == old(self).spec_turn().content,
            final(self).spec_context().history@.last().tool_call_id is None,
            old(self).spec_turn().calls.len() == 0 ==> {
                &&& r.1 is None
                &&& final(self).spec_finished()
                &&& final(self).spec_stop() == StopCause::Replied
                &&& !final(self).spec_in_round()
                &&& final(self).spec_context().history@.last().tool_calls is None
            },
            old(self).spec_turn().calls.len() > 0 ==> {
                &&& r.1 matches Some(calls) && calls_view(calls@) == old(self).spec_turn().calls
                &&& !final(self).spec_finished()
                &&& final(self).spec_in_round()
                &&& final(self).spec_streamed()
                &&& !final(self).spec_begun()
                &&& final(self).spec_pending() == old(self).spec_turn().calls
                &&& final(self).spec_context().history@.last().tool_calls matches Some(v)
                    && calls_view(v@) == old(self).spec_turn().calls
            },
            final(self).spec_context().working == old(self).spec_context().working,
            final(self).spec_context().system == old(self).spec_context().system,
            final(self).spec_context().retrieval == old(self).spec_context().retrieval,
            final(self).spec_context().history_summary == old(
                self,
            ).spec_context().history_summary,
            final(self).spec_context().config == old(self).spec_context().config,
            final(self).spec_round() == old(self).spec_round(),
            final(self).spec_requests() == old(self).spec_requests(),
            final(self).spec_last_round() == old(self).spec_last_round(),
    {
        let mut taken = StreamTurn::new();
        std::mem::swap(&mut taken, &mut self.turn);
        let ghost ts0 = self.traces@;
        let ghost cur = ts0.last();
        let ghost cs = calls_view(taken.tool_calls@);
        let ghost t1 = RoundTrace { ended: true, calls: cs, ..cur };
        proof {
            lemma_rounds_events_last(ts0, cur);
            lemma_rounds_events_last(ts0, t1);
            assert(tool_events(cs, t1.started, t1.results, 0) =~= Seq::<EventView>::empty());
            assert(trace_events(t1) =~= trace_events(cur).push(EventView::StreamEnd));
            self.traces = Ghost(ts0.update(ts0.len() - 1, t1));
            self.events = Ghost(self.events@.push(EventView::StreamEnd));
            assert(self.events@ =~= rounds_events(self.traces@));
            assert forall|k: int| 0 <= k < self.traces@.len() - 1 implies complete_round(
                #[trigger] self.traces@[k],
            ) by {
                assert(self.traces@[k] == ts0[k]);
            }
            assert forall|k: int| 0 <= k < self.traces@.len() - 1 implies (
            #[trigger] self.traces@[k]).calls.len() > 0 by {
                assert(self.traces@[k] == ts0[k]);
            }
        }
        let StreamTurn { content, tool_calls, current: _ } = taken;
        if tool_calls.len() == 0 {
            self.context.add_assistant_message(content, None);
            self.in_round = false;
            self.finished = true;
            self.stop = Ghost(StopCause::Replied);
            proof {
                assert(complete_round(self.traces@.last()));
            }
            (AgentEvent::StreamEnd, None)
        } else {
            let ghost h0 = messages_view(self.context.history@);
            let ghost text = content@;
            let calls = clone_call_list(&tool_calls);
            let queue = clone_call_list(&tool_calls);
            self.context.add_assistant_message(content, Some(tool_calls));
            self.pending = queue;
            self.streamed = Ghost(true);
            self.reply = Ghost(text);
            self.calls = Ghost(cs);
            self.results = Ghost(Seq::empty());
            proof {
                assert(messages_view(self.context.history@) =~= h0.push(call_message(text, cs)));
                assert(cs.skip(0) =~= cs);
                assert(messages_view(self.context.working@) =~= tool_messages(cs, Seq::empty()));
                assert(cs == turn_of(cur.chunks).calls);
                assert(self.traces@.last() == t1);
                assert(t1.started.len() == 0);
                assert(t1.results =~= self.results@);
                assert(calls_view(self.pending@) == self.calls@.skip(0));
            }
            (AgentEvent::StreamEnd, Some(calls))
        }
    }

    /// Looks up the tool of the first waiting call among the registered
    /// names. When it is found, its position among the names and the event
    /// that announces the call are returned; otherwise nothing is handed out.
    pub fn begin_tool(&mut self, names: &Vec<String>) -> (r: Option<(usize, AgentEvent)>)
        requires
            old(self).wf(),
            old(self).spec_in_round(),
            old(self).spec_streamed(),
            old(self).spec_pending().len() > 0,
            !old(self).spec_begun(),
        ensures
            final(self).wf(),
            final(self).spec_begun(),
            ({
                let call = old(self).spec_pending()[0];
                let names_view = names@.map_values(|n: String| n@);
                &&& r is Some <==> listed(names_view, call.name)
                &&& r matches Some((i, ev)) ==> {
                    &&& i < names@.len()
                    &&& names@[i as int]@ == call.name
                    &&& forall|k: int| 0 <= k < i ==> names@[k]@ != call.name
                    &&& event_view(ev) == (EventView::ToolCallStart {
                        tool_name: call.name,
                        arguments: call.arguments,
                    })
                    &&& final(self).spec_events() == old(self).spec_events().push(
                        event_view(ev),
                    )
                }
                &&& r is None ==> final(self).spec_events() == old(self).spec_events()
                &&& final(self).spec_traces() == with_last(
                    old(self).spec_traces(),
                    RoundTrace {
                        started: old(self).spec_traces().last().started.push(r is Some),
                        names: old(self).spec_traces().last().names.push(names_view),
                        ..old(self).spec_traces().last()
                    },
                )
            }),
            final(self).spec_pending() == old(self).spec_pending(),
            final(self).spec_context() == old(self).spec_context(),
            final(self).spec_round() == old(self).spec_round(),
            final(self).spec_in_round() == old(self).spec_in_round(),
            final(self).spec_streamed() == old(self).spec_streamed(),
            final(self).spec_finished() == old(self).spec_finished(),
            final(self).spec_requests() == old(self).spec_requests(),
            final(self).spec_last_round() == old(self).spec_last_round(),
    {
        let ghost ts0 = self.traces@;
        let ghost cur = ts0.last();
        let ghost names_view = names@.map_values(|n: String| n@);
        let found = find_tool(names, self.pending[0].name.as_str());
        let ghost call = calls_view(self.pending@)[0];
        proof {
            assert(call == self.calls@[self.results@.len() as int]);
            assert(call == cur.calls[cur.started.len() as int]);
            if listed(names_view, call.name) {
                let k = choose|k: int| 0 <= k < names_view.len() && names_view[k] == call.name;
                assert(names@[k]@ == call.name);
            }
            if let Some(i) = found {
                assert(names_view[i as int] == call.name);
            }
        }
        let ghost b = found is Some;
        let ghost t1 = RoundTrace {
            started: cur.started.push(b),
            names: cur.names.push(names_view),
            ..cur
        };
        proof {
            lemma_rounds_events_last(ts0, cur);
            lemma_rounds_events_last(ts0, t1);
            lemma_tool_events_prefix(
                cur.calls,
                cur.started,
                t1.started,
                cur.results,
                cur.results,
                cur.results.len(),
            );
            self.traces = Ghost(ts0.update(ts0.len() - 1, t1));
            assert forall|k: int| 0 <= k < self.traces@.len() - 1 implies complete_round(
                #[trigger] self.traces@[k],
            ) by {
                assert(self.traces@[k] == ts0[k]);
            }
            assert forall|k: int| 0 <= k < self.traces@.len() - 1 implies (
            #[trigger] self.traces@[k]).calls.len() > 0 by {
                assert(self.traces@[k] == ts0[k]);
            }
        }
        self.begun = true;
        match found {
            Some(i) => {
                let ev = tool_started(&self.pending[0]);
                proof {
                    assert(trace_events(t1) =~= trace_events(cur).push(event_view(ev)));
                    self.events = Ghost(self.events@.push(event_view(ev)));
                    assert(self.events@ =~= rounds_events(self.traces@));
                }
                Some((i, ev))
            },
            None => {
                proof {
                    assert(trace_events(t1) =~= trace_events(cur));
                }
                None
            },
        }
    }

    /// Records the result of the first waiting call, once it has been looked
    /// up, in the working area and hands out the event that reports it.
    pub fn record_tool_result(&mut self, outcome: &ToolOutcome) -> (e: AgentEvent)
        requires
            old(self).wf(),
            old(self).spec_in_round(),
            old(self).spec_streamed(),
            old(self).spec_begun(),
        ensures
            final(self).wf(),
            old(self).spec_pending().len() > 0,
            ({
                let call = old(self).spec_pending()[0];
                &&& e matches AgentEvent::ToolCallEnd { tool_name, result } && tool_name@
                    == call.name && result@ == tool_result_text(call.name, *outcome)
                &&& final(self).spec_context().working@.len() == old(
                    self,
                ).spec_context().working@.len() + 1
                &&& final(self).spec_context().working@.drop_last() == old(
                    self,
                ).spec_context().working@
                &&& final(self).spec_context().working@.last()@ == crate::context::message_value(
                    MessageRole::Tool,
                    tool_result_text(call.name, *outcome),
                    None,
                    Some(call.id),
                )
                &&& final(self).spec_traces() == with_last(
                    old(self).spec_traces(),
                    RoundTrace {
                        results: old(self).spec_traces().last().results.push(
                            tool_result_text(call.name, *outcome),
                        ),
                        ..old(self).spec_traces().last()
                    },
                )
            }),
            final(self).spec_events() == old(self).spec_events().push(event_view(e)),
            !final(self).spec_begun(),
            final(self).spec_pending() == old(self).spec_pending().drop_first(),
            final(self).spec_context().history == old(self).spec_context().history,
            final(self).spec_context().system == old(self).spec_context().system,
            final(self).spec_context().retrieval == old(self).spec_context().retrieval,
            final(self).spec_context().history_summary == old(
                self,
            ).spec_context().history_summary,
            final(self).spec_context().config == old(self).spec_context().config,
            final(self).spec_round() == old(self).spec_round(),
            final(self).spec_in_round() == old(self).spec_in_round(),
            final(self).spec_streamed() == old(self).spec_streamed(),
            final(self).spec_finished() == old(self).spec_finished(),
            final(self).spec_requests() == old(self).spec_requests(),
            final(self).spec_last_round() == old(self).spec_last_round(),
    {
        let ghost p0 = calls_view(self.pending@);
        let ghost w0 = messages_view(self.context.working@);
        let ghost ts0 = self.traces@;
        let ghost cur = ts0.last();
        let call = self.pending.remove(0);
        assert(call@ == p0[0]);
        let result = render_tool_result(call.name.as_str(), outcome);
        let shown = result.clone();
        let ghost text = result@;
        self.context.add_tool_result(call.id.clone(), result);
        self.begun = false;
        let ev = AgentEvent::ToolCallEnd { tool_name: call.name, result: shown };
        proof {
            let cs = self.calls@;
            let rs0 = self.results@;
            let rs = rs0.push(text);
            let n = rs0.len();
            assert(calls_view(self.pending@) =~= p0.drop_first());
            assert(p0[0] == cs[n as int]);
            self.results = Ghost(rs);
            assert(calls_view(self.pending@) =~= cs.skip(rs.len() as int));
            assert(messages_view(self.context.working@) =~= tool_messages(cs, rs)) by {
                assert(messages_view(self.context.working@) =~= w0.push(
                    message_value(MessageRole::Tool, text, None, Some(call@.id)),
                ));
            }
            let t1 = RoundTrace { results: rs, ..cur };
            lemma_rounds_events_last(ts0, cur);
            lemma_rounds_events_last(ts0, t1);
            lemma_tool_events_prefix(cs, cur.started, t1.started, rs0, rs, n);
            assert(tool_events(cs, t1.started, rs, n + 1) =~= tool_events(cs, cur.started, rs0, n)
                + (if cur.started[n as int] {
                seq![EventView::ToolCallStart { tool_name: cs[n as int].name, arguments: cs[n as int].arguments }]
            } else {
                Seq::empty()
            }) + seq![EventView::ToolCallEnd { tool_name: cs[n as int].name, result: text }]);
            assert(trace_events(t1) =~= trace_events(cur).push(event_view(ev)));
            self.traces = Ghost(ts0.update(ts0.len() - 1, t1));
            self.events = Ghost(self.events@.push(event_view(ev)));
            assert(self.events@ =~= rounds_events(self.traces@));
            assert forall|k: int| 0 <= k < self.traces@.len() - 1 implies complete_round(
                #[trigger] self.traces@[k],
            ) by {
                assert(self.traces@[k] == ts0[k]);
            }
            assert forall|k: int| 0 <= k < self.traces@.len() - 1 implies (
            #[trigger] self.traces@[k]).calls.len() > 0 by {
                assert(self.traces@[k] == ts0[k]);
            }
        }
        ev
    }

    /// Completes the current round once every call has its result: the tool
    /// results move to the history for the next model call, the round count
    /// grows by one, and the history is the round's start followed by the
    /// reply with its calls and the results in call order.
    pub fn end_round(&mut self)
        requires
            old(self).wf(),
            old(self).spec_in_round(),
            old(self).spec_streamed(),
            old(self).spec_pending().len() == 0,
            !old(self).spec_begun(),
        ensures
            final(self).wf(),
            final(self).spec_round() == old(self).spec_round() + 1,
            !final(self).spec_in_round(),
            final(self).spec_finished() == old(self).spec_finished(),
            final(self).spec_requests() == old(self).spec_requests(),
            final(self).spec_events() == old(self).spec_events(),
            final(self).spec_traces() == old(self).spec_traces(),
            final(self).spec_context().history@ == old(self).spec_context().history@ + old(
                self,
            ).spec_context().working@,
            final(self).spec_last_round() matches Some(l) && messages_view(
                final(self).spec_context().history@,
            ) == after_tool_round(l.start, l.reply, l.calls, l.results) && l.calls.len()
                == l.results.len() && l.calls.len() > 0,
            final(self).spec_context().working@.len() == 0,
            final(self).spec_context().system == old(self).spec_context().system,
            final(self).spec_context().retrieval == old(self).spec_context().retrieval,
            final(self).spec_context().history_summary == old(
                self,
            ).spec_context().history_summary,
            final(self).spec_context().config == old(self).spec_context().config,
    {
        let ghost h0 = messages_view(self.context.history@);
        let ghost w0 = messages_view(self.context.working@);
        self.context.flush_working_to_history();
        self.round = self.round + 1;
        self.in_round = false;
        proof {
            assert(self.results@.len() == self.calls@.len());
            assert(messages_view(self.context.history@) =~= h0 + w0);
            self.last = Ghost(
                Some(
                    ToolRoundView {
                        start: self.start@,
                        reply: self.reply@,
                        calls: self.calls@,
                        results: self.results@,
                    },
                ),
            );
            assert(complete_round(self.traces@.last()));
        }
    }

    /// The model is called at most `max_rounds` times while one message is
    /// handled, whatever the replies, the tools and the clock do; with
    /// `max_rounds` 0 it is never called and no event is handed out.
    pub proof fn lemma_calls_bounded(run: AgentRun)
        requires
            run.wf(),
        ensures
            run.spec_requests() == run.calls_made(),
            run.spec_requests() <= run.spec_context().config.max_rounds,
            run.spec_context().config.max_rounds == 0 ==> run.spec_requests() == 0
                && run.spec_events().len() == 0,
    {
        if run.spec_requests() == 0 {
            assert(run.spec_traces().len() == 0);
        }
    }

    /// The handling ends in one of four ways, none of them an error: on a
    /// reply whose last round made no tool call, or on an error chunk in the
    /// last round's stream, after at most `max_rounds` requests; at the round
    /// limit, after exactly `max_rounds` requests (none when it is 0); or at
    /// the time limit, after at most `max_rounds` requests. So a model that
    /// calls a tool in every round is asked exactly `max_rounds` times unless
    /// time runs out first.
    pub proof fn lemma_how_handling_ends(run: AgentRun)
        requires
            run.wf(),
            run.spec_finished(),
        ensures
            run.spec_stop() != StopCause::Running,
            run.spec_stop() == StopCause::RoundLimit ==> run.spec_requests()
                == run.spec_context().config.max_rounds,
            run.spec_stop() == StopCause::Replied ==> run.spec_traces().len() > 0
                && run.spec_traces().last().calls.len() == 0,
            run.spec_stop() == StopCause::StreamError ==> run.spec_traces().len() > 0
                && run.spec_traces().last().error is Some,
            run.spec_requests() <= run.spec_context().config.max_rounds,
            run.spec_context().config.max_rounds == 0 ==> run.spec_requests() == 0,
    {
    }

    /// The events handed out while a message is handled, once the handling
    /// has ended, are the rounds' events one after another, one round per
    /// request: each round's start, a token per text chunk in order, then
    /// either the stream error that ended the handling (only in the last
    /// round) or the end of the stream followed, for each tool call in
    /// order, by its start exactly when its tool was registered and its end.
    /// Every round but the last called tools, and no event hands the
    /// customer over to a human agent.
    pub proof fn lemma_event_order(run: AgentRun)
        requires
            run.wf(),
            run.spec_finished(),
        ensures
            run.spec_events() == rounds_events(run.spec_traces()),
            run.spec_traces().len() == run.spec_requests(),
            forall|k: int|
                0 <= k < run.spec_traces().len() && (#[trigger] run.spec_traces()[k]).error is None
                    ==> complete_round(run.spec_traces()[k]),
            forall|k: int|
                0 <= k < run.spec_traces().len() - 1 ==> (#[trigger] run.spec_traces()[k]).error
                    is None && run.spec_traces()[k].calls.len() > 0,
            no_transfer(run.spec_events()),
    {
        let ts = run.spec_traces();
        lemma_no_transfer_rounds(ts);
        assert forall|k: int|
            0 <= k < ts.len() && (#[trigger] ts[k]).error is None implies complete_round(ts[k]) by {
            if k == ts.len() - 1 && run.spec_stop() == StopCause::StreamError {
                assert(ts[k] == ts.last());
            }
        }
        assert forall|k: int| 0 <= k < ts.len() - 1 implies (#[trigger] ts[k]).error is None
            && ts[k].calls.len() > 0 by {
            assert(complete_round(ts[k]));
        }
    }

    /// Every tool call's result reaches the model: between rounds, after a
    /// tool round, the messages of the next request are the fixed layers,
    /// then the history as the round found it, then the assistant message
    /// with its calls, then one tool message per call, with the call's id and
    /// its result, in call order.
    pub proof fn lemma_request_after_tool_round(run: AgentRun)
        requires
            run.wf(),
            !run.spec_in_round(),
            !run.spec_finished(),
            run.spec_round() > 0,
        ensures
            run.spec_last_round() matches Some(l) && l.calls.len() == l.results.len()
                && l.calls.len() > 0 && prompt_of(run.spec_context()) == fixed_part(
                run.spec_context(),
            ) + after_tool_round(l.start, l.reply, l.calls, l.results),
    {
        let ctx = run.context;
        assert(ctx.working@.len() == 0);
        assert(working_part(ctx.working@) =~= Seq::<MessageView>::empty());
    }
}

} // verus!
