//! Data exchanged with language models, tools and knowledge stores.

use vstd::prelude::*;

verus! {

/// A JSON value, carried through unread (tool parameter schemas).
#[verifier::external_type_specification]
#[verifier::external_body]
pub struct ExJsonValue(serde_json::Value);

/// Calls `<serde_json::Value as Clone>::clone`; trusted to return an equal
/// value (the impl is derived, field by field).
pub assume_specification[ <serde_json::Value as Clone>::clone ](v: &serde_json::Value) -> (r: serde_json::Value)
    ensures
        r == *v,
;

/// Role of a message.
#[derive(Debug, Clone, Copy, PartialEq, Eq, Structural)]
pub enum MessageRole {
    System,
    User,
    Assistant,
    Tool,
}

/// A tool call requested by the model.
#[derive(Debug)]
pub struct ToolCall {
    pub id: String,
    pub name: String,
    pub arguments: String,
}

/// Abstract value of a tool call.
pub struct ToolCallView {
    pub id: Seq<char>,
    pub name: Seq<char>,
    pub arguments: Seq<char>,
}

impl View for ToolCall {
    type V = ToolCallView;

    open spec fn view(&self) -> ToolCallView {
        ToolCallView { id: self.id@, name: self.name@, arguments: self.arguments@ }
    }
}

impl Clone for ToolCall {
    fn clone(&self) -> (r: Self)
        ensures
            r == *self,
            r@ == self@,
    {
        ToolCall { id: self.id.clone(), name: self.name.clone(), arguments: self.arguments.clone() }
    }
}

/// Abstract value of a list of tool calls.
pub open spec fn calls_view(v: Seq<ToolCall>) -> Seq<ToolCallView> {
    v.map_values(|c: ToolCall| c@)
}

/// Abstract value of an optional list of tool calls.
pub open spec fn opt_calls_view(o: Option<Vec<ToolCall>>) -> Option<Seq<ToolCallView>> {
    match o {
        Some(v) => Some(calls_view(v@)),
        None => None,
    }
}

/// Abstract value of an optional string.
pub open spec fn opt_text(o: Option<String>) -> Option<Seq<char>> {
    match o {
        Some(s) => Some(s@),
        None => None,
    }
}

/// Copy of a list of tool calls.
pub fn clone_call_list(v: &Vec<ToolCall>) -> (r: Vec<ToolCall>)
    ensures
        calls_view(r@) == calls_view(v@),
{
    let mut r: Vec<ToolCall> = Vec::new();
    let mut i: usize = 0;
    while i < v.len()
        invariant
            i <= v.len(),
            r@.len() == i,
            forall|k: int| 0 <= k < i ==> #[trigger] r@[k]@ == v@[k]@,
        decreases v.len() - i,
    {
        r.push(v[i].clone());
        i = i + 1;
    }
    assert(calls_view(r@) =~= calls_view(v@));
    r
}

/// Copy of an optional list of tool calls.
pub fn clone_tool_calls(calls: &Option<Vec<ToolCall>>) -> (r: Option<Vec<ToolCall>>)
    ensures
        opt_calls_view(r) == opt_calls_view(*calls),
{
    match calls {
        Some(v) => Some(clone_call_list(v)),
        None => None,
    }
}

/// Copy of an optional string.
pub fn clone_opt_string(s: &Option<String>) -> (r: Option<String>)
    ensures
        r == *s,
        opt_text(r) == opt_text(*s),
{
    match s {
        Some(x) => Some(x.clone()),
        None => None,
    }
}

/// A message as sent to the model.
#[derive(Debug)]
pub struct LlmMessage {
    pub role: MessageRole,
    pub content: String,
    pub tool_calls: Option<Vec<ToolCall>>,
    pub tool_call_id: Option<String>,
}

/// Abstract value of a message: role, text, tool calls and the id of the call
/// it answers.
pub struct MessageView {
    pub role: MessageRole,
    pub content: Seq<char>,
    pub tool_calls: Option<Seq<ToolCallView>>,
    pub tool_call_id: Option<Seq<char>>,
}

impl View for LlmMessage {
    type V = MessageView;

    open spec fn view(&self) -> MessageView {
        MessageView {
            role: self.role,
            content: self.content@,
            tool_calls: opt_calls_view(self.tool_calls),
            tool_call_id: opt_text(self.tool_call_id),
        }
    }
}

impl Clone for LlmMessage {
    fn clone(&self) -> (r: Self)
        ensures
            r@ == self@,
    {
        LlmMessage {
            role: self.role,
            content: self.content.clone(),
            tool_calls: clone_tool_calls(&self.tool_calls),
            tool_call_id: clone_opt_string(&self.tool_call_id),
        }
    }
}

/// Abstract value of a list of messages.
pub open spec fn llm_messages_view(v: Seq<LlmMessage>) -> Seq<MessageView> {
    v.map_values(|m: LlmMessage| m@)
}

/// Why the model stopped.
#[derive(Debug, Clone, Copy, PartialEq, Eq, Structural)]
pub enum FinishReason {
    Stop,
    Length,
    ToolCalls,
    ContentFilter,
}

/// One item of a model's streamed reply.
#[derive(Debug)]
pub enum LlmStreamChunk {
    /// Text.
    Content(String),
    /// A tool call begins.
    ToolCallStart { id: String, name: String },
    /// More argument text of the current tool call.
    ToolCallDelta { arguments: String },
    /// The reply ends.
    Done { finish_reason: FinishReason },
    /// The model reports an error.
    Error(String),
}

impl Clone for LlmStreamChunk {
    fn clone(&self) -> (r: Self)
        ensures
            r == *self,
    {
        match self {
            LlmStreamChunk::Content(t) => LlmStreamChunk::Content(t.clone()),
            LlmStreamChunk::ToolCallStart { id, name } => LlmStreamChunk::ToolCallStart {
                id: id.clone(),
                name: name.clone(),
            },
            LlmStreamChunk::ToolCallDelta { arguments } => LlmStreamChunk::ToolCallDelta {
                arguments: arguments.clone(),
            },
            LlmStreamChunk::Done { finish_reason } => LlmStreamChunk::Done {
                finish_reason: *finish_reason,
            },
            LlmStreamChunk::Error(e) => LlmStreamChunk::Error(e.clone()),
        }
    }
}

/// Tool description offered to the model.
#[derive(Debug)]
pub struct ToolDefinition {
    pub name: String,
    pub description: String,
    /// JSON schema of the parameters.
    pub parameters: serde_json::Value,
}

impl Clone for ToolDefinition {
    fn clone(&self) -> (r: Self)
        ensures
            r == *self,
    {
        ToolDefinition {
            name: self.name.clone(),
            description: self.description.clone(),
            parameters: self.parameters.clone(),
        }
    }
}

/// A request to the model. The sampling temperature is kept in thousandths.
#[derive(Debug)]
pub struct LlmRequest {
    pub messages: Vec<LlmMessage>,
    pub tools: Vec<ToolDefinition>,
    pub max_tokens: Option<usize>,
    /// Sampling temperature in thousandths (700 stands for 0.7).
    pub temperature_milli: Option<u32>,
    pub stream: bool,
}

/// A tool parameter declaration.
#[derive(Debug, Clone)]
pub struct ToolParameter {
    pub name: String,
    pub description: String,
    pub required: bool,
    /// JSON type of the parameter.
    pub param_type: String,
}

/// Reply shown while a tool runs.
#[derive(Debug, Clone)]
pub struct IntermediateReply {
    pub text: String,
    pub audio_cue: Option<String>,
}

/// A knowledge-base hit as the context holds it: its id and its text.
#[derive(Debug)]
pub struct KnowledgeResult {
    pub id: String,
    pub content: String,
}

impl Clone for KnowledgeResult {
    fn clone(&self) -> (r: Self)
        ensures
            r == *self,
    {
        KnowledgeResult { id: self.id.clone(), content: self.content.clone() }
    }
}

} // verus!
