//! The OpenAI-compatible wire format of a model request, and the endpoint
//! settings of the model and embedding services.

use crate::error::AgentError;
use crate::memory::role_debug_name;
use crate::text::{ascii_lower_of, concat2, chars_of, string_of};
use crate::types::{opt_calls_view, opt_text, LlmMessage, LlmRequest, MessageRole, ToolCall, ToolCallView, ToolDefinition};
use vstd::prelude::*;

verus! {

/// The wire name of a role.
pub open spec fn role_wire_name(r: MessageRole) -> Seq<char> {
    match r {
        MessageRole::System => "system"@,
        MessageRole::User => "user"@,
        MessageRole::Assistant => "assistant"@,
        MessageRole::Tool => "tool"@,
    }
}

/// The wire name of a role is the role's name, as its `Debug` form writes
/// it, in small letters; distinct roles have distinct wire names.
pub proof fn lemma_wire_role_names(r1: MessageRole, r2: MessageRole)
    ensures
        ascii_lower_of(role_wire_name(r1), role_debug_name(r1)),
        role_wire_name(r1) == role_wire_name(r2) ==> r1 == r2,
{
    reveal_strlit("system");
    reveal_strlit("user");
    reveal_strlit("assistant");
    reveal_strlit("tool");
    reveal_strlit("System");
    reveal_strlit("User");
    reveal_strlit("Assistant");
    reveal_strlit("Tool");
    if role_wire_name(r1) == role_wire_name(r2) && r1 != r2 {
        assert(role_wire_name(r1).len() != role_wire_name(r2).len() || role_wire_name(r1)[0]
            != role_wire_name(r2)[0]);
    }
}

/// The wire name of a role.
pub fn role_name(r: MessageRole) -> (s: &'static str)
    ensures
        s@ == role_wire_name(r),
{
    match r {
        MessageRole::System => "system",
        MessageRole::User => "user",
        MessageRole::Assistant => "assistant",
        MessageRole::Tool => "tool",
    }
}

/// The function part of a wire tool call.
#[derive(Debug)]
pub struct WireFunction {
    pub name: String,
    pub arguments: String,
}

/// A tool call on the wire.
#[derive(Debug)]
pub struct WireToolCall {
    pub id: String,
    /// Always `function`.
    pub tool_type: String,
    pub function: WireFunction,
}

/// A message on the wire.
#[derive(Debug)]
pub struct WireMessage {
    pub role: String,
    pub content: Option<String>,
    pub tool_calls: Option<Vec<WireToolCall>>,
    pub tool_call_id: Option<String>,
}

/// The function part of a wire tool description.
#[derive(Debug)]
pub struct WireToolSpec {
    pub name: String,
    pub description: String,
    pub parameters: serde_json::Value,
}

/// A tool description on the wire.
#[derive(Debug)]
pub struct WireTool {
    /// Always `function`.
    pub tool_type: String,
    pub function: WireToolSpec,
}

/// A chat-completions request on the wire. The temperature is kept in
/// thousandths; it is written as a decimal when the request is serialized.
#[derive(Debug)]
pub struct WireRequest {
    pub model: String,
    pub messages: Vec<WireMessage>,
    pub tools: Option<Vec<WireTool>>,
    pub max_tokens: Option<usize>,
    pub temperature_milli: Option<u32>,
    pub stream: bool,
}

/// Whether a wire tool call carries the given call.
pub open spec fn wire_call_matches(w: WireToolCall, c: ToolCallView) -> bool {
    &&& w.id@ == c.id
    &&& w.tool_type@ == "function"@
    &&& w.function.name@ == c.name
    &&& w.function.arguments@ == c.arguments
}

/// Whether a wire message carries the given message.
pub open spec fn wire_message_matches(w: WireMessage, m: crate::types::MessageView) -> bool {
    &&& w.role@ == role_wire_name(m.role)
    &&& opt_text(w.content) == Some(m.content)
    &&& opt_text(w.tool_call_id) == m.tool_call_id
    &&& match (w.tool_calls, m.tool_calls) {
        (None, None) => true,
        (Some(v), Some(cs)) => v@.len() == cs.len() && forall|i: int|
            0 <= i < cs.len() ==> wire_call_matches(#[trigger] v@[i], cs[i]),
        _ => false,
    }
}

/// Whether a wire tool carries the given tool description.
pub open spec fn wire_tool_matches(w: WireTool, t: ToolDefinition) -> bool {
    &&& w.tool_type@ == "function"@
    &&& w.function.name@ == t.name@
    &&& w.function.description@ == t.description@
    &&& w.function.parameters == t.parameters
}

fn wire_calls(calls: &Vec<ToolCall>) -> (r: Vec<WireToolCall>)
    ensures
        r@.len() == calls@.len(),
        forall|i: int| 0 <= i < calls@.len() ==> wire_call_matches(#[trigger] r@[i], calls@[i]@),
{
    let mut out: Vec<WireToolCall> = Vec::new();
    let mut i: usize = 0;
    while i < calls.len()
        invariant
            i <= calls@.len(),
            out@.len() == i,
            forall|k: int| 0 <= k < i ==> wire_call_matches(#[trigger] out@[k], calls@[k]@),
        decreases calls.len() - i,
    {
        let c = &calls[i];
        out.push(
            WireToolCall {
                id: c.id.clone(),
                tool_type: String::from_str("function"),
                function: WireFunction { name: c.name.clone(), arguments: c.arguments.clone() },
            },
        );
        i = i + 1;
    }
    out
}

/// Converts a message to the wire format.
pub fn wire_message(m: &LlmMessage) -> (w: WireMessage)
    ensures
        wire_message_matches(w, m@),
{
    let tool_calls = match &m.tool_calls {
        Some(v) => Some(wire_calls(v)),
        None => None,
    };
    WireMessage {
        role: String::from_str(role_name(m.role)),
        content: Some(m.content.clone()),
        tool_calls,
        tool_call_id: crate::types::clone_opt_string(&m.tool_call_id),
    }
}

/// The tool descriptions on the wire: none when there are no tools.
pub open spec fn wire_tools_match(w: Option<Vec<WireTool>>, tools: Seq<ToolDefinition>) -> bool {
    &&& tools.len() == 0 ==> w is None
    &&& tools.len() > 0 ==> (w matches Some(ts) && ts@.len() == tools.len() && forall|i: int|
        0 <= i < ts@.len() ==> wire_tool_matches(#[trigger] ts@[i], tools[i]))
}

fn wire_tools(tools: &Vec<ToolDefinition>) -> (r: Option<Vec<WireTool>>)
    ensures
        wire_tools_match(r, tools@),
{
    if tools.len() == 0 {
        return None;
    }
    let mut ts: Vec<WireTool> = Vec::new();
    let mut j: usize = 0;
    while j < tools.len()
        invariant
            j <= tools@.len(),
            ts@.len() == j,
            forall|k: int| 0 <= k < j ==> wire_tool_matches(#[trigger] ts@[k], tools@[k]),
        decreases tools.len() - j,
    {
        let t = &tools[j];
        ts.push(
            WireTool {
                tool_type: String::from_str("function"),
                function: WireToolSpec {
                    name: t.name.clone(),
                    description: t.description.clone(),
                    parameters: t.parameters.clone(),
                },
            },
        );
        j = j + 1;
    }
    Some(ts)
}

/// Converts a request to the wire format for `model`: every message in
/// order, the tools only when there are some, and the limits as given.
pub fn convert_request(model: &str, request: &LlmRequest) -> (w: WireRequest)
    ensures
        w.model@ == model@,
        w.messages@.len() == request.messages@.len(),
        forall|i: int|
            0 <= i < request.messages@.len() ==> wire_message_matches(
                #[trigger] w.messages@[i],
                request.messages@[i]@,
            ),
        wire_tools_match(w.tools, request.tools@),
        w.max_tokens == request.max_tokens,
        w.temperature_milli == request.temperature_milli,
        w.stream,
{
    let mut messages: Vec<WireMessage> = Vec::new();
    let mut i: usize = 0;
    while i < request.messages.len()
        invariant
            i <= request.messages@.len(),
            messages@.len() == i,
            forall|k: int|
                0 <= k < i ==> wire_message_matches(#[trigger] messages@[k], request.messages@[k]@),
        decreases request.messages.len() - i,
    {
        messages.push(wire_message(&request.messages[i]));
        i = i + 1;
    }
    let tools = wire_tools(&request.tools);
    WireRequest {
        model: String::from_str(model),
        messages,
        tools,
        max_tokens: request.max_tokens,
        temperature_milli: request.temperature_milli,
        stream: true,
    }
}

/// A message in the body that the tools' client sends: its role's wire
/// name, its text, its tool calls as the runtime records them (id, name,
/// arguments), and the id of the call it answers.
#[derive(Debug)]
pub struct BodyMessage {
    pub role: String,
    pub content: String,
    pub tool_calls: Option<Vec<ToolCall>>,
    pub tool_call_id: Option<String>,
}

/// The body that the tools' client sends: model, messages, the tools only
/// when there are some, and streaming on; it sets no output limit and no
/// temperature.
#[derive(Debug)]
pub struct BodyRequest {
    pub model: String,
    pub messages: Vec<BodyMessage>,
    pub tools: Option<Vec<WireTool>>,
    pub stream: bool,
}

/// Whether a body message carries the given message.
pub open spec fn body_message_matches(b: BodyMessage, m: crate::types::MessageView) -> bool {
    &&& b.role@ == role_wire_name(m.role)
    &&& b.content@ == m.content
    &&& opt_calls_view(b.tool_calls) == m.tool_calls
    &&& opt_text(b.tool_call_id) == m.tool_call_id
}

/// Builds the body that the tools' client sends for a request.
pub fn body_request(model: &str, request: &LlmRequest) -> (b: BodyRequest)
    ensures
        b.model@ == model@,
        b.messages@.len() == request.messages@.len(),
        forall|i: int|
            0 <= i < request.messages@.len() ==> body_message_matches(
                #[trigger] b.messages@[i],
                request.messages@[i]@,
            ),
        wire_tools_match(b.tools, request.tools@),
        b.stream,
{
    let mut messages: Vec<BodyMessage> = Vec::new();
    let mut i: usize = 0;
    while i < request.messages.len()
        invariant
            i <= request.messages@.len(),
            messages@.len() == i,
            forall|k: int|
                0 <= k < i ==> body_message_matches(#[trigger] messages@[k], request.messages@[k]@),
        decreases request.messages.len() - i,
    {
        let m = &request.messages[i];
        messages.push(
            BodyMessage {
                role: String::from_str(role_name(m.role)),
                content: m.content.clone(),
                tool_calls: crate::types::clone_tool_calls(&m.tool_calls),
                tool_call_id: crate::types::clone_opt_string(&m.tool_call_id),
            },
        );
        i = i + 1;
    }
    BodyRequest { model: String::from_str(model), messages, tools: wire_tools(&request.tools), stream: true }
}

// ---------------------------------------------------------------------------
// Endpoint settings
// ---------------------------------------------------------------------------

/// The text without its trailing `c` characters.
pub open spec fn trim_end_char(s: Seq<char>, c: char) -> Seq<char>
    decreases s.len(),
{
    if s.len() > 0 && s.last() == c {
        trim_end_char(s.drop_last(), c)
    } else {
        s
    }
}

/// Removes the trailing `c` characters, as `trim_end_matches(c)` does.
pub fn strip_trailing(s: &str, c: char) -> (r: String)
    ensures
        r@ == trim_end_char(s@, c),
{
    let cs = chars_of(s);
    let mut end: usize = cs.len();
    assert(cs@.take(end as int) == cs@);
    while end > 0 && cs[end - 1] == c
        invariant
            end <= cs@.len(),
            cs@ == s@,
            trim_end_char(s@, c) == trim_end_char(cs@.take(end as int), c),
        decreases end,
    {
        assert(cs@.take(end as int).drop_last() == cs@.take(end - 1));
        end = end - 1;
    }
    let mut out: Vec<char> = Vec::new();
    let mut i: usize = 0;
    while i < end
        invariant
            i <= end <= cs@.len(),
            out@ == cs@.take(i as int),
        decreases end - i,
    {
        out.push(cs[i]);
        assert(cs@.take(i + 1) == cs@.take(i as int).push(cs@[i as int]));
        i = i + 1;
    }
    string_of(out.as_slice())
}

/// Where and how to reach an OpenAI-compatible model service.
#[derive(Debug)]
pub struct LlmEndpoint {
    pub api_key: String,
    /// Base URL without trailing slashes.
    pub base_url: String,
    pub model: String,
}

/// Default base URL of the OpenAI API.
pub open spec fn default_base_url() -> Seq<char> {
    "https://api.openai.com/v1"@
}

/// The first of two optional values that is present.
pub open spec fn first_present(a: Option<String>, b: Option<String>) -> Option<String> {
    match a {
        Some(x) => Some(x),
        None => b,
    }
}

impl LlmEndpoint {
    /// Settings for the given key, base URL (trailing slashes removed) and
    /// model.
    pub fn new(api_key: &str, base_url: &str, model: &str) -> (e: Self)
        ensures
            e.api_key@ == api_key@,
            e.base_url@ == trim_end_char(base_url@, '/'),
            e.model@ == model@,
    {
        LlmEndpoint {
            api_key: String::from_str(api_key),
            base_url: strip_trailing(base_url, '/'),
            model: String::from_str(model),
        }
    }

    /// Settings from the environment's values: the key from `LLM_API_KEY`,
    /// else `OPENAI_API_KEY` (an error when neither is set); the base URL
    /// from `LLM_BASE_URL`, else `OPENAI_BASE_URL`, else the OpenAI API; the
    /// model from `LLM_MODEL`, else `gpt-4o-mini`.
    pub fn from_env_values(
        llm_api_key: Option<String>,
        openai_api_key: Option<String>,
        llm_base_url: Option<String>,
        openai_base_url: Option<String>,
        llm_model: Option<String>,
    ) -> (r: Result<Self, AgentError>)
        ensures
            match first_present(llm_api_key, openai_api_key) {
                None => r matches Err(AgentError::Config(m)) && m@
                    == "未设置 LLM_API_KEY 或 OPENAI_API_KEY"@,
                Some(key) => r matches Ok(e) && e.api_key@ == key@ && e.base_url@ == trim_end_char(
                    match first_present(llm_base_url, openai_base_url) {
                        Some(u) => u@,
                        None => default_base_url(),
                    },
                    '/',
                ) && e.model@ == match llm_model {
                    Some(m) => m@,
                    None => "gpt-4o-mini"@,
                },
            },
    {
        let key = match llm_api_key {
            Some(k) => k,
            None => match openai_api_key {
                Some(k) => k,
                None => {
                    return Err(
                        AgentError::Config(String::from_str("未设置 LLM_API_KEY 或 OPENAI_API_KEY")),
                    )
                },
            },
        };
        let base = match llm_base_url {
            Some(u) => u,
            None => match openai_base_url {
                Some(u) => u,
                None => String::from_str("https://api.openai.com/v1"),
            },
        };
        let model = match llm_model {
            Some(m) => m,
            None => String::from_str("gpt-4o-mini"),
        };
        Ok(Self::new(key.as_str(), base.as_str(), model.as_str()))
    }

    /// The model name.
    pub fn model_name(&self) -> (r: &str)
        ensures
            r@ == self.model@,
    {
        self.model.as_str()
    }

    /// The chat-completions URL.
    pub fn chat_url(&self) -> (r: String)
        ensures
            r@ == self.base_url@ + "/chat/completions"@,
    {
        concat2(self.base_url.as_str(), "/chat/completions")
    }
}

/// Settings of a service reached with an API key, a base URL and a model,
/// where the URL and the model fall back to defaults.
#[derive(Debug)]
pub struct ServiceEndpoint {
    pub api_key: String,
    pub base_url: String,
    pub model: String,
}

impl ServiceEndpoint {
    /// Settings with the given key; the base URL and the model are the given
    /// ones or the defaults.
    pub fn with_defaults(
        api_key: String,
        base_url: Option<String>,
        model: Option<String>,
        default_base_url: &str,
        default_model: &str,
    ) -> (e: Self)
        ensures
            e.api_key == api_key,
            e.base_url@ == match base_url {
                Some(u) => u@,
                None => default_base_url@,
            },
            e.model@ == match model {
                Some(m) => m@,
                None => default_model@,
            },
    {
        ServiceEndpoint {
            api_key,
            base_url: match base_url {
                Some(u) => u,
                None => String::from_str(default_base_url),
            },
            model: match model {
                Some(m) => m,
                None => String::from_str(default_model),
            },
        }
    }

    /// Chat model defaults: the OpenAI API and `gpt-3.5-turbo`.
    pub fn chat(api_key: String, base_url: Option<String>, model: Option<String>) -> (e: Self)
        ensures
            e.api_key == api_key,
            e.base_url@ == match base_url {
                Some(u) => u@,
                None => default_base_url(),
            },
            e.model@ == match model {
                Some(m) => m@,
                None => "gpt-3.5-turbo"@,
            },
    {
        Self::with_defaults(api_key, base_url, model, "https://api.openai.com/v1", "gpt-3.5-turbo")
    }

    /// Embedding defaults: the OpenAI API and `text-embedding-3-small`.
    pub fn embedding(api_key: String, base_url: Option<String>, model: Option<String>) -> (e: Self)
        ensures
            e.api_key == api_key,
            e.base_url@ == match base_url {
                Some(u) => u@,
                None => default_base_url(),
            },
            e.model@ == match model {
                Some(m) => m@,
                None => "text-embedding-3-small"@,
            },
    {
        Self::with_defaults(
            api_key,
            base_url,
            model,
            "https://api.openai.com/v1",
            "text-embedding-3-small",
        )
    }

    /// The chat-completions URL.
    pub fn chat_url(&self) -> (r: String)
        ensures
            r@ == self.base_url@ + "/chat/completions"@,
    {
        concat2(self.base_url.as_str(), "/chat/completions")
    }

    /// The embeddings URL.
    pub fn embeddings_url(&self) -> (r: String)
        ensures
            r@ == self.base_url@ + "/embeddings"@,
    {
        concat2(self.base_url.as_str(), "/embeddings")
    }
}

// ---------------------------------------------------------------------------
// Errors of the model clients
// ---------------------------------------------------------------------------

/// A body that could be read, or the given fallback when it could not.
pub open spec fn body_or(body: Option<String>, fallback: Seq<char>) -> Seq<char> {
    match body {
        Some(b) => b@,
        None => fallback,
    }
}

fn body_text(body: Option<String>, fallback: &str) -> (r: String)
    ensures
        r@ == body_or(body, fallback@),
{
    match body {
        Some(b) => b,
        None => String::from_str(fallback),
    }
}

/// The tools' client could not send its request.
pub fn request_failed(detail: &str) -> (e: AgentError)
    ensures
        e matches AgentError::Llm(m) && m@ == "请求失败: "@ + detail@,
{
    AgentError::Llm(concat2("请求失败: ", detail))
}

/// The tools' client got an unsuccessful status; an unreadable body counts
/// as empty.
pub fn http_status_failed(status: &str, body: Option<String>) -> (e: AgentError)
    ensures
        e matches AgentError::Llm(m) && m@ == "HTTP "@ + status@ + " "@ + body_or(body, ""@),
{
    let b = body_text(body, "");
    let head = crate::text::concat3("HTTP ", status, " ");
    AgentError::Llm(concat2(head.as_str(), b.as_str()))
}

/// The tools' client could not read the event stream.
pub fn stream_read_failed(detail: &str) -> (e: AgentError)
    ensures
        e matches AgentError::Llm(m) && m@ == "流读取错误: "@ + detail@,
{
    AgentError::Llm(concat2("流读取错误: ", detail))
}

/// The server's client could not send its request.
pub fn server_request_failed(detail: &str) -> (e: AgentError)
    ensures
        e matches AgentError::Llm(m) && m@ == "Request failed: "@ + detail@,
{
    AgentError::Llm(concat2("Request failed: ", detail))
}

/// The server's client got an unsuccessful status; an unreadable body reads
/// as `Unknown error`.
pub fn server_api_error(status: &str, body: Option<String>) -> (e: AgentError)
    ensures
        e matches AgentError::Llm(m) && m@ == "API error "@ + status@ + ": "@ + body_or(
            body,
            "Unknown error"@,
        ),
{
    let b = body_text(body, "Unknown error");
    let head = crate::text::concat3("API error ", status, ": ");
    AgentError::Llm(concat2(head.as_str(), b.as_str()))
}

/// The server's client could not read the event stream.
pub fn server_stream_failed(detail: &str) -> (e: AgentError)
    ensures
        e matches AgentError::Llm(m) && m@ == "Stream error: "@ + detail@,
{
    AgentError::Llm(concat2("Stream error: ", detail))
}

} // verus!
