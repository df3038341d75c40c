use seat_agent::error::AgentError;
use seat_agent::openai::{
    http_status_failed, request_failed, server_api_error, server_request_failed,
    server_stream_failed, stream_read_failed,
};
use seat_agent::openai::{convert_request, strip_trailing, LlmEndpoint, ServiceEndpoint};
use seat_agent::types::{LlmMessage, LlmRequest, MessageRole, ToolCall, ToolDefinition};
use serde_json::Value;

fn request(tools: Vec<ToolDefinition>) -> LlmRequest {
    LlmRequest {
        messages: vec![
            LlmMessage {
                role: MessageRole::System,
                content: "sys".into(),
                tool_calls: None,
                tool_call_id: None,
            },
            LlmMessage {
                role: MessageRole::Assistant,
                content: "".into(),
                tool_calls: Some(vec![ToolCall {
                    id: "call_0".into(),
                    name: "order_query".into(),
                    arguments: "{}".into(),
                }]),
                tool_call_id: None,
            },
            LlmMessage {
                role: MessageRole::Tool,
                content: "result".into(),
                tool_calls: None,
                tool_call_id: Some("call_0".into()),
            },
        ],
        tools,
        max_tokens: Some(500),
        temperature_milli: Some(700),
        stream: false,
    }
}

#[test]
fn convert_request_keeps_messages_in_order() {
    let w = convert_request("gpt-4", &request(vec![]));
    assert_eq!(w.model, "gpt-4");
    assert_eq!(w.messages.len(), 3);
    let roles: Vec<&str> = w.messages.iter().map(|m| m.role.as_str()).collect();
    assert_eq!(roles, vec!["system", "assistant", "tool"]);
    assert_eq!(w.messages[0].content.as_deref(), Some("sys"));
    let calls = w.messages[1].tool_calls.as_ref().unwrap();
    assert_eq!(calls.len(), 1);
    assert_eq!(calls[0].id, "call_0");
    assert_eq!(calls[0].tool_type, "function");
    assert_eq!(calls[0].function.name, "order_query");
    assert_eq!(w.messages[2].tool_call_id.as_deref(), Some("call_0"));
    assert!(w.tools.is_none());
    assert_eq!(w.max_tokens, Some(500));
    assert_eq!(w.temperature_milli, Some(700));
    assert!(w.stream);
}

#[test]
fn convert_request_lists_tools_when_present() {
    let def = ToolDefinition {
        name: "knowledge_search".into(),
        description: "搜索知识库获取答案".into(),
        parameters: Value::Null,
    };
    let w = convert_request("m", &request(vec![def]));
    let tools = w.tools.unwrap();
    assert_eq!(tools.len(), 1);
    assert_eq!(tools[0].tool_type, "function");
    assert_eq!(tools[0].function.name, "knowledge_search");
    assert_eq!(tools[0].function.parameters, Value::Null);
}

#[test]
fn trailing_slashes_are_removed() {
    assert_eq!(strip_trailing("https://x/v1///", '/'), "https://x/v1");
    assert_eq!(strip_trailing("///", '/'), "");
    assert_eq!(strip_trailing("abc", '/'), "abc");
}

#[test]
fn endpoint_from_env_values_prefers_llm_variables() {
    let e = LlmEndpoint::from_env_values(
        Some("k1".into()),
        Some("k2".into()),
        None,
        Some("https://alt/v1/".into()),
        None,
    )
    .unwrap();
    assert_eq!(e.api_key, "k1");
    assert_eq!(e.base_url, "https://alt/v1");
    assert_eq!(e.model_name(), "gpt-4o-mini");
    assert_eq!(e.chat_url(), "https://alt/v1/chat/completions");
}

#[test]
fn endpoint_defaults_and_missing_key() {
    let e = LlmEndpoint::from_env_values(None, Some("k2".into()), None, None, Some("m".into()))
        .unwrap();
    assert_eq!(e.api_key, "k2");
    assert_eq!(e.base_url, "https://api.openai.com/v1");
    assert_eq!(e.model, "m");
    match LlmEndpoint::from_env_values(None, None, Some("u".into()), None, None) {
        Err(AgentError::Config(m)) => assert_eq!(m, "未设置 LLM_API_KEY 或 OPENAI_API_KEY"),
        _ => panic!("expected a configuration error"),
    }
}

#[test]
fn service_endpoints_fall_back_to_defaults() {
    let chat = ServiceEndpoint::chat("k".into(), None, None);
    assert_eq!(chat.base_url, "https://api.openai.com/v1");
    assert_eq!(chat.model, "gpt-3.5-turbo");
    assert_eq!(chat.chat_url(), "https://api.openai.com/v1/chat/completions");
    let emb = ServiceEndpoint::embedding("k".into(), Some("http://h".into()), None);
    assert_eq!(emb.model, "text-embedding-3-small");
    assert_eq!(emb.embeddings_url(), "http://h/embeddings");
}

#[test]
fn client_error_texts() {
    let text = |e: AgentError| match e {
        AgentError::Llm(m) => m,
        _ => panic!("expected an LLM error"),
    };
    assert_eq!(text(request_failed("timeout")), "请求失败: timeout");
    assert_eq!(text(http_status_failed("500 Internal Server Error", Some("oops".into()))), "HTTP 500 Internal Server Error oops");
    assert_eq!(text(http_status_failed("502 Bad Gateway", None)), "HTTP 502 Bad Gateway ");
    assert_eq!(text(stream_read_failed("eof")), "流读取错误: eof");
    assert_eq!(text(server_request_failed("dns")), "Request failed: dns");
    assert_eq!(text(server_api_error("401 Unauthorized", Some("bad key".into()))), "API error 401 Unauthorized: bad key");
    assert_eq!(text(server_api_error("401 Unauthorized", None)), "API error 401 Unauthorized: Unknown error");
    assert_eq!(text(server_stream_failed("reset")), "Stream error: reset");
}
