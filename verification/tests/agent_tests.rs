use seat_agent::agent::{
    agent_failure_text, tool_arguments, AgentRun, ChunkOutcome,
    StreamTurn, ToolOutcome,
};
use seat_agent::config::AgentConfig;
use seat_agent::context::{AgentEvent, AgentInput, Message};
use seat_agent::error::AgentError;
use seat_agent::fields::JsonFields;
use seat_agent::mock::MockLlmClient;
use seat_agent::types::{FinishReason, LlmStreamChunk, MessageRole, ToolDefinition};
use serde_json::Value;

type ToolFn = fn(&JsonFields) -> Result<String, AgentError>;

fn echo(args: &JsonFields) -> Result<String, AgentError> {
    Ok(format!("Echo: {}", args.get_or("message", "no message")))
}

fn fail(_args: &JsonFields) -> Result<String, AgentError> {
    Err(AgentError::Tool("intentional failure".into()))
}

fn make_user_input(content: &str) -> AgentInput {
    AgentInput {
        session_id: "test-session".to_string(),
        message: Message {
            role: MessageRole::User,
            content: content.to_string(),
            tool_calls: None,
            tool_call_id: None,
        },
    }
}

/// The model: either scripted chunk lists used in turn, or a mock client.
enum Model {
    Script(Vec<Vec<LlmStreamChunk>>),
    Mock(MockLlmClient),
}

struct Outcome {
    result: Result<(), AgentError>,
    events: Vec<AgentEvent>,
    model_calls: usize,
    run: AgentRun,
}

/// Drives one message through the agent's decisions, as the async runtime
/// does, with the model and the tools answering at once.
fn handle(config: AgentConfig, tools: &[(&str, ToolFn)], model: &Model, text: &str) -> Outcome {
    let input = make_user_input(text);
    let mut run = AgentRun::start(config, &input);
    let names: Vec<String> = tools.iter().map(|(n, _)| n.to_string()).collect();
    let mut events = Vec::new();
    let mut model_calls = 0;
    let result = (|| -> Result<(), AgentError> {
        loop {
            let defs: Vec<ToolDefinition> = names
                .iter()
                .map(|n| ToolDefinition {
                    name: n.clone(),
                    description: String::new(),
                    parameters: Value::Null,
                })
                .collect();
            let Some((_request, start)) = run.begin_round(false, defs) else {
                return Ok(());
            };
            events.push(start);
            let chunks = match model {
                Model::Script(s) => s[model_calls % s.len()].clone(),
                Model::Mock(m) => m.chat_chunks()?,
            };
            model_calls += 1;
            for c in chunks {
                match run.on_chunk(c) {
                    ChunkOutcome::Continue => {}
                    ChunkOutcome::Emit(e) => events.push(e),
                    ChunkOutcome::Stop(e) => {
                        events.push(e);
                        return Ok(());
                    }
                }
            }
            let (end, calls) = run.end_stream();
            events.push(end);
            let Some(calls) = calls else {
                return Ok(());
            };
            while run.unanswered() > 0 {
                let call = &calls[calls.len() - run.unanswered()];
                let outcome = match run.begin_tool(&names) {
                    None => ToolOutcome::Missing,
                    Some((i, start)) => {
                        events.push(start);
                        let args = JsonFields::from_json(&tool_arguments(&call.arguments)?);
                        match (tools[i].1)(&args) {
                            Ok(r) => ToolOutcome::Finished(r),
                            Err(e) => ToolOutcome::Failed(e),
                        }
                    }
                };
                events.push(run.record_tool_result(&outcome));
            }
            run.end_round();
        }
    })();
    Outcome {
        result,
        events,
        model_calls,
        run,
    }
}

fn tool_call(name: &str, args: &str) -> Vec<LlmStreamChunk> {
    vec![
        LlmStreamChunk::ToolCallStart {
            id: "call_1".to_string(),
            name: name.to_string(),
        },
        LlmStreamChunk::ToolCallDelta {
            arguments: args.to_string(),
        },
        LlmStreamChunk::Done {
            finish_reason: FinishReason::ToolCalls,
        },
    ]
}

fn reply(text: &str) -> Vec<LlmStreamChunk> {
    vec![
        LlmStreamChunk::Content(text.to_string()),
        LlmStreamChunk::Done {
            finish_reason: FinishReason::Stop,
        },
    ]
}

fn names(events: &[AgentEvent]) -> Vec<String> {
    events
        .iter()
        .map(|e| match e {
            AgentEvent::StreamStart => "StreamStart".into(),
            AgentEvent::Token(t) => format!("Token({})", t),
            AgentEvent::StreamEnd => "StreamEnd".into(),
            AgentEvent::ToolCallStart { tool_name, .. } => format!("ToolCallStart({})", tool_name),
            AgentEvent::ToolCallEnd { tool_name, result } => {
                format!("ToolCallEnd({}: {})", tool_name, result)
            }
            AgentEvent::Error(e) => format!("Error({})", e),
            AgentEvent::TransferToHuman { reason } => format!("Transfer({})", reason),
        })
        .collect()
}

#[test]
fn test_on_message_direct_reply() {
    let model = Model::Mock(MockLlmClient::new(vec!["Hello there!".to_string()]));
    let out = handle(AgentConfig::default(), &[], &model, "hi");
    assert!(out.result.is_ok());
    assert_eq!(names(&out.events), vec!["StreamStart", "Token(Hello there!)", "StreamEnd"]);
    let history = &out.run.context().history;
    assert_eq!(history.len(), 2);
    assert_eq!(history[0].content, "hi");
    assert_eq!(history[1].role, MessageRole::Assistant);
    assert_eq!(history[1].content, "Hello there!");
    assert!(out.run.is_finished());
}

#[test]
fn test_on_message_two_round_tool_call_and_reply() {
    let model = Model::Script(vec![tool_call("echo", r#"{"message":"ping"}"#), reply("pong")]);
    let out = handle(AgentConfig::default(), &[("echo", echo)], &model, "ping");
    assert!(out.result.is_ok());
    let n = names(&out.events);
    assert!(n.contains(&"ToolCallEnd(echo: Echo: ping)".to_string()), "{:?}", n);
    assert!(n.contains(&"Token(pong)".to_string()), "{:?}", n);
    assert_eq!(out.run.round(), 1);
}

#[test]
fn test_on_message_tool_call_then_reply() {
    let model = Model::Script(vec![tool_call("echo", r#"{"message":"hi"}"#), reply("Done!")]);
    let out = handle(AgentConfig::default(), &[("echo", echo)], &model, "hello");
    let n = names(&out.events);
    assert_eq!(
        n,
        vec![
            "StreamStart",
            "StreamEnd",
            "ToolCallStart(echo)",
            "ToolCallEnd(echo: Echo: hi)",
            "StreamStart",
            "Token(Done!)",
            "StreamEnd"
        ]
    );
    let history = &out.run.context().history;
    assert_eq!(history.len(), 4);
    assert_eq!(history[1].tool_calls.as_ref().unwrap()[0].name, "echo");
    assert_eq!(history[2].role, MessageRole::Tool);
    assert_eq!(history[2].tool_call_id.as_deref(), Some("call_1"));
    assert_eq!(history[2].content, "Echo: hi");
    assert_eq!(history[3].content, "Done!");
}

#[test]
fn test_on_message_error_propagation() {
    let model = Model::Mock(MockLlmClient::new(vec![]).with_error());
    let out = handle(AgentConfig::default(), &[], &model, "test");
    let err = out.result.unwrap_err();
    assert!(err.message().contains("Mock error"), "{}", err.message());
    assert_eq!(agent_failure_text(&err), "Agent 处理错误: LLM error: Mock error");
}

#[test]
fn test_on_message_tool_execution_error() {
    let model = Model::Script(vec![tool_call("fail", "{}"), reply("After failure")]);
    let out = handle(AgentConfig::default(), &[("fail", fail)], &model, "do it");
    assert!(out.result.is_ok());
    let ends: Vec<&AgentEvent> = out
        .events
        .iter()
        .filter(|e| matches!(e, AgentEvent::ToolCallEnd { .. }))
        .collect();
    assert_eq!(ends.len(), 1);
    if let AgentEvent::ToolCallEnd { result, .. } = ends[0] {
        assert_eq!(result, "工具执行失败: Tool error: intentional failure");
    }
}

#[test]
fn test_on_message_unknown_tool() {
    let model = Model::Script(vec![tool_call("nonexistent", "{}"), reply("ok")]);
    let out = handle(AgentConfig::default(), &[], &model, "x");
    assert!(out.result.is_ok());
    let n = names(&out.events);
    assert!(n.contains(&"ToolCallEnd(nonexistent: 工具不存在: nonexistent)".to_string()), "{:?}", n);
    assert!(!n.iter().any(|e| e.starts_with("ToolCallStart")));
}

#[test]
fn integration_max_rounds_enforced() {
    let model = Model::Script(vec![tool_call("echo", r#"{"message":"again"}"#)]);
    let out = handle(AgentConfig::default(), &[("echo", echo)], &model, "loop");
    assert!(out.result.is_ok());
    assert_eq!(out.model_calls, 10);
    assert_eq!(out.run.round(), 10);
    assert!(out.run.is_finished());
}

#[test]
fn voice_mode_stops_after_two_rounds() {
    let model = Model::Script(vec![tool_call("echo", r#"{"message":"again"}"#)]);
    let out = handle(AgentConfig::voice(), &[("echo", echo)], &model, "loop");
    assert_eq!(out.model_calls, 2);
}

#[test]
fn stream_error_chunk_ends_the_handling() {
    let model = Model::Script(vec![vec![
        LlmStreamChunk::Content("par".into()),
        LlmStreamChunk::Error("upstream closed".into()),
        LlmStreamChunk::Content("never".into()),
    ]]);
    let out = handle(AgentConfig::default(), &[], &model, "x");
    assert!(out.result.is_ok());
    assert_eq!(
        names(&out.events),
        vec!["StreamStart", "Token(par)", "Error(upstream closed)"]
    );
    assert_eq!(out.model_calls, 1);
}

#[test]
fn invalid_tool_arguments_abort_with_serialization_error() {
    let model = Model::Script(vec![tool_call("echo", "not json"), reply("unused")]);
    let out = handle(AgentConfig::default(), &[("echo", echo)], &model, "x");
    assert!(matches!(out.result, Err(AgentError::Serialization(_))));
    assert!(names(&out.events).contains(&"ToolCallStart(echo)".to_string()));
}

#[test]
fn integration_multiple_tool_rounds() {
    let model = Model::Script(vec![
        tool_call("echo", r#"{"message":"1"}"#),
        tool_call("echo", r#"{"message":"2"}"#),
        reply("final"),
    ]);
    let out = handle(AgentConfig::default(), &[("echo", echo)], &model, "x");
    let n = names(&out.events);
    assert!(n.contains(&"ToolCallEnd(echo: Echo: 1)".to_string()));
    assert!(n.contains(&"ToolCallEnd(echo: Echo: 2)".to_string()));
    assert!(n.contains(&"Token(final)".to_string()));
    assert_eq!(out.model_calls, 3);
    assert_eq!(out.run.round(), 2);
}

#[test]
fn time_limit_ends_before_the_first_round() {
    let input = make_user_input("late");
    let mut run = AgentRun::start(AgentConfig::default(), &input);
    assert!(run.begin_round(true, vec![]).is_none());
    assert!(run.is_finished());
    assert!(run.begin_round(false, vec![]).is_none());
}

#[test]
fn request_carries_context_and_settings() {
    let input = make_user_input("hello");
    let mut run = AgentRun::start(AgentConfig::default(), &input);
    let (req, start) = run.begin_round(false, vec![]).unwrap();
    assert!(matches!(start, AgentEvent::StreamStart));
    assert_eq!(req.messages.len(), 2);
    assert_eq!(req.messages[0].role, MessageRole::System);
    assert_eq!(req.messages[1].content, "hello");
    assert_eq!(req.max_tokens, Some(500));
    assert_eq!(req.temperature_milli, Some(700));
    assert!(req.stream);
}

#[test]
fn tool_call_arguments_accumulate_across_deltas() {
    let mut turn = StreamTurn::new();
    for c in [
        LlmStreamChunk::ToolCallStart {
            id: "c".into(),
            name: "echo".into(),
        },
        LlmStreamChunk::ToolCallDelta {
            arguments: "{\"message\":".into(),
        },
        LlmStreamChunk::ToolCallDelta {
            arguments: "\"x\"}".into(),
        },
        LlmStreamChunk::Done {
            finish_reason: FinishReason::ToolCalls,
        },
    ] {
        assert!(matches!(turn.on_chunk(c), ChunkOutcome::Continue));
    }
    assert_eq!(turn.tool_calls.len(), 1);
    assert_eq!(turn.tool_calls[0].arguments, "{\"message\":\"x\"}");
    assert!(turn.current.is_none());
}

#[test]
fn user_text_input_is_a_user_message() {
    let i = AgentInput::user_text("s".into(), "hi".into());
    assert_eq!(i.session_id, "s");
    assert_eq!(i.message.role, MessageRole::User);
    assert_eq!(i.message.content, "hi");
    assert!(i.message.tool_calls.is_none());
}

fn transfer(_args: &JsonFields) -> Result<String, AgentError> {
    Ok("<<TRANSFER>>".into())
}

fn tokens(events: &[AgentEvent]) -> Vec<&str> {
    events
        .iter()
        .filter_map(|e| if let AgentEvent::Token(t) = e { Some(t.as_str()) } else { None })
        .collect()
}

#[test]
fn integration_direct_reply() {
    let model = Model::Mock(MockLlmClient::new(vec!["Direct answer".into()]));
    let out = handle(AgentConfig::default(), &[], &model, "hi");
    assert!(matches!(out.events.first(), Some(AgentEvent::StreamStart)));
    assert!(matches!(out.events.last(), Some(AgentEvent::StreamEnd)));
    assert!(tokens(&out.events).contains(&"Direct answer"));
}

#[test]
fn integration_tool_call_then_final_reply() {
    let model = Model::Script(vec![tool_call("echo", r#"{"message":"hi"}"#), reply("Got it")]);
    let out = handle(AgentConfig::default(), &[("echo", echo)], &model, "hello");
    assert!(names(&out.events).iter().any(|n| n.contains("Echo: hi")));
    assert!(tokens(&out.events).contains(&"Got it"));
}

#[test]
fn integration_transfer_to_human() {
    let model = Model::Script(vec![
        tool_call(
            "transfer_to_human",
            r#"{"reason":"complex issue","reply":"为您转接专属客服"}"#,
        ),
        reply("好的"),
    ]);
    let out = handle(AgentConfig::default(), &[("transfer_to_human", transfer)], &model, "投诉");
    assert!(out.events.iter().any(|e| {
        matches!(e, AgentEvent::ToolCallEnd { tool_name, .. } if tool_name == "transfer_to_human")
    }));
}

#[test]
fn integration_tool_execution_failure_continues() {
    let model = Model::Script(vec![tool_call("fail", "{}"), reply("Recovered")]);
    let out = handle(AgentConfig::default(), &[("fail", fail)], &model, "fail");
    assert!(out.events.iter().any(|e| {
        matches!(e, AgentEvent::ToolCallEnd { tool_name, .. } if tool_name == "fail")
    }));
    assert!(tokens(&out.events).contains(&"Recovered"));
}

#[test]
fn integration_llm_error_returns_err() {
    let model = Model::Mock(MockLlmClient::new(vec!["unused".into()]).with_error());
    let out = handle(AgentConfig::default(), &[], &model, "test");
    assert!(out.result.is_err());
    assert_eq!(out.model_calls, 0);
}

#[test]
fn request_after_tool_round_ends_with_calls_and_results() {
    let input = make_user_input("查订单");
    let mut run = AgentRun::start(AgentConfig::default(), &input);
    run.begin_round(false, vec![]).unwrap();
    for c in tool_call("order_query", r#"{"order_id":"ORD-1001"}"#) {
        run.on_chunk(c);
    }
    let (end, calls) = run.end_stream();
    assert!(matches!(end, AgentEvent::StreamEnd));
    let calls = calls.unwrap();
    assert_eq!(calls.len(), 1);
    assert_eq!(run.unanswered(), 1);
    let names = vec!["order_query".to_string()];
    let (i, start) = run.begin_tool(&names).unwrap();
    assert_eq!(i, 0);
    assert!(matches!(start, AgentEvent::ToolCallStart { ref tool_name, ref arguments } if tool_name == "order_query" && arguments == r#"{"order_id":"ORD-1001"}"#));
    let e = run.record_tool_result(&ToolOutcome::Finished("已发货".into()));
    assert!(matches!(e, AgentEvent::ToolCallEnd { ref tool_name, ref result } if tool_name == "order_query" && result == "已发货"));
    assert_eq!(run.unanswered(), 0);
    run.end_round();
    let (req, _) = run.begin_round(false, vec![]).unwrap();
    assert_eq!(req.messages.len(), 4);
    assert_eq!(req.messages[1].content, "查订单");
    assert_eq!(req.messages[2].role, MessageRole::Assistant);
    assert_eq!(req.messages[2].content, "");
    let tc = req.messages[2].tool_calls.as_ref().unwrap();
    assert_eq!(tc[0].id, "call_1");
    assert_eq!(tc[0].arguments, r#"{"order_id":"ORD-1001"}"#);
    assert_eq!(req.messages[3].role, MessageRole::Tool);
    assert_eq!(req.messages[3].content, "已发货");
    assert_eq!(req.messages[3].tool_call_id.as_deref(), Some("call_1"));
}

#[test]
fn zero_rounds_means_no_request() {
    let mut config = AgentConfig::default();
    config.max_rounds = 0;
    let model = Model::Script(vec![reply("never")]);
    let out = handle(config, &[], &model, "x");
    assert!(out.result.is_ok());
    assert!(out.events.is_empty());
    assert_eq!(out.model_calls, 0);
}

#[test]
fn knowledge_lookup_uses_the_message_and_three_hits() {
    let input = make_user_input("你好");
    let (query, limit) = seat_agent::agent::retrieval_query(&input);
    assert_eq!(query, "你好");
    assert_eq!(limit, 3);
}
