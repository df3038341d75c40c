use seat_agent::sse::{
    decode_payload, classify_line, classify_server_line, delta_chunks, parse_finish_reason, FunctionDelta,
    ServerChoice, ServerToolCallDelta, SseBuffer, SseLine, StreamDelta, ToolCallPiece,
    ToolCallSlots,
};
use seat_agent::types::{FinishReason, LlmStreamChunk};

fn data_of(l: SseLine) -> Option<String> {
    match l {
        SseLine::Data(d) => Some(d),
        _ => None,
    }
}

#[test]
fn buffer_cuts_complete_lines_only() {
    let mut b = SseBuffer::new();
    b.push_text("data: a\ndata: b");
    assert_eq!(b.next_line().as_deref(), Some("data: a"));
    assert_eq!(b.next_line(), None);
    b.push_text("c\n\n");
    assert_eq!(b.next_line().as_deref(), Some("data: bc"));
    assert_eq!(b.next_line().as_deref(), Some(""));
    assert_eq!(b.next_line(), None);
}

#[test]
fn tools_way_trims_payload_and_skips_comments() {
    assert!(matches!(classify_line(""), SseLine::Skip));
    assert!(matches!(classify_line(": keep-alive"), SseLine::Skip));
    assert!(matches!(classify_line("event: ping"), SseLine::Skip));
    assert!(matches!(classify_line("data: [DONE]"), SseLine::Done));
    assert!(matches!(classify_line("  data:  [DONE]  "), SseLine::Done));
    assert_eq!(data_of(classify_line("data:  {\"a\":1} ")).as_deref(), Some("{\"a\":1}"));
}

#[test]
fn server_way_takes_payload_as_it_stands() {
    assert!(matches!(classify_server_line(": comment"), SseLine::Skip));
    assert!(matches!(classify_server_line("data: [DONE]"), SseLine::Done));
    assert_eq!(data_of(classify_server_line("data:  x")).as_deref(), Some(" x"));
    assert!(matches!(classify_server_line("data:  [DONE]"), SseLine::Data(_)));
}

#[test]
fn finish_reasons_map_with_stop_as_fallback() {
    assert_eq!(parse_finish_reason("stop"), FinishReason::Stop);
    assert_eq!(parse_finish_reason("length"), FinishReason::Length);
    assert_eq!(parse_finish_reason("tool_calls"), FinishReason::ToolCalls);
    assert_eq!(parse_finish_reason("content_filter"), FinishReason::Stop);
}

#[test]
fn delta_with_text_and_tool_call_fragment() {
    let d = StreamDelta {
        has_delta: true,
        content: Some("你好".into()),
        tool_calls: vec![ToolCallPiece {
            index: Some(2),
            has_function: true,
            name: Some("order_query".into()),
            arguments: Some("{\"order_id\"".into()),
        }],
        finish_reason: None,
    };
    let (chunks, done) = delta_chunks(&d);
    assert!(!done);
    assert_eq!(chunks.len(), 3);
    assert!(matches!(&chunks[0], LlmStreamChunk::Content(t) if t == "你好"));
    assert!(
        matches!(&chunks[1], LlmStreamChunk::ToolCallStart { id, name } if id == "call_2" && name == "order_query")
    );
    assert!(
        matches!(&chunks[2], LlmStreamChunk::ToolCallDelta { arguments } if arguments == "{\"order_id\"")
    );
}

#[test]
fn delta_with_empty_text_and_finish_reason() {
    let d = StreamDelta {
        has_delta: true,
        content: Some(String::new()),
        tool_calls: vec![],
        finish_reason: Some("tool_calls".into()),
    };
    let (chunks, done) = delta_chunks(&d);
    assert!(done);
    assert_eq!(chunks.len(), 1);
    assert!(matches!(
        chunks[0],
        LlmStreamChunk::Done {
            finish_reason: FinishReason::ToolCalls
        }
    ));
}

#[test]
fn fragment_without_function_yields_nothing() {
    let d = StreamDelta {
        has_delta: true,
        content: None,
        tool_calls: vec![ToolCallPiece {
            index: None,
            has_function: false,
            name: Some("n".into()),
            arguments: Some("a".into()),
        }],
        finish_reason: None,
    };
    let (chunks, done) = delta_chunks(&d);
    assert!(chunks.is_empty());
    assert!(!done);
}

fn fragment(index: usize, id: Option<&str>, name: Option<&str>, args: Option<&str>) -> ServerToolCallDelta {
    ServerToolCallDelta {
        index,
        id: id.map(String::from),
        function: Some(FunctionDelta {
            name: name.map(String::from),
            arguments: args.map(String::from),
        }),
    }
}

#[test]
fn server_slots_join_argument_fragments_and_finish_in_order() {
    let mut slots = ToolCallSlots::new();
    let c1 = ServerChoice {
        content: Some("正在查询".into()),
        tool_calls: Some(vec![fragment(1, Some("call_b"), Some("refund_query"), Some("{\"refund_id\""))]),
        finish_reason: None,
    };
    let out1 = slots.on_choice(&c1);
    assert_eq!(out1.len(), 1);
    let c2 = ServerChoice {
        content: None,
        tool_calls: Some(vec![
            fragment(0, Some("call_a"), Some("order_query"), Some("{\"order_id\":\"1\"}")),
            fragment(1, None, None, Some(":\"2\"}")),
        ]),
        finish_reason: Some("tool_calls".into()),
    };
    assert!(slots.on_choice(&c2).is_empty());
    let fin = slots.finish_chunks();
    assert_eq!(fin.len(), 5);
    assert!(
        matches!(&fin[0], LlmStreamChunk::ToolCallStart { id, name } if id == "call_a" && name == "order_query")
    );
    assert!(
        matches!(&fin[1], LlmStreamChunk::ToolCallDelta { arguments } if arguments == "{\"order_id\":\"1\"}")
    );
    assert!(
        matches!(&fin[2], LlmStreamChunk::ToolCallStart { id, name } if id == "call_b" && name == "refund_query")
    );
    assert!(
        matches!(&fin[3], LlmStreamChunk::ToolCallDelta { arguments } if arguments == "{\"refund_id\":\"2\"}")
    );
    assert!(matches!(
        fin[4],
        LlmStreamChunk::Done {
            finish_reason: FinishReason::Stop
        }
    ));
}

#[test]
fn server_length_finish_is_reported_at_once() {
    let mut slots = ToolCallSlots::new();
    let c = ServerChoice {
        content: Some(String::new()),
        tool_calls: None,
        finish_reason: Some("length".into()),
    };
    let out = slots.on_choice(&c);
    assert_eq!(out.len(), 2);
    assert!(matches!(&out[0], LlmStreamChunk::Content(t) if t.is_empty()));
    assert!(matches!(
        out[1],
        LlmStreamChunk::Done {
            finish_reason: FinishReason::Length
        }
    ));
}

#[test]
fn server_gap_slots_finish_as_empty_calls() {
    let mut slots = ToolCallSlots::new();
    slots.apply(&fragment(1, Some("id1"), Some("n"), None));
    let fin = slots.finish_chunks();
    assert_eq!(fin.len(), 5);
    assert!(matches!(&fin[0], LlmStreamChunk::ToolCallStart { id, name } if id.is_empty() && name.is_empty()));
    assert!(matches!(&fin[3], LlmStreamChunk::ToolCallDelta { arguments } if arguments.is_empty()));
}

#[test]
fn payload_with_text_decodes_to_a_content_chunk() {
    let d = decode_payload(r#"{"choices":[{"delta":{"content":"您好"},"finish_reason":null}]}"#)
        .unwrap();
    assert!(d.has_delta);
    assert_eq!(d.content.as_deref(), Some("您好"));
    assert!(d.finish_reason.is_none());
    let (chunks, done) = delta_chunks(&d);
    assert!(!done);
    assert!(matches!(&chunks[..], [LlmStreamChunk::Content(t)] if t == "您好"));
}

#[test]
fn payload_with_tool_call_fragments() {
    let d = decode_payload(
        r#"{"choices":[{"delta":{"tool_calls":[{"index":1,"id":"x","function":{"name":"order_query","arguments":"{\"order_id\""}},{"index":1,"function":{"arguments":":\"1\"}"}},{"type":"function"}]}}]}"#,
    )
    .unwrap();
    assert_eq!(d.tool_calls.len(), 3);
    assert_eq!(d.tool_calls[0].index, Some(1));
    assert!(d.tool_calls[0].has_function);
    assert_eq!(d.tool_calls[0].name.as_deref(), Some("order_query"));
    assert!(d.tool_calls[1].name.is_none());
    assert!(!d.tool_calls[2].has_function);
    let (chunks, _) = delta_chunks(&d);
    assert_eq!(chunks.len(), 3);
    assert!(matches!(&chunks[0], LlmStreamChunk::ToolCallStart { id, .. } if id == "call_1"));
    assert!(matches!(&chunks[2], LlmStreamChunk::ToolCallDelta { arguments } if arguments == ":\"1\"}"));
}

#[test]
fn payload_finish_reason_without_delta() {
    let d = decode_payload(r#"{"choices":[{"finish_reason":"length"}]}"#).unwrap();
    assert!(!d.has_delta);
    let (chunks, done) = delta_chunks(&d);
    assert!(done);
    assert!(matches!(
        &chunks[..],
        [LlmStreamChunk::Done {
            finish_reason: FinishReason::Length
        }]
    ));
}

#[test]
fn payload_that_is_not_json_is_skipped() {
    assert!(decode_payload("{not json").is_none());
    let d = decode_payload(r#"{"choices":[]}"#).unwrap();
    assert!(!d.has_delta && d.tool_calls.is_empty() && d.finish_reason.is_none());
}

#[test]
fn server_argument_fragments_are_joined_in_arrival_order() {
    let mut slots = ToolCallSlots::new();
    slots.apply(&fragment(0, Some("c0"), Some("echo"), Some("ab")));
    slots.apply(&fragment(0, Some("c0b"), None, Some("cd")));
    slots.apply(&fragment(0, None, Some("echo2"), None));
    let fin = slots.finish_chunks();
    assert!(matches!(&fin[0], LlmStreamChunk::ToolCallStart { id, name } if id == "c0b" && name == "echo2"));
    assert!(matches!(&fin[1], LlmStreamChunk::ToolCallDelta { arguments } if arguments == "abcd"));
}

#[test]
fn lines_lose_unicode_white_space_at_both_ends() {
    assert_eq!(
        data_of(classify_line("\u{3000}\tdata: \u{a0}{\"b\":2}\u{2009}\r\n")).as_deref(),
        Some("{\"b\":2}")
    );
    assert!(matches!(classify_server_line("\u{85}data: [DONE]\u{205f}"), SseLine::Done));
    assert_eq!(
        data_of(classify_server_line("  data: x y \u{200b}")).as_deref(),
        Some("x y \u{200b}")
    );
}
