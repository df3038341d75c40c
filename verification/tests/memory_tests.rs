use seat_agent::fields::JsonFields;
use seat_agent::memory::{
    build_summary_prompt, build_transcript, select_summaries, summary_key, summary_metadata,
    summary_request, SummaryCollector, SUMMARY_MAX_TOKENS, SUMMARY_TEMPERATURE_MILLI,
};
use seat_agent::types::{FinishReason, LlmMessage, LlmStreamChunk, MessageRole};

fn msg(role: MessageRole, content: &str) -> LlmMessage {
    LlmMessage {
        role,
        content: content.to_string(),
        tool_calls: None,
        tool_call_id: None,
    }
}

fn history() -> Vec<LlmMessage> {
    vec![
        msg(MessageRole::User, "我要退款"),
        msg(MessageRole::Assistant, "请提供订单号"),
    ]
}

#[test]
fn transcript_has_one_line_per_message() {
    assert_eq!(build_transcript(&history()), "User: 我要退款\nAssistant: 请提供订单号");
    assert_eq!(build_transcript(&[]), "");
}

#[test]
fn generate_new_summary() {
    let prompt = build_summary_prompt(&history(), None);
    assert_eq!(
        prompt,
        "请将以下对话总结为不超过100字的结构化摘要（包含客户意图和关键事实）：\n\nUser: 我要退款\nAssistant: 请提供订单号"
    );
}

#[test]
fn generate_merged_summary() {
    let prompt = build_summary_prompt(&history(), Some("客户曾咨询物流"));
    assert_eq!(
        prompt,
        "以下是客户的历史摘要和最新对话，请修正并合并为不超过100字的最新摘要：\n\n已有摘要：客户曾咨询物流\n\n最新对话：\nUser: 我要退款\nAssistant: 请提供订单号"
    );
}

#[test]
fn summary_request_settings() {
    let req = summary_request(&history(), None);
    assert_eq!(req.messages.len(), 1);
    assert_eq!(req.messages[0].role, MessageRole::User);
    assert!(req.tools.is_empty());
    assert_eq!(req.max_tokens, Some(200));
    assert_eq!(SUMMARY_MAX_TOKENS, 200);
    assert_eq!(req.temperature_milli, Some(300));
    assert_eq!(SUMMARY_TEMPERATURE_MILLI, 300);
    assert!(!req.stream);
}

#[test]
fn collector_joins_text_until_done_and_trims() {
    let mut c = SummaryCollector::new();
    assert!(!c.on_chunk(&LlmStreamChunk::Content("  客户要求".into())));
    assert!(!c.on_chunk(&LlmStreamChunk::ToolCallDelta {
        arguments: "ignored".into()
    }));
    assert!(!c.on_chunk(&LlmStreamChunk::Content("退款。 \n".into())));
    assert!(c.on_chunk(&LlmStreamChunk::Done {
        finish_reason: FinishReason::Stop
    }));
    assert_eq!(c.finish(), "客户要求退款。");
}

#[test]
fn summary_key_and_metadata() {
    assert_eq!(summary_key("s1", "c1"), "summary:s1:c1");
    let f = summary_metadata("s1", "c1", "摘要");
    assert_eq!(f.get_str("session_id").as_deref(), Some("s1"));
    assert_eq!(f.get_str("customer_id").as_deref(), Some("c1"));
    assert_eq!(f.get_str("summary").as_deref(), Some("摘要"));
}

fn hit(customer: Option<&str>, session: Option<&str>, summary: Option<&str>) -> JsonFields {
    let mut f = JsonFields::new();
    if let Some(c) = customer {
        f.insert("customer_id".into(), c.into());
    }
    if let Some(s) = session {
        f.insert("session_id".into(), s.into());
    }
    if let Some(t) = summary {
        f.insert("summary".into(), t.into());
    }
    f
}

#[test]
fn save_and_search_summary() {
    let hits = vec![
        summary_metadata("s1", "c1", "first"),
        summary_metadata("s2", "c2", "other customer"),
        summary_metadata("s3", "c1", "second"),
    ];
    let found = select_summaries(&hits, "c1");
    assert_eq!(found.len(), 2);
    assert_eq!((found[0].index, found[0].session_id.as_str(), found[0].summary.as_str()), (0, "s1", "first"));
    assert_eq!((found[1].index, found[1].session_id.as_str(), found[1].summary.as_str()), (2, "s3", "second"));
}

#[test]
fn search_empty_store() {
    assert!(select_summaries(&vec![], "c1").is_empty());
}

#[test]
fn incomplete_hits_are_skipped() {
    let hits = vec![
        hit(Some("c1"), None, Some("no session")),
        hit(Some("c1"), Some("s"), None),
        hit(None, Some("s"), Some("no customer")),
        hit(Some("c1"), Some("s9"), Some("ok")),
    ];
    let found = select_summaries(&hits, "c1");
    assert_eq!(found.len(), 1);
    assert_eq!(found[0].index, 3);
    assert_eq!(found[0].summary, "ok");
}
