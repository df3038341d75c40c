use seat_agent::agent::tool_arguments;
use seat_agent::fields::JsonFields;
use seat_agent::tools::{
    complaint_query_id, effective_limit, format_complaint, format_knowledge_hits, format_order,
    format_refund, hit_content, knowledge_query, order_query_id, refund_query_id,
    KnowledgeHitText, MockBusinessBackend, MockEmbeddingClient, TransferToHumanTool,
};
use serde_json::Value;

fn args(text: &str) -> JsonFields {
    JsonFields::from_json(&tool_arguments(text).expect("arguments are JSON"))
}

fn order_query(text: &str) -> Result<String, String> {
    let backend = MockBusinessBackend::new();
    let id = order_query_id(&args(text)).map_err(|e| e.message())?;
    Ok(format_order(&id, &backend.query_order(&id)))
}

fn refund_query(text: &str) -> Result<String, String> {
    let backend = MockBusinessBackend::new();
    let id = refund_query_id(&args(text)).map_err(|e| e.message())?;
    Ok(format_refund(&id, &backend.query_refund(&id)))
}

fn complaint_query(text: &str) -> Result<String, String> {
    let backend = MockBusinessBackend::new();
    let id = complaint_query_id(&args(text)).map_err(|e| e.message())?;
    Ok(format_complaint(&id, &backend.query_complaint(&id)))
}

#[test]
fn order_query_returns_expected_text() {
    let out = order_query(r#"{ "order_id": "ORD-1001" }"#).unwrap();
    assert!(out.contains("ORD-1001"));
    assert!(out.contains("已发货"));
    assert!(out.contains("¥299.00"));
}

#[test]
fn order_query_exact_text() {
    let out = order_query(r#"{ "order_id": "ORD-1001" }"#).unwrap();
    assert_eq!(
        out,
        "订单查询成功：\n订单号：ORD-1001\n状态：已发货\n金额：¥299.00\n下单时间：2026-07-01 10:24"
    );
}

#[test]
fn order_query_missing_id_is_error() {
    let err = order_query("{}").unwrap_err();
    assert!(err.contains("missing 'order_id'"));
}

#[test]
fn order_query_unknown_is_explicit() {
    let out = order_query(r#"{ "order_id": "NOPE" }"#).unwrap();
    assert!(out.contains("未找到订单"));
    assert_eq!(out, "未找到订单 NOPE，请核对订单号或转人工核实。");
}

#[test]
fn order_query_non_string_id_is_missing() {
    let err = order_query(r#"{ "order_id": 1001 }"#).unwrap_err();
    assert_eq!(err, "Tool error: order_query: missing 'order_id'");
}

#[test]
fn refund_query_returns_expected_text() {
    let out = refund_query(r#"{ "refund_id": "RF-2001" }"#).unwrap();
    assert!(out.contains("RF-2001"));
    assert!(out.contains("商品质量问题"));
}

#[test]
fn refund_query_missing_id_is_error() {
    let err = refund_query("{}").unwrap_err();
    assert!(err.contains("missing 'refund_id'"));
}

#[test]
fn refund_query_unknown_is_explicit() {
    let out = refund_query(r#"{ "refund_id": "RF-9" }"#).unwrap();
    assert_eq!(out, "未找到退款单 RF-9，请核对退款单号或转人工核实。");
}

#[test]
fn complaint_query_returns_expected_text() {
    let out = complaint_query(r#"{ "complaint_id": "CMP-3001" }"#).unwrap();
    assert!(out.contains("CMP-3001"));
    assert!(out.contains("客服组-李工"));
}

#[test]
fn complaint_query_missing_id_is_error() {
    let err = complaint_query("{}").unwrap_err();
    assert!(err.contains("missing 'complaint_id'"));
}

#[test]
fn complaint_query_unknown_is_explicit() {
    let out = complaint_query(r#"{ "complaint_id": "X" }"#).unwrap();
    assert_eq!(out, "未找到投诉单 X，请核对投诉单号或转人工核实。");
}

#[test]
fn backend_record_with_missing_fields_shows_unknown() {
    let v: Value = serde_json::from_str(r#"{ "status": "已取消", "amount": 12 }"#).unwrap();
    let record = JsonFields::record_of(&v);
    let out = format_order("ORD-7", &record);
    assert_eq!(
        out,
        "订单查询成功：\n订单号：ORD-7\n状态：已取消\n金额：未知\n下单时间：未知"
    );
}

#[test]
fn backend_null_record_is_not_found() {
    let record = JsonFields::record_of(&Value::Null);
    assert!(record.is_none());
    assert_eq!(
        format_refund("RF-1", &record),
        "未找到退款单 RF-1，请核对退款单号或转人工核实。"
    );
}

#[test]
fn returns_transfer_marker_and_reply() {
    let tool = TransferToHumanTool::new();
    let out = tool
        .execute(&args(
            r#"{"reason": "超出知识库范围，需人工核实", "reply": "非常抱歉，这个问题需要为您转接专属客服，请稍候。"}"#,
        ))
        .unwrap();
    assert!(out.starts_with("<<TRANSFER>>"));
    assert!(out.contains("超出知识库范围"));
    assert!(out.contains("专属客服"));
    assert_eq!(
        out,
        "<<TRANSFER>>\n原因：超出知识库范围，需人工核实\n话术：非常抱歉，这个问题需要为您转接专属客服，请稍候。"
    );
}

#[test]
fn missing_reason_is_error() {
    let tool = TransferToHumanTool::new();
    let err = tool.execute(&args(r#"{ "reply": "x" }"#)).unwrap_err();
    assert!(err.message().contains("missing 'reason'"));
}

#[test]
fn missing_reply_is_error() {
    let tool = TransferToHumanTool::new();
    let err = tool.execute(&args(r#"{ "reason": "x" }"#)).unwrap_err();
    assert!(err.message().contains("missing 'reply'"));
}

#[test]
fn transfer_definition_names_the_tool() {
    let schema: Value = serde_json::from_str(r#"{"type": "object"}"#).unwrap();
    let d = TransferToHumanTool::new().definition(schema.clone());
    assert_eq!(d.name, "transfer_to_human");
    assert_eq!(d.description, "转接人工客服");
    assert_eq!(d.parameters, schema);
}

#[test]
fn missing_query_is_error() {
    let err = knowledge_query(&args("{}")).unwrap_err();
    assert_eq!(err.message(), "Tool error: knowledge_search: missing 'query'");
}

#[test]
fn knowledge_query_reads_the_query() {
    assert_eq!(knowledge_query(&args(r#"{"query": "退款"}"#)).unwrap(), "退款");
}

#[test]
fn no_result_is_explicit() {
    let out = format_knowledge_hits(&vec![]);
    assert!(out.contains("没有找到"));
    assert_eq!(out, "知识库中没有找到相关内容，建议转人工或向客户说明无法回答。");
}

#[test]
fn returns_relevant_content() {
    let hits = vec![
        KnowledgeHitText {
            score_text: "0.912".into(),
            content: Some("知识0: 退款政策详情...".into()),
        },
        KnowledgeHitText {
            score_text: "0.101".into(),
            content: None,
        },
    ];
    let out = format_knowledge_hits(&hits);
    assert!(out.contains("退款"));
    assert_eq!(
        out,
        "[0] (score=0.912) 知识0: 退款政策详情...\n[1] (score=0.101) <无正文>\n"
    );
}

#[test]
fn knowledge_limit_falls_back_to_top_k() {
    assert_eq!(effective_limit(0, 3), 3);
    assert_eq!(effective_limit(5, 3), 5);
}

#[test]
fn hit_content_reads_the_content_field() {
    let v: Value = serde_json::from_str(r#"{"content": "物流时效", "n": 1}"#).unwrap();
    assert_eq!(hit_content(&JsonFields::from_json(&v)), "物流时效");
    assert_eq!(hit_content(&JsonFields::from_json(&Value::Null)), "");
}

#[test]
fn mock_embedding_client_keeps_its_dimension() {
    assert_eq!(MockEmbeddingClient::new(8).dim(), 8);
}
