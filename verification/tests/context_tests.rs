use seat_agent::config::{AgentConfig, Modality};
use seat_agent::context::Context;
use seat_agent::types::{KnowledgeResult, MessageRole};

fn text_config() -> AgentConfig {
    AgentConfig::default()
}

fn voice_config() -> AgentConfig {
    AgentConfig::voice()
}

#[test]
fn test_context_new_text_mode() {
    let ctx = Context::new("s1".into(), text_config());
    assert_eq!(ctx.session_id, "s1");
    assert_eq!(ctx.system.len(), 1);
    assert_eq!(ctx.system[0].role, MessageRole::System);
    assert!(ctx.system[0].content.contains("客服助手"));
    assert!(ctx.system[0].content.contains("分段清晰"));
}

#[test]
fn test_context_new_voice_mode() {
    let ctx = Context::new("s2".into(), voice_config());
    assert_eq!(ctx.modality, Modality::Voice);
    assert!(ctx.system[0].content.contains("简短"));
}

#[test]
fn test_context_custom_system_prompt() {
    let mut config = text_config();
    config.system_prompt = Some("Custom prompt".into());
    let ctx = Context::new("s3".into(), config);
    assert_eq!(ctx.system[0].content, "Custom prompt");
}

#[test]
fn test_add_user_message() {
    let mut ctx = Context::new("s1".into(), text_config());
    ctx.add_user_message("hello".into());
    assert_eq!(ctx.history.len(), 1);
    assert_eq!(ctx.history[0].role, MessageRole::User);
    assert_eq!(ctx.history[0].content, "hello");
}

#[test]
fn test_add_assistant_message() {
    let mut ctx = Context::new("s1".into(), text_config());
    ctx.add_assistant_message("hi".into(), None);
    assert_eq!(ctx.history.len(), 1);
    assert_eq!(ctx.history[0].role, MessageRole::Assistant);
}

#[test]
fn test_add_tool_result() {
    let mut ctx = Context::new("s1".into(), text_config());
    ctx.add_tool_result("call_1".into(), "result".into());
    assert_eq!(ctx.working.len(), 1);
    assert_eq!(ctx.working[0].role, MessageRole::Tool);
    assert_eq!(ctx.working[0].tool_call_id.as_deref(), Some("call_1"));
}

#[test]
fn test_build_messages_order() {
    let mut ctx = Context::new("s1".into(), text_config());
    ctx.set_history_summary(Some("past summary".into()));
    ctx.set_retrieval(vec![KnowledgeResult {
        id: "k1".into(),
        content: "retrieval text".into(),
    }]);
    ctx.add_user_message("user msg".into());
    ctx.add_tool_result("call_1".into(), "tool result".into());

    let msgs = ctx.build_messages();
    assert!(msgs.len() >= 5);
    assert_eq!(msgs[0].role, MessageRole::System);
    assert!(
        msgs[1].content.contains("历史会话摘要"),
        "Expected summary at index 1"
    );
    assert!(
        msgs[2].content.contains("retrieval text"),
        "Expected retrieval at index 2"
    );
    assert_eq!(msgs[3].role, MessageRole::User);
    assert_eq!(msgs[3].content, "user msg");
    assert_eq!(msgs[4].role, MessageRole::Tool);
}

#[test]
fn test_build_messages_without_optional_layers() {
    let mut ctx = Context::new("s1".into(), text_config());
    ctx.add_user_message("msg".into());
    let msgs = ctx.build_messages();
    assert_eq!(msgs.len(), 2);
    assert_eq!(msgs[0].role, MessageRole::System);
    assert_eq!(msgs[1].role, MessageRole::User);
}

#[test]
fn test_flush_working_to_history() {
    let mut ctx = Context::new("s1".into(), text_config());
    ctx.add_tool_result("c1".into(), "r1".into());
    ctx.add_tool_result("c2".into(), "r2".into());
    assert_eq!(ctx.working.len(), 2);
    assert_eq!(ctx.history.len(), 0);

    ctx.flush_working_to_history();
    assert_eq!(ctx.working.len(), 0);
    assert_eq!(ctx.history.len(), 2);
    assert_eq!(ctx.history[0].tool_call_id.as_deref(), Some("c1"));
}

#[test]
fn test_clear_working() {
    let mut ctx = Context::new("s1".into(), text_config());
    ctx.add_tool_result("c1".into(), "r1".into());
    ctx.clear_working();
    assert!(ctx.working.is_empty());
}

#[test]
fn test_truncate_history() {
    let mut ctx = Context::new("s1".into(), text_config());
    for i in 0..10 {
        ctx.add_user_message(format!("msg{}", i));
    }
    assert_eq!(ctx.history.len(), 10);

    ctx.truncate_history();
    assert_eq!(ctx.history.len(), 2);
    assert_eq!(ctx.history[0].content, "msg8");
    assert_eq!(ctx.history[1].content, "msg9");
}

#[test]
fn test_truncate_history_preserves_min() {
    let mut ctx = Context::new("s1".into(), text_config());
    ctx.add_user_message("a".into());
    ctx.add_user_message("b".into());
    ctx.truncate_history();
    assert_eq!(ctx.history.len(), 2);
}

#[test]
fn test_estimate_tokens() {
    let mut ctx = Context::new("s1".into(), text_config());
    let base = ctx.estimate_tokens();
    assert!(base > 0);

    ctx.add_user_message("hello world".into());
    let after_msg = ctx.estimate_tokens();
    assert!(after_msg > base);

    ctx.set_history_summary(Some("a summary here".into()));
    let after_summary = ctx.estimate_tokens();
    assert!(after_summary > after_msg);

    ctx.set_retrieval(vec![KnowledgeResult {
        id: "k1".into(),
        content: "retrieval content".into(),
    }]);
    let after_retrieval = ctx.estimate_tokens();
    assert!(after_retrieval > after_summary);
}

#[test]
fn test_estimate_tokens_empty_context() {
    let ctx = Context::new("s1".into(), text_config());
    assert!(ctx.estimate_tokens() > 0);
}

#[test]
fn appending_a_message_adds_its_quarter_character_count() {
    let mut ctx = Context::new("s1".into(), text_config());
    let before = ctx.estimate_tokens();
    ctx.add_assistant_message("退款已受理，请稍候".into(), None);
    assert_eq!(ctx.estimate_tokens(), before + 9 / 4);
    ctx.add_user_message("abcd".into());
    assert_eq!(ctx.estimate_tokens(), before + 2 + 1);
}

#[test]
fn estimate_counts_characters_not_bytes() {
    let mut config = text_config();
    config.system_prompt = Some("你好你好".into());
    let ctx = Context::new("s1".into(), config);
    assert_eq!(ctx.estimate_tokens(), 1);
}

#[test]
fn truncation_keeps_protected_layers() {
    let mut ctx = Context::new("s1".into(), text_config());
    ctx.set_history_summary(Some("summary".into()));
    ctx.set_retrieval(vec![KnowledgeResult {
        id: "k".into(),
        content: "c".into(),
    }]);
    for i in 0..5 {
        ctx.add_user_message(format!("u{}", i));
    }
    ctx.add_tool_result("t".into(), "r".into());
    ctx.truncate_history();
    assert_eq!(ctx.system.len(), 1);
    assert_eq!(ctx.history_summary.as_deref(), Some("summary"));
    assert_eq!(ctx.retrieval.len(), 1);
    assert_eq!(ctx.working.len(), 1);
    assert_eq!(ctx.history.len(), 2);
    assert_eq!(ctx.history[0].content, "u3");
}

#[test]
fn build_messages_exact_layers() {
    let mut ctx = Context::new("s1".into(), text_config());
    ctx.set_history_summary(Some("past".into()));
    ctx.set_retrieval(vec![
        KnowledgeResult { id: "k1".into(), content: "a".into() },
        KnowledgeResult { id: "k2".into(), content: "b".into() },
    ]);
    let msgs = ctx.build_messages();
    assert_eq!(msgs.len(), 3);
    assert_eq!(msgs[1].content, "历史会话摘要：past");
    assert_eq!(msgs[2].content, "知识库检索结果：\n【k1】a\n【k2】b");
    assert_eq!(msgs[2].role, MessageRole::System);
}
