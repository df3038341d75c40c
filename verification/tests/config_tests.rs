use seat_agent::config::{AgentConfig, Modality};
use seat_agent::context::Context;
use seat_agent::error::AgentError;
use seat_agent::server_config::{
    default_addr, default_model, default_redis_url, default_session_ttl, AppConfig,
    ConfigOverrides, SessionKeyspace,
};
use std::time::Duration;

#[test]
fn test_max_rounds_respected() {
    let config = AgentConfig::default();
    assert_eq!(config.max_rounds, 10, "default text max_rounds should be 10");
    let voice_config = AgentConfig::voice();
    assert_eq!(voice_config.max_rounds, 2, "voice max_rounds should be 2");
}

#[test]
fn integration_voice_mode_config() {
    let config = AgentConfig::voice();
    assert_eq!(config.modality, Modality::Voice);
    assert_eq!(config.max_rounds, 2);
    assert_eq!(config.max_output_tokens, 200);
    let ctx = Context::new("s1".into(), config);
    assert!(ctx.system[0].content.contains("简短"));
}

#[test]
fn integration_context_truncation() {
    let mut ctx = Context::new("s1".into(), AgentConfig::default());
    for i in 0..20 {
        ctx.add_user_message(format!("msg{}", i));
    }
    assert_eq!(ctx.history.len(), 20);
    ctx.truncate_history();
    assert_eq!(ctx.history.len(), 2);
    assert_eq!(ctx.history[0].content, "msg18");
    assert_eq!(ctx.history[1].content, "msg19");
}

#[test]
fn text_config_is_the_default() {
    let t = AgentConfig::text();
    assert_eq!(t.modality, Modality::Text);
    assert_eq!(t.max_duration, Duration::from_secs(30));
    assert_eq!(t.max_output_tokens, 500);
    assert_eq!(t.min_history_messages, 2);
    assert_eq!(t.total_token_limit, 8000);
    assert!(t.system_prompt.is_none());
    assert_eq!(Modality::default(), Modality::Text);
}

#[test]
fn app_config_defaults() {
    let c = AppConfig::default();
    assert_eq!(c.server.addr, "0.0.0.0:50051");
    assert_eq!(c.llm.base_url, "https://api.openai.com/v1");
    assert_eq!(c.llm.api_key, "");
    assert_eq!(c.llm.model, "gpt-4");
    assert_eq!(c.redis.url, "redis://127.0.0.1:6379");
    assert_eq!(c.redis.session_ttl, 3600);
    assert_eq!(default_addr(), "0.0.0.0:50051");
    assert_eq!(default_model(), "gpt-4");
    assert_eq!(default_redis_url(), "redis://127.0.0.1:6379");
    assert_eq!(default_session_ttl(), 3600);
}

fn config_message(c: &AppConfig) -> Option<String> {
    match c.validate() {
        Ok(()) => None,
        Err(AgentError::Config(m)) => Some(m),
        Err(_) => panic!("validation only reports configuration errors"),
    }
}

#[test]
fn validate_reports_the_first_problem() {
    let mut c = AppConfig::default();
    assert_eq!(
        config_message(&c).as_deref(),
        Some("LLM API key 不能为空，请设置 SEAT_AGENT_LLM_API_KEY 或在配置文件中提供")
    );
    c.llm.api_key = "sk".into();
    assert_eq!(config_message(&c), None);
    c.llm.base_url = String::new();
    assert_eq!(config_message(&c).as_deref(), Some("LLM base URL 不能为空"));
    c.llm.base_url = "http://x".into();
    c.redis.url = "http://redis".into();
    assert_eq!(
        config_message(&c).as_deref(),
        Some("Redis URL 格式无效，应以 redis:// 或 rediss:// 开头")
    );
    c.redis.url = "rediss://secure:6380".into();
    assert_eq!(config_message(&c), None);
    c.redis.session_ttl = 0;
    assert_eq!(config_message(&c).as_deref(), Some("Redis session TTL 不能为 0"));
}

#[test]
fn overrides_replace_only_given_settings() {
    let c = AppConfig::default().with_overrides(ConfigOverrides {
        addr: Some("127.0.0.1:9000".into()),
        llm_base_url: None,
        llm_api_key: Some("sk-1".into()),
        llm_model: None,
        redis_url: Some("redis://r:1".into()),
    });
    assert_eq!(c.server.addr, "127.0.0.1:9000");
    assert_eq!(c.llm.base_url, "https://api.openai.com/v1");
    assert_eq!(c.llm.api_key, "sk-1");
    assert_eq!(c.llm.model, "gpt-4");
    assert_eq!(c.redis.url, "redis://r:1");
    assert_eq!(c.redis.session_ttl, 3600);
    assert!(c.validate().is_ok());
}

#[test]
fn session_keys_use_prefix_and_id() {
    let k = SessionKeyspace::new();
    assert_eq!(k.ttl, 3600);
    assert_eq!(k.key("abc"), "seat-agent:session:abc");
    let k = k.with_prefix("p:").with_ttl(60);
    assert_eq!(k.key("abc"), "p:abc");
    assert_eq!(k.ttl, 60);
    assert_ne!(k.key("a"), k.key("b"));
}
