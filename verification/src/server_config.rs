//! Settings of the agent service: listening address, model service, session
//! store and agent behaviour, their defaults, overrides and validation, and
//! the keyspace of stored sessions.

use crate::config::{is_default_config, AgentConfig};
use crate::error::AgentError;
use crate::text::{concat2, has_prefix, starts_with};
use vstd::prelude::*;

verus! {

/// Where the service listens.
#[derive(Debug)]
pub struct ServerConfig {
    /// Listening address.
    pub addr: String,
}

/// Default listening address.
pub fn default_addr() -> (s: String)
    ensures
        s@ == "0.0.0.0:50051"@,
{
    String::from_str("0.0.0.0:50051")
}

impl Default for ServerConfig {
    fn default() -> (c: Self)
        ensures
            c.addr@ == "0.0.0.0:50051"@,
    {
        ServerConfig { addr: default_addr() }
    }
}

/// How the model service is reached.
#[derive(Debug)]
pub struct LlmConfig {
    /// API base URL.
    pub base_url: String,
    /// API key.
    pub api_key: String,
    /// Model name.
    pub model: String,
}

/// Default model name.
pub fn default_model() -> (s: String)
    ensures
        s@ == "gpt-4"@,
{
    String::from_str("gpt-4")
}

impl Default for LlmConfig {
    fn default() -> (c: Self)
        ensures
            c.base_url@ == "https://api.openai.com/v1"@,
            c.api_key@ == Seq::<char>::empty(),
            c.model@ == "gpt-4"@,
    {
        LlmConfig {
            base_url: String::from_str("https://api.openai.com/v1"),
            api_key: String::new(),
            model: default_model(),
        }
    }
}

/// Where sessions are stored.
#[derive(Debug)]
pub struct RedisConfig {
    /// Redis URL.
    pub url: String,
    /// Session lifetime in seconds.
    pub session_ttl: u64,
}

/// Default Redis URL.
pub fn default_redis_url() -> (s: String)
    ensures
        s@ == "redis://127.0.0.1:6379"@,
{
    String::from_str("redis://127.0.0.1:6379")
}

/// Default session lifetime: one hour.
pub fn default_session_ttl() -> (t: u64)
    ensures
        t == 3600,
{
    3600
}

impl Default for RedisConfig {
    fn default() -> (c: Self)
        ensures
            c.url@ == "redis://127.0.0.1:6379"@,
            c.session_ttl == 3600,
    {
        RedisConfig { url: default_redis_url(), session_ttl: default_session_ttl() }
    }
}

/// Settings of the whole service.
#[derive(Debug)]
pub struct AppConfig {
    pub server: ServerConfig,
    pub llm: LlmConfig,
    pub redis: RedisConfig,
    pub agent: AgentConfig,
}

impl Default for AppConfig {
    fn default() -> (c: Self)
        ensures
            c.server.addr@ == "0.0.0.0:50051"@,
            c.llm.base_url@ == "https://api.openai.com/v1"@,
            c.llm.api_key@ == Seq::<char>::empty(),
            c.llm.model@ == "gpt-4"@,
            c.redis.url@ == "redis://127.0.0.1:6379"@,
            c.redis.session_ttl == 3600,
            is_default_config(c.agent),
    {
        AppConfig {
            server: ServerConfig::default(),
            llm: LlmConfig::default(),
            redis: RedisConfig::default(),
            agent: AgentConfig::default(),
        }
    }
}

/// Values that replace settings where they are present (read from the
/// environment by the caller).
#[derive(Debug)]
pub struct ConfigOverrides {
    pub addr: Option<String>,
    pub llm_base_url: Option<String>,
    pub llm_api_key: Option<String>,
    pub llm_model: Option<String>,
    pub redis_url: Option<String>,
}

/// `v` where present, else `current`.
pub open spec fn overridden(current: String, v: Option<String>) -> String {
    match v {
        Some(x) => x,
        None => current,
    }
}

fn override_with(current: String, v: Option<String>) -> (r: String)
    ensures
        r == overridden(current, v),
{
    match v {
        Some(x) => x,
        None => current,
    }
}

/// First problem that makes the settings unusable, as the message that
/// reports it; `None` when there is none.
pub open spec fn config_problem(c: AppConfig) -> Option<Seq<char>> {
    if c.llm.api_key@.len() == 0 {
        Some("LLM API key 不能为空，请设置 SEAT_AGENT_LLM_API_KEY 或在配置文件中提供"@)
    } else if c.llm.base_url@.len() == 0 {
        Some("LLM base URL 不能为空"@)
    } else if !has_prefix(c.redis.url@, "redis://"@) && !has_prefix(c.redis.url@, "rediss://"@) {
        Some("Redis URL 格式无效，应以 redis:// 或 rediss:// 开头"@)
    } else if c.redis.session_ttl == 0 {
        Some("Redis session TTL 不能为 0"@)
    } else {
        None
    }
}

impl AppConfig {
    /// Replaces each setting for which an override is present; the others,
    /// and the agent settings, stay.
    pub fn with_overrides(self, o: ConfigOverrides) -> (c: Self)
        ensures
            c.server.addr == overridden(self.server.addr, o.addr),
            c.llm.base_url == overridden(self.llm.base_url, o.llm_base_url),
            c.llm.api_key == overridden(self.llm.api_key, o.llm_api_key),
            c.llm.model == overridden(self.llm.model, o.llm_model),
            c.redis.url == overridden(self.redis.url, o.redis_url),
            c.redis.session_ttl == self.redis.session_ttl,
            c.agent == self.agent,
    {
        let AppConfig { server, llm, redis, agent } = self;
        let ConfigOverrides { addr, llm_base_url, llm_api_key, llm_model, redis_url } = o;
        AppConfig {
            server: ServerConfig { addr: override_with(server.addr, addr) },
            llm: LlmConfig {
                base_url: override_with(llm.base_url, llm_base_url),
                api_key: override_with(llm.api_key, llm_api_key),
                model: override_with(llm.model, llm_model),
            },
            redis: RedisConfig {
                url: override_with(redis.url, redis_url),
                session_ttl: redis.session_ttl,
            },
            agent,
        }
    }

    /// Checks the settings: a key and a base URL for the model service, a
    /// `redis://` or `rediss://` URL and a nonzero session lifetime, in that
    /// order; the first that fails is reported as a configuration error.
    pub fn validate(&self) -> (r: Result<(), AgentError>)
        ensures
            match config_problem(*self) {
                None => r is Ok,
                Some(msg) => r matches Err(AgentError::Config(m)) && m@ == msg,
            },
    {
        if self.llm.api_key.as_str().is_empty() {
            return Err(
                AgentError::Config(
                    String::from_str(
                        "LLM API key 不能为空，请设置 SEAT_AGENT_LLM_API_KEY 或在配置文件中提供",
                    ),
                ),
            );
        }
        if self.llm.base_url.as_str().is_empty() {
            return Err(AgentError::Config(String::from_str("LLM base URL 不能为空")));
        }
        if !starts_with(self.redis.url.as_str(), "redis://") && !starts_with(
            self.redis.url.as_str(),
            "rediss://",
        ) {
            return Err(
                AgentError::Config(
                    String::from_str("Redis URL 格式无效，应以 redis:// 或 rediss:// 开头"),
                ),
            );
        }
        if self.redis.session_ttl == 0 {
            return Err(AgentError::Config(String::from_str("Redis session TTL 不能为 0")));
        }
        Ok(())
    }
}

/// Key prefix and lifetime under which sessions are stored.
#[derive(Debug)]
pub struct SessionKeyspace {
    pub prefix: String,
    /// Lifetime of a stored session in seconds.
    pub ttl: u64,
}

impl SessionKeyspace {
    /// The default keyspace: prefix `seat-agent:session:`, one hour.
    pub fn new() -> (k: Self)
        ensures
            k.prefix@ == "seat-agent:session:"@,
            k.ttl == 3600,
    {
        SessionKeyspace { prefix: String::from_str("seat-agent:session:"), ttl: 3600 }
    }

    /// The same keyspace under another prefix.
    pub fn with_prefix(self, prefix: &str) -> (k: Self)
        ensures
            k.prefix@ == prefix@,
            k.ttl == self.ttl,
    {
        SessionKeyspace { prefix: String::from_str(prefix), ttl: self.ttl }
    }

    /// The same keyspace with another lifetime.
    pub fn with_ttl(self, ttl: u64) -> (k: Self)
        ensures
            k.prefix == self.prefix,
            k.ttl == ttl,
    {
        SessionKeyspace { prefix: self.prefix, ttl }
    }

    /// The key of a session: the prefix followed by the session id.
    pub fn key(&self, session_id: &str) -> (r: String)
        ensures
            r@ == self.prefix@ + session_id@,
    {
        concat2(self.prefix.as_str(), session_id)
    }
}

/// Sessions never share a key: within one keyspace, different session ids
/// give different keys.
pub proof fn lemma_session_keys_distinct(prefix: Seq<char>, a: Seq<char>, b: Seq<char>)
    requires
        a != b,
    ensures
        prefix + a != prefix + b,
{
    if prefix + a == prefix + b {
        assert(a =~= (prefix + a).skip(prefix.len() as int));
        assert(b =~= (prefix + b).skip(prefix.len() as int));
    }
}

} // verus!
