//! Agent configuration and conversation modality.

use std::time::Duration;
use vstd::prelude::*;

verus! {

/// Name for the duration that `Duration::from_secs` builds from a count of seconds.
pub uninterp spec fn duration_of_secs(secs: u64) -> Duration;

/// Calls `Duration::from_secs`; trusted to return the duration named by
/// `duration_of_secs` for the same count of seconds (the constructor is total
/// and depends on its argument only).
#[verifier::external_body]
pub(crate) fn duration_from_secs(secs: u64) -> (d: Duration)
    ensures
        d == duration_of_secs(secs),
{
    Duration::from_secs(secs)
}

/// Conversation modality.
#[derive(Debug, Clone, Copy, PartialEq, Eq, Structural)]
pub enum Modality {
    /// Text conversation.
    Text,
    /// Voice conversation.
    Voice,
}

impl Default for Modality {
    fn default() -> (m: Self)
        ensures
            m == Modality::Text,
    {
        Modality::Text
    }
}

/// Agent configuration.
#[derive(Debug)]
pub struct AgentConfig {
    /// Conversation modality.
    pub modality: Modality,
    /// Upper bound on the number of LLM rounds of one message.
    pub max_rounds: usize,
    /// Upper bound on the running time of one message.
    pub max_duration: Duration,
    /// Upper bound on the tokens of one LLM reply.
    pub max_output_tokens: usize,
    /// Number of history messages that truncation keeps.
    pub min_history_messages: usize,
    /// Total token budget.
    pub total_token_limit: usize,
    /// Custom system prompt (`None` selects the built-in one).
    pub system_prompt: Option<String>,
}

/// The text-mode defaults, field by field.
pub open spec fn is_default_config(c: AgentConfig) -> bool {
    &&& c.modality == Modality::Text
    &&& c.max_rounds == 10
    &&& c.max_duration == duration_of_secs(30)
    &&& c.max_output_tokens == 500
    &&& c.min_history_messages == 2
    &&& c.total_token_limit == 8000
    &&& c.system_prompt is None
}

impl Clone for AgentConfig {
    fn clone(&self) -> (c: Self)
        ensures
            c == *self,
    {
        let system_prompt = match &self.system_prompt {
            Some(p) => Some(p.clone()),
            None => None,
        };
        AgentConfig {
            modality: self.modality,
            max_rounds: self.max_rounds,
            max_duration: self.max_duration,
            max_output_tokens: self.max_output_tokens,
            min_history_messages: self.min_history_messages,
            total_token_limit: self.total_token_limit,
            system_prompt,
        }
    }
}

impl Default for AgentConfig {
    fn default() -> (c: Self)
        ensures
            is_default_config(c),
    {
        AgentConfig {
            modality: Modality::Text,
            max_rounds: 10,
            max_duration: duration_from_secs(30),
            max_output_tokens: 500,
            min_history_messages: 2,
            total_token_limit: 8000,
            system_prompt: None,
        }
    }
}

impl AgentConfig {
    /// Text-mode configuration: the defaults.
    pub fn text() -> (c: Self)
        ensures
            is_default_config(c),
    {
        Self::default()
    }

    /// Voice-mode configuration: the defaults with voice modality, two rounds
    /// and 200 output tokens.
    pub fn voice() -> (c: Self)
        ensures
            c.modality == Modality::Voice,
            c.max_rounds == 2,
            c.max_duration == duration_of_secs(30),
            c.max_output_tokens == 200,
            c.min_history_messages == 2,
            c.total_token_limit == 8000,
            c.system_prompt is None,
    {
        let base = Self::default();
        AgentConfig { modality: Modality::Voice, max_rounds: 2, max_output_tokens: 200, ..base }
    }
}

} // verus!
