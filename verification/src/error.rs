//! The error type of the runtime and its message text.

use crate::text::{concat2, decimal, decimal_string};
use std::time::Duration;
use vstd::prelude::*;

verus! {

/// A JSON (de)serialization error.
#[verifier::external_type_specification]
#[verifier::external_body]
pub struct ExJsonError(serde_json::Error);

/// Name for the text that `{:?}` renders of a duration.
pub uninterp spec fn duration_debug_text(d: Duration) -> Seq<char>;

/// Name for the text that `{}` renders of a JSON error.
pub uninterp spec fn json_error_text(e: serde_json::Error) -> Seq<char>;

/// Formats a duration with `{:?}` (`Debug` of `std::time::Duration`); trusted
/// to return the text named by `duration_debug_text`, which depends on the
/// duration alone.
#[verifier::external_body]
fn debug_duration(d: &Duration) -> (r: String)
    ensures
        r@ == duration_debug_text(*d),
{
    format!("{:?}", d)
}

/// Formats a JSON error with `{}` (`Display` of `serde_json::Error`); trusted
/// to return the text named by `json_error_text`, which depends on the error
/// alone.
#[verifier::external_body]
fn display_json_error(e: &serde_json::Error) -> (r: String)
    ensures
        r@ == json_error_text(*e),
{
    format!("{}", e)
}

/// Errors of the runtime.
#[derive(Debug)]
pub enum AgentError {
    Llm(String),
    Tool(String),
    Knowledge(String),
    Memory(String),
    Vector(String),
    Timeout(Duration),
    MaxRoundsExceeded(usize),
    Config(String),
    Internal(String),
    Serialization(serde_json::Error),
}

/// The message text of an error.
pub open spec fn error_text(e: AgentError) -> Seq<char> {
    match e {
        AgentError::Llm(s) => "LLM error: "@ + s@,
        AgentError::Tool(s) => "Tool error: "@ + s@,
        AgentError::Knowledge(s) => "Knowledge store error: "@ + s@,
        AgentError::Memory(s) => "Memory store error: "@ + s@,
        AgentError::Vector(s) => "Vector store error: "@ + s@,
        AgentError::Timeout(d) => "Timeout after "@ + duration_debug_text(d),
        AgentError::MaxRoundsExceeded(n) => "Max rounds exceeded: "@ + decimal(n as nat),
        AgentError::Config(s) => "Configuration error: "@ + s@,
        AgentError::Internal(s) => "Internal error: "@ + s@,
        AgentError::Serialization(e) => "Serialization error: "@ + json_error_text(e),
    }
}

/// Result of the runtime's operations; the error defaults to `AgentError`.
pub type Result<T, E = AgentError> = core::result::Result<T, E>;

impl AgentError {
    /// The message text of the error.
    pub fn message(&self) -> (r: String)
        ensures
            r@ == error_text(*self),
    {
        match self {
            AgentError::Llm(s) => concat2("LLM error: ", s.as_str()),
            AgentError::Tool(s) => concat2("Tool error: ", s.as_str()),
            AgentError::Knowledge(s) => concat2("Knowledge store error: ", s.as_str()),
            AgentError::Memory(s) => concat2("Memory store error: ", s.as_str()),
            AgentError::Vector(s) => concat2("Vector store error: ", s.as_str()),
            AgentError::Timeout(d) => {
                let t = debug_duration(d);
                concat2("Timeout after ", t.as_str())
            },
            AgentError::MaxRoundsExceeded(n) => {
                let t = decimal_string(*n as u64);
                concat2("Max rounds exceeded: ", t.as_str())
            },
            AgentError::Config(s) => concat2("Configuration error: ", s.as_str()),
            AgentError::Internal(s) => concat2("Internal error: ", s.as_str()),
            AgentError::Serialization(e) => {
                let t = display_json_error(e);
                concat2("Serialization error: ", t.as_str())
            },
        }
    }
}

impl From<serde_json::Error> for AgentError {
    fn from(e: serde_json::Error) -> (r: AgentError) {
        AgentError::Serialization(e)
    }
}

impl vstd::std_specs::convert::FromSpecImpl<serde_json::Error> for AgentError {
    open spec fn obeys_from_spec() -> bool {
        true
    }

    open spec fn from_spec(e: serde_json::Error) -> AgentError {
        AgentError::Serialization(e)
    }
}

} // verus!
