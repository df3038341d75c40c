//! A scripted language model for tests and demos: it answers with preset
//! replies in turn, cycling, and can be told to wait or to fail.

use crate::error::AgentError;
use crate::types::{FinishReason, LlmStreamChunk};
use std::sync::atomic::AtomicUsize;
use std::time::Duration;
use vstd::prelude::*;

verus! {

/// Scripted model client.
pub struct MockLlmClient {
    responses: Vec<String>,
    delay: Option<Duration>,
    simulate_error: bool,
    index: AtomicUsize,
}

/// The reply selected by request number `n`.
pub open spec fn reply_for(responses: Seq<String>, n: nat) -> String {
    responses[(n % responses.len()) as int]
}

/// The reply used for the `counter`-th request: the replies are used in turn,
/// starting again from the first after the last.
pub fn pick_response(responses: &Vec<String>, counter: usize) -> (r: String)
    requires
        responses@.len() > 0,
    ensures
        r == reply_for(responses@, counter as nat),
{
    let i = counter % responses.len();
    responses[i].clone()
}

/// Reads the request counter and advances it by one.
fn advance_counter(index: &AtomicUsize) -> usize {
    index.fetch_add(1, std::sync::atomic::Ordering::SeqCst)
}

impl MockLlmClient {
    /// The preset replies.
    pub closed spec fn spec_responses(&self) -> Seq<String> {
        self.responses@
    }

    /// The configured delay.
    pub closed spec fn spec_delay(&self) -> Option<Duration> {
        self.delay
    }

    /// The request counter.
    pub closed spec fn spec_index(&self) -> AtomicUsize {
        self.index
    }

    /// Whether every request fails.
    pub closed spec fn spec_simulate_error(&self) -> bool {
        self.simulate_error
    }

    /// A client with the given replies, no delay and no failure.
    pub fn new(responses: Vec<String>) -> (m: Self)
        ensures
            m.spec_responses() == responses@,
            m.spec_delay() is None,
            !m.spec_simulate_error(),
    {
        MockLlmClient {
            responses,
            delay: None,
            simulate_error: false,
            index: AtomicUsize::new(0),
        }
    }

    /// The same client, waiting `delay` before each reply.
    pub fn with_delay(self, delay: Duration) -> (m: Self)
        ensures
            m.spec_responses() == self.spec_responses(),
            m.spec_delay() == Some(delay),
            m.spec_simulate_error() == self.spec_simulate_error(),
            m.spec_index() == self.spec_index(),
    {
        MockLlmClient { delay: Some(delay), ..self }
    }

    /// The same client, failing every request.
    pub fn with_error(self) -> (m: Self)
        ensures
            m.spec_responses() == self.spec_responses(),
            m.spec_delay() == self.spec_delay(),
            m.spec_simulate_error(),
            m.spec_index() == self.spec_index(),
    {
        MockLlmClient { simulate_error: true, ..self }
    }

    /// The configured delay.
    pub fn delay(&self) -> (d: Option<Duration>)
        ensures
            d == self.spec_delay(),
    {
        self.delay
    }

    /// Number of preset replies.
    pub fn response_count(&self) -> (n: usize)
        ensures
            n == self.spec_responses().len(),
    {
        self.responses.len()
    }

    /// Whether every request fails.
    pub fn simulates_error(&self) -> (b: bool)
        ensures
            b == self.spec_simulate_error(),
    {
        self.simulate_error
    }

    /// The next reply: the request counter is read and advanced, and the
    /// reply it selects is returned. The counter is shared by all callers, so
    /// which reply comes back depends on the requests made before.
    pub fn next_response(&self) -> (r: String)
        requires
            self.spec_responses().len() > 0,
        ensures
            exists|n: nat| #[trigger] reply_for(self.spec_responses(), n) == r,
    {
        let n = advance_counter(&self.index);
        pick_response(&self.responses, n)
    }

    /// The chunks of the next reply: the reply text, then the end of a
    /// completed reply. A failing client answers with an error instead and
    /// does not use up a reply.
    pub fn chat_chunks(&self) -> (r: Result<Vec<LlmStreamChunk>, AgentError>)
        requires
            !self.spec_simulate_error() ==> self.spec_responses().len() > 0,
        ensures
            self.spec_simulate_error() ==> (r matches Err(AgentError::Llm(m)) && m@
                == "Mock error"@),
            !self.spec_simulate_error() ==> (r matches Ok(cs) && cs@.len() == 2 && (exists|n: nat|
                cs@[0] == LlmStreamChunk::Content(#[trigger] reply_for(self.spec_responses(), n)))
                && cs@[1] == (LlmStreamChunk::Done { finish_reason: FinishReason::Stop })),
    {
        if self.simulate_error {
            return Err(AgentError::Llm(String::from_str("Mock error")));
        }
        let text = self.next_response();
        let mut cs: Vec<LlmStreamChunk> = Vec::new();
        cs.push(LlmStreamChunk::Content(text));
        cs.push(LlmStreamChunk::Done { finish_reason: FinishReason::Stop });
        Ok(cs)
    }
}

} // verus!
