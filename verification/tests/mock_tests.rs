use seat_agent::error::AgentError;
use seat_agent::mock::{pick_response, MockLlmClient};
use seat_agent::types::{FinishReason, LlmStreamChunk};
use std::time::Duration;

fn first_text(m: &MockLlmClient) -> String {
    match m.chat_chunks().unwrap().into_iter().next() {
        Some(LlmStreamChunk::Content(t)) => t,
        _ => panic!("Expected Content chunk"),
    }
}

#[test]
fn test_mock_llm_returns_preset_responses() {
    let mock = MockLlmClient::new(vec!["a".into(), "b".into()]);
    assert_eq!(first_text(&mock), "a");
    assert_eq!(first_text(&mock), "b");
}

#[test]
fn test_mock_llm_cycles_responses() {
    let mock = MockLlmClient::new(vec!["first".into()]);
    for _ in 0..3 {
        assert_eq!(first_text(&mock), "first");
    }
}

#[test]
fn test_mock_llm_error_mode() {
    let mock = MockLlmClient::new(vec!["ok".into()]).with_error();
    match mock.chat_chunks() {
        Err(AgentError::Llm(m)) => assert_eq!(m, "Mock error"),
        _ => panic!("expected an LLM error"),
    }
    assert!(mock.simulates_error());
}

#[test]
fn test_mock_llm_with_delay() {
    let mock = MockLlmClient::new(vec!["delayed".into()]).with_delay(Duration::from_millis(10));
    assert_eq!(mock.delay(), Some(Duration::from_millis(10)));
    assert!(!mock.simulates_error());
    assert_eq!(first_text(&mock), "delayed");
}

#[test]
fn test_mock_llm_done_chunk() {
    let mock = MockLlmClient::new(vec!["text".into()]);
    let chunks = mock.chat_chunks().unwrap();
    assert_eq!(chunks.len(), 2);
    assert!(matches!(
        chunks.last().unwrap(),
        LlmStreamChunk::Done {
            finish_reason: FinishReason::Stop
        }
    ));
}

#[test]
fn error_mode_does_not_use_up_replies() {
    let failing = MockLlmClient::new(vec!["x".into(), "y".into()]).with_error();
    assert!(failing.chat_chunks().is_err());
    assert!(failing.chat_chunks().is_err());
}

#[test]
fn pick_response_cycles_by_counter() {
    let rs = vec!["a".to_string(), "b".to_string(), "c".to_string()];
    assert_eq!(pick_response(&rs, 0), "a");
    assert_eq!(pick_response(&rs, 4), "b");
    assert_eq!(pick_response(&rs, 8), "c");
}

#[test]
fn next_response_walks_the_list_in_turn() {
    let mock = MockLlmClient::new(vec!["1".into(), "2".into(), "3".into()]);
    let got: Vec<String> = (0..5).map(|_| mock.next_response()).collect();
    assert_eq!(got, vec!["1", "2", "3", "1", "2"]);
}
