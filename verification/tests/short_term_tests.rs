use seat_agent::context::Message;
use seat_agent::memory::ShortTermMemory;
use seat_agent::types::MessageRole;

fn msg(role: MessageRole, content: &str) -> Message {
    Message {
        role,
        content: content.to_string(),
        tool_calls: None,
        tool_call_id: None,
    }
}

#[test]
fn trim_keeps_all_when_under_limit() {
    let stm = ShortTermMemory::new(10);
    let history: Vec<Message> = (0..5)
        .map(|i| msg(MessageRole::User, &format!("m{}", i)))
        .collect();
    let trimmed = stm.trim(&history);
    assert_eq!(trimmed.len(), 5);
}

#[test]
fn trim_drops_oldest_beyond_window() {
    let stm = ShortTermMemory::new(4);
    let history: Vec<Message> = (0..10)
        .map(|i| msg(MessageRole::User, &format!("m{}", i)))
        .collect();
    let trimmed = stm.trim(&history);
    assert_eq!(trimmed.len(), 2);
    assert_eq!(trimmed[0].content, "m8");
    assert_eq!(trimmed[1].content, "m9");
}

#[test]
fn trim_respects_min_messages_over_max() {
    let stm = ShortTermMemory::new(2).with_min_messages(5);
    let history: Vec<Message> = (0..10)
        .map(|i| msg(MessageRole::User, &format!("m{}", i)))
        .collect();
    let trimmed = stm.trim(&history);
    assert_eq!(trimmed.len(), 5);
    assert_eq!(trimmed[0].content, "m5");
}

#[test]
fn trim_empty_history() {
    let stm = ShortTermMemory::new(2);
    let history: Vec<Message> = vec![];
    assert!(stm.trim(&history).is_empty());
}

#[test]
fn trim_keeps_the_last_messages_whatever_their_role() {
    let stm = ShortTermMemory::new(4).with_min_messages(4);
    let mut history: Vec<Message> = (0..10)
        .map(|i| msg(MessageRole::User, &format!("m{}", i)))
        .collect();
    history.push(msg(MessageRole::System, "system note"));
    let trimmed = stm.trim(&history);
    assert_eq!(trimmed.len(), 4);
    assert_eq!(trimmed[0].content, "m7");
    assert_eq!(trimmed[3].role, MessageRole::System);
}

#[test]
fn trim_keeps_tool_messages_in_the_tail() {
    let stm = ShortTermMemory::new(1).with_min_messages(2);
    let history = vec![msg(MessageRole::User, "u"), msg(MessageRole::Tool, "t")];
    let trimmed = stm.trim(&history);
    assert_eq!(trimmed.len(), 2);
    assert_eq!(trimmed[1].role, MessageRole::Tool);
}

#[test]
fn trim_with_zero_window_keeps_everything() {
    let stm = ShortTermMemory::new(0);
    let history: Vec<Message> = (0..7)
        .map(|i| msg(MessageRole::Assistant, &format!("a{}", i)))
        .collect();
    let trimmed = stm.trim(&history);
    assert_eq!(trimmed.len(), 7);
    assert_eq!(trimmed[6].content, "a6");
}

#[test]
fn trimming_twice_equals_trimming_once() {
    let stm = ShortTermMemory::new(3).with_min_messages(5);
    let mut history: Vec<Message> = (0..9)
        .map(|i| msg(MessageRole::User, &format!("m{}", i)))
        .collect();
    history.insert(6, msg(MessageRole::Tool, "tool"));
    let once = stm.trim(&history);
    let twice = stm.trim(&once);
    let a: Vec<&str> = once.iter().map(|m| m.content.as_str()).collect();
    let b: Vec<&str> = twice.iter().map(|m| m.content.as_str()).collect();
    assert_eq!(a, vec!["m5", "tool", "m6", "m7", "m8"]);
    assert_eq!(a, b);
}

#[test]
fn trimmed_history_stays_within_the_larger_bound() {
    for (max, min) in [(4usize, 2usize), (2, 5), (6, 6)] {
        let stm = ShortTermMemory::new(max).with_min_messages(min);
        let history: Vec<Message> = (0..20)
            .map(|i| msg(MessageRole::Assistant, &format!("a{}", i)))
            .collect();
        assert!(stm.trim(&history).len() <= max.max(min));
    }
}
