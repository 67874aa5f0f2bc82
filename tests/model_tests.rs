use chatserver::models::chat_message::ChatMessage;
use chatserver::models::chat_stream::ChatStreamState;
use chatserver::models::timestamp::Timestamp;

fn at(seconds: i64, nanosecond: u32) -> Timestamp {
    Timestamp::from_parts(seconds, nanosecond).unwrap()
}

fn msg(text: &str, ts: Timestamp) -> ChatMessage {
    ChatMessage::new(text.to_string(), "alice".to_string(), "general".to_string(), ts)
}

#[test]
fn timestamp_parts_are_checked() {
    assert!(Timestamp::from_parts(1, 999_999_999).is_some());
    assert!(Timestamp::from_parts(1, 1_000_000_000).is_none());
}

#[test]
fn equality_ignores_sub_millisecond_precision() {
    assert_eq!(msg("x", at(5, 1_000_000)), msg("x", at(5, 1_999_999)));
    assert_ne!(msg("x", at(5, 999_999)), msg("x", at(5, 1_000_000)));
    assert_ne!(msg("x", at(5, 0)), msg("x", at(6, 0)));
    assert_ne!(msg("x", at(5, 0)), msg("y", at(5, 0)));
}

#[test]
fn later_picks_the_later_instant() {
    assert_eq!(at(1, 5).later(at(1, 7)), at(1, 7));
    assert_eq!(at(2, 0).later(at(1, 999)), at(2, 0));
    assert!(at(-1, 999_999_999).is_before(&at(0, 0)));
}

#[test]
fn stream_starts_with_equal_timestamps() {
    let s = ChatStreamState::new(at(10, 0));
    assert_eq!(s.created_at, s.updated_at);
    assert!(!s.finished);
}

#[test]
fn stream_activity_time_moves_forward() {
    let mut s = ChatStreamState::new(at(10, 0));
    s.record_pull(at(12, 0), Some(msg("a", at(11, 0))));
    assert_eq!(s.updated_at, at(12, 0));
    assert_eq!(s.created_at, at(10, 0));
    s.record_pull(at(11, 0), Some(msg("b", at(11, 0))));
    assert_eq!(s.updated_at, at(12, 0));
    s.record_pull(at(12, 1), None);
    assert_eq!(s.updated_at, at(12, 1));
}

#[test]
fn stream_end_is_final() {
    let mut s = ChatStreamState::new(at(0, 0));
    assert_eq!(s.record_pull(at(1, 0), None), None);
    assert!(s.finished);
    assert_eq!(s.record_pull(at(2, 0), Some(msg("late", at(2, 0)))), None);
    assert!(s.finished);
    assert_eq!(s.updated_at, at(2, 0));
}

#[test]
fn stream_transform_keeps_source_order() {
    let mut s = ChatStreamState::new(at(0, 0));
    let source = vec![msg("m1", at(1, 0)), msg("m2", at(2, 0)), msg("m3", at(3, 0))];
    let mut calls = 0;
    let mut mark = |m: ChatMessage| {
        calls += 1;
        ChatMessage::new(format!("{}!", m.text), m.username, m.channel, m.timestamp)
    };
    let mut out = Vec::new();
    for (i, m) in source.into_iter().enumerate() {
        out.push(s.record_pull_with(at(10 + i as i64, 0), Some(m), &mut mark).unwrap());
    }
    assert_eq!(s.record_pull_with(at(20, 0), None, &mut mark), None);
    assert_eq!(s.record_pull_with(at(21, 0), Some(msg("m4", at(4, 0))), &mut mark), None);
    let texts: Vec<String> = out.into_iter().map(|m| m.text).collect();
    assert_eq!(texts, vec!["m1!", "m2!", "m3!"]);
    assert_eq!(calls, 3);
}
