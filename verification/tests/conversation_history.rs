//! Conversation files as JSON lines, and the selection and ordering of
//! history messages and parts.

use avix_core::conversation::{entry_lines, join_lines};
use avix_core::history::{message_parts, parts_of_type, session_messages, sort_by_key, MessageRecord, PartRecord, PartType, Role};

#[test]
fn entry_lines_skip_blank_lines() {
    let text = "{\"a\":1}\n\n   \n{\"b\":2}\r\n{\"c\":3}";
    assert_eq!(entry_lines(text), vec!["{\"a\":1}", "{\"b\":2}", "{\"c\":3}"]);
}

#[test]
fn entry_lines_of_empty_text() {
    assert!(entry_lines("").is_empty());
    assert!(entry_lines("\n\n\t\n").is_empty());
}

#[test]
fn entry_lines_keep_inner_spaces() {
    assert_eq!(entry_lines(" x \n"), vec![" x "]);
}

#[test]
fn join_then_read_gives_lines_back() {
    let lines = vec!["{\"role\":\"user\"}".to_string(), "{\"role\":\"assistant\"}".to_string()];
    let text = join_lines(&lines);
    assert_eq!(text, "{\"role\":\"user\"}\n{\"role\":\"assistant\"}\n");
    assert_eq!(entry_lines(&text), lines);
}

#[test]
fn join_of_nothing_is_empty() {
    assert_eq!(join_lines(&vec![]), "");
}

fn msg(id: &str, session: &str, seq: u64) -> MessageRecord {
    MessageRecord {
        id: id.into(),
        session_id: session.into(),
        sequence: seq,
        role: Role::User,
        timestamp: "2026-01-01T00:00:00Z".into(),
        content: id.into(),
        tokens: None,
    }
}

fn ids(v: &[MessageRecord]) -> Vec<&str> {
    v.iter().map(|m| m.id.as_str()).collect()
}

#[test]
fn session_messages_sorted_by_sequence() {
    let all = vec![msg("m3", "s1", 3), msg("x", "s2", 1), msg("m1", "s1", 1), msg("m2", "s1", 2)];
    assert_eq!(ids(&session_messages(all, "s1")), vec!["m1", "m2", "m3"]);
}

#[test]
fn equal_sequences_keep_their_order() {
    let v = vec![msg("b", "s", 2), msg("a1", "s", 1), msg("c", "s", 2), msg("a2", "s", 1)];
    assert_eq!(ids(&sort_by_key(v)), vec!["a1", "a2", "b", "c"]);
}

#[test]
fn message_parts_sorted_by_index() {
    let all = vec![
        PartRecord::text("m1", 2, "third"),
        PartRecord::text("m2", 0, "other"),
        PartRecord::thought("m1", 0, "first"),
        PartRecord::text("m1", 1, "second"),
    ];
    let parts = message_parts(all, "m1");
    let idx: Vec<u32> = parts.iter().map(|p| p.part_index).collect();
    assert_eq!(idx, vec![0, 1, 2]);
    assert!(parts.iter().all(|p| p.message_id == "m1"));
}

#[test]
fn parts_of_type_keeps_order() {
    let all = vec![
        PartRecord::text("m1", 0, "a"),
        PartRecord::thought("m1", 1, "b"),
        PartRecord::text("m1", 2, "c"),
    ];
    let texts = parts_of_type(all, PartType::Text);
    let idx: Vec<u32> = texts.iter().map(|p| p.part_index).collect();
    assert_eq!(idx, vec![0, 2]);
}
