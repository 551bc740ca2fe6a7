use aura::ai::ChatMessage;
use aura::session::SessionStore;

fn msg(role: &str, content: &str) -> ChatMessage {
    ChatMessage { role: role.to_string(), content: content.to_string() }
}

fn contents(h: &[ChatMessage]) -> Vec<(String, String)> {
    h.iter().map(|m| (m.role.clone(), m.content.clone())).collect()
}

#[test]
fn unknown_session_is_created_empty() {
    let mut s = SessionStore::new();
    assert!(s.get_or_create("a").is_empty());
    assert_eq!(s.list_sessions(), vec!["a".to_string()]);
}

#[test]
fn append_then_read_gives_history_in_order() {
    let mut s = SessionStore::new();
    s.append("a", msg("user", "hi"));
    s.append("a", msg("assistant", "hello"));
    let h = s.get_or_create("a");
    assert_eq!(
        contents(&h),
        vec![("user".to_string(), "hi".to_string()), ("assistant".to_string(), "hello".to_string())]
    );
}

#[test]
fn sessions_are_isolated() {
    let mut s = SessionStore::new();
    s.append("a", msg("user", "1"));
    s.append("b", msg("user", "2"));
    assert_eq!(contents(&s.get_or_create("a")), vec![("user".to_string(), "1".to_string())]);
    assert_eq!(contents(&s.get_or_create("b")), vec![("user".to_string(), "2".to_string())]);
    let mut ids = s.list_sessions();
    ids.sort();
    assert_eq!(ids, vec!["a".to_string(), "b".to_string()]);
}

#[test]
fn cleared_session_reads_back_empty() {
    let mut s = SessionStore::default();
    s.append("a", msg("user", "1"));
    s.clear("a");
    assert!(s.list_sessions().is_empty());
    assert!(s.get_or_create("a").is_empty());
    s.clear("never");
    assert_eq!(s.list_sessions(), vec!["a".to_string()]);
}

#[test]
fn reading_does_not_change_histories() {
    let mut s = SessionStore::new();
    s.append("a", msg("user", "x"));
    let _ = s.get_or_create("b");
    assert_eq!(contents(&s.get_or_create("a")), vec![("user".to_string(), "x".to_string())]);
}
