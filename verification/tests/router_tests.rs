use aura::ai::ChatResponse;
use aura::protocol::{AiStatus, ClientPayload, ClientToServer, DeviceType, MessageFrom, ServerToClient};
use aura::router::{
    assistant_message, chat_request, chunk_message, failure_message, final_message, next_seq,
    seq_from_millis, thinking_status, turn_step, user_message, user_turn, TurnEffect, TurnEvent, TurnState,
    UserTurn,
};

fn message(text: Option<&str>, dt: DeviceType) -> ClientToServer {
    ClientToServer::Message {
        session_id: "s".to_string(),
        device_id: "d".to_string(),
        device_type: dt,
        seq: Some(3),
        payload: ClientPayload { text: text.map(|t| t.to_string()), command: None, file: None },
        timestamp: 7,
    }
}

fn turn(watch: bool) -> UserTurn {
    UserTurn { session_id: "s".to_string(), device_id: "d".to_string(), text: "hi".to_string(), watch_target: watch }
}

#[test]
fn only_non_blank_messages_start_a_turn() {
    let t = user_turn(message(Some(" hi "), DeviceType::Watch)).unwrap();
    assert_eq!(t.session_id, "s");
    assert_eq!(t.device_id, "d");
    assert_eq!(t.text, " hi ");
    assert!(t.watch_target);
    assert!(!user_turn(message(Some("x"), DeviceType::Iphone)).unwrap().watch_target);
    assert!(user_turn(message(Some(" \n\t"), DeviceType::Iphone)).is_none());
    assert!(user_turn(message(None, DeviceType::Iphone)).is_none());
    assert!(user_turn(ClientToServer::Heartbeat { device_id: "d".to_string(), timestamp: 0 }).is_none());
    let join = ClientToServer::Join {
        session_id: "s".to_string(),
        device_id: "d".to_string(),
        device_type: DeviceType::Iphone,
        timestamp: 0,
    };
    assert!(user_turn(join).is_none());
}

#[test]
fn history_entries_and_request() {
    let t = turn(true);
    let u = user_message(&t);
    assert_eq!((u.role.as_str(), u.content.as_str()), ("user", "hi"));
    let r = chat_request(&t, vec![u], "deepseek-chat".to_string());
    assert_eq!(r.session_id, "s");
    assert_eq!(r.model, "deepseek-chat");
    assert!(r.watch_target);
    assert_eq!(r.messages.len(), 1);
    let a = assistant_message(&ChatResponse { content: "ok".to_string(), summary: None });
    assert_eq!((a.role.as_str(), a.content.as_str()), ("assistant", "ok"));
}

#[test]
fn thinking_status_message() {
    match thinking_status("s".to_string(), 42) {
        ServerToClient::Status { session_id, status, error, timestamp } => {
            assert_eq!(session_id, "s");
            assert_eq!(status, AiStatus::Thinking);
            assert_eq!(error, None);
            assert_eq!(timestamp, 42);
        }
        other => panic!("unexpected {:?}", other),
    }
}

#[test]
fn pieces_are_not_forwarded_to_a_watch() {
    assert!(chunk_message(&turn(true), "abc", 1, 2).is_none());
    match chunk_message(&turn(false), "abc", 1, 2).unwrap() {
        ServerToClient::Message { session_id, seq, from, payload, timestamp } => {
            assert_eq!(session_id, "s");
            assert_eq!(seq, 1);
            assert_eq!(from, MessageFrom::Ai);
            assert_eq!(payload.content.as_deref(), Some("abc"));
            assert_eq!(payload.summary, None);
            assert_eq!(payload.status, Some(AiStatus::Streaming));
            assert_eq!(payload.error, None);
            assert_eq!(timestamp, 2);
        }
        other => panic!("unexpected {:?}", other),
    }
}

#[test]
fn final_and_failure_messages() {
    let resp = ChatResponse { content: "C".to_string(), summary: Some("S".to_string()) };
    match final_message("s".to_string(), &resp, 9, 10) {
        ServerToClient::Message { seq, payload, timestamp, .. } => {
            assert_eq!(seq, 9);
            assert_eq!(timestamp, 10);
            assert_eq!(payload.content.as_deref(), Some("C"));
            assert_eq!(payload.summary.as_deref(), Some("S"));
            assert_eq!(payload.status, Some(AiStatus::Done));
        }
        other => panic!("unexpected {:?}", other),
    }
    match failure_message("s".to_string(), "boom", 1, 1) {
        ServerToClient::Message { payload, .. } => {
            assert_eq!(payload.content.as_deref(), Some("boom"));
            assert_eq!(payload.error.as_deref(), Some("boom"));
            assert_eq!(payload.status, Some(AiStatus::Error));
            assert_eq!(payload.summary, None);
        }
        other => panic!("unexpected {:?}", other),
    }
}

#[test]
fn sequence_numbers_from_the_clock() {
    assert_eq!(seq_from_millis(None), 0);
    assert_eq!(seq_from_millis(Some(1_700_000_000_123)), 1_700_000_000_123);
    assert_eq!(seq_from_millis(Some((1u128 << 64) + 5)), 5);
    assert!(next_seq() > 1_600_000_000_000);
}

fn kinds(effects: &[TurnEffect]) -> Vec<String> {
    effects
        .iter()
        .map(|e| match e {
            TurnEffect::Record { session_id, message } => format!("record {} {} {}", session_id, message.role, message.content),
            TurnEffect::Ask(t) => format!("ask {} {}", t.session_id, t.watch_target),
            TurnEffect::Publish(ServerToClient::Status { status, timestamp, .. }) => format!("status {:?} {}", status, timestamp),
            TurnEffect::Publish(ServerToClient::Message { seq, payload, .. }) => format!(
                "message {:?} {} {:?} {:?}",
                payload.status, seq, payload.content, payload.summary
            ),
            TurnEffect::Publish(_) => "other".to_string(),
        })
        .collect()
}

fn run(events: Vec<TurnEvent>) -> (bool, Vec<String>) {
    let mut state = TurnState::Idle;
    let mut all = Vec::new();
    for (i, e) in events.into_iter().enumerate() {
        let (next, effects) = turn_step(state, e, i as u64, 100 + i as i64);
        all.extend(kinds(&effects));
        state = next;
    }
    (matches!(state, TurnState::Idle), all)
}

#[test]
fn turn_protocol_for_a_phone() {
    let (idle, effects) = run(vec![
        TurnEvent::Received(message(Some("hi"), DeviceType::Iphone)),
        TurnEvent::Piece("He".to_string()),
        TurnEvent::Piece("llo".to_string()),
        TurnEvent::Replied(ChatResponse { content: "Hello".to_string(), summary: None }),
    ]);
    assert!(idle);
    assert_eq!(
        effects,
        vec![
            "record s user hi".to_string(),
            "status Thinking 100".to_string(),
            "ask s false".to_string(),
            "message Some(Streaming) 1 Some(\"He\") None".to_string(),
            "message Some(Streaming) 2 Some(\"llo\") None".to_string(),
            "record s assistant Hello".to_string(),
            "message Some(Done) 3 Some(\"Hello\") None".to_string(),
        ]
    );
}

#[test]
fn turn_protocol_for_a_watch_that_fails() {
    let (idle, effects) = run(vec![
        TurnEvent::Received(message(Some("hi"), DeviceType::Watch)),
        TurnEvent::Piece("x".to_string()),
        TurnEvent::Failed("boom".to_string()),
    ]);
    assert!(idle);
    assert_eq!(
        effects,
        vec![
            "record s user hi".to_string(),
            "status Thinking 100".to_string(),
            "ask s true".to_string(),
            "message Some(Error) 2 Some(\"boom\") None".to_string(),
        ]
    );
}

#[test]
fn blank_messages_and_stray_events_do_nothing() {
    let (idle, effects) = run(vec![
        TurnEvent::Received(message(Some("  "), DeviceType::Iphone)),
        TurnEvent::Piece("x".to_string()),
        TurnEvent::Replied(ChatResponse { content: "c".to_string(), summary: None }),
    ]);
    assert!(idle);
    assert!(effects.is_empty());
}
