use aura::connections::{
    frame_keeps_reading, ClientConnection, ConnectionManager, ConnectionReader, FrameKind,
    HEARTBEAT_TIMEOUT_MS,
};
use aura::protocol::{ClientPayload, ClientToServer, DeviceType};
use tokio::sync::mpsc::{unbounded_channel, UnboundedReceiver};

fn conn(id: &str, dt: DeviceType, ping: u64) -> (ClientConnection<String>, UnboundedReceiver<String>) {
    let (tx, rx) = unbounded_channel::<String>();
    (
        ClientConnection {
            device_id: id.to_string(),
            device_type: dt,
            session_id: "s".to_string(),
            last_ping: ping,
            writer_tx: tx,
        },
        rx,
    )
}

fn sorted_devices(m: &ConnectionManager<String>) -> Vec<(String, DeviceType)> {
    let mut d = m.list_devices();
    d.sort_by(|a, b| a.0.cmp(&b.0));
    d
}

#[test]
fn add_list_and_remove() {
    let mut m = ConnectionManager::new();
    let (a, _ra) = conn("a", DeviceType::Iphone, 0);
    let (b, _rb) = conn("b", DeviceType::Watch, 0);
    m.add(a);
    m.add(b);
    assert_eq!(
        sorted_devices(&m),
        vec![("a".to_string(), DeviceType::Iphone), ("b".to_string(), DeviceType::Watch)]
    );
    m.remove("a");
    assert_eq!(sorted_devices(&m), vec![("b".to_string(), DeviceType::Watch)]);
    m.remove("zzz");
    assert_eq!(m.list_devices().len(), 1);
}

#[test]
fn adding_the_same_device_replaces_it() {
    let mut m = ConnectionManager::new();
    let (a, _ra) = conn("a", DeviceType::Iphone, 0);
    let (a2, _ra2) = conn("a", DeviceType::Watch, 5);
    m.add(a);
    m.add(a2);
    assert_eq!(m.list_devices(), vec![("a".to_string(), DeviceType::Watch)]);
}

#[test]
fn send_to_known_and_unknown_devices() {
    let mut m = ConnectionManager::new();
    let (a, mut ra) = conn("a", DeviceType::Iphone, 0);
    let (b, rb) = conn("b", DeviceType::Iphone, 0);
    m.add(a);
    m.add(b);
    assert_eq!(m.send_to("a", "hello".to_string()).map(|_| ()), Ok(()));
    assert_eq!(ra.try_recv().unwrap(), "hello");
    assert_eq!(m.send_to("x", "hello".to_string()).map(|_| ()), Err("设备 x 未连接".to_string()));
    drop(rb);
    assert_eq!(m.send_to("b", "hello".to_string()).map(|_| ()), Err("设备 b 的写通道已关闭".to_string()));
}

#[test]
fn broadcast_reaches_all_and_drops_closed_writers() {
    let mut m = ConnectionManager::new();
    let (a, mut ra) = conn("a", DeviceType::Iphone, 0);
    let (b, rb) = conn("b", DeviceType::Watch, 0);
    let (c, mut rc) = conn("c", DeviceType::Iphone, 0);
    m.add(a);
    m.add(b);
    m.add(c);
    drop(rb);
    let report = m.broadcast("ping".to_string());
    assert_eq!(report.dropped, vec!["b".to_string()]);
    assert_eq!(report.receipts.len(), 3);
    for (o, r) in report.outcomes.iter().zip(report.receipts.iter()) {
        assert_eq!(o.1, r.is_some());
    }
    let mut outcomes = report.outcomes.clone();
    outcomes.sort();
    assert_eq!(outcomes, vec![("a".to_string(), true), ("b".to_string(), false), ("c".to_string(), true)]);
    assert_eq!(ra.try_recv().unwrap(), "ping");
    assert_eq!(rc.try_recv().unwrap(), "ping");
    assert_eq!(
        sorted_devices(&m),
        vec![("a".to_string(), DeviceType::Iphone), ("c".to_string(), DeviceType::Iphone)]
    );
}

#[test]
fn deliver_targets_one_or_all() {
    let mut m = ConnectionManager::new();
    let (a, mut ra) = conn("a", DeviceType::Iphone, 0);
    let (b, mut rb) = conn("b", DeviceType::Iphone, 0);
    m.add(a);
    m.add(b);
    assert!(m.deliver(Some("b".to_string()), "one".to_string()).is_ok());
    assert!(ra.try_recv().is_err());
    assert_eq!(rb.try_recv().unwrap(), "one");
    assert!(m.deliver(None, "all".to_string()).is_ok());
    assert_eq!(ra.try_recv().unwrap(), "all");
    assert_eq!(rb.try_recv().unwrap(), "all");
    assert_eq!(m.deliver(Some("q".to_string()), "x".to_string()).map(|_| ()), Err("设备 q 未连接".to_string()));
}

#[test]
fn sweep_removes_exactly_the_expired() {
    let mut m = ConnectionManager::new();
    let (a, _ra) = conn("a", DeviceType::Iphone, 1_000);
    let (b, _rb) = conn("b", DeviceType::Iphone, 50_000);
    let (c, _rc) = conn("c", DeviceType::Iphone, 200_000);
    m.add(a);
    m.add(b);
    m.add(c);
    // At 140_000: a is 139s old (expired), b is exactly 90s old (kept).
    let mut gone = m.remove_expired(140_000);
    gone.sort();
    assert_eq!(gone, vec!["a".to_string()]);
    let mut ids: Vec<String> = m.list_devices().into_iter().map(|d| d.0).collect();
    ids.sort();
    assert_eq!(ids, vec!["b".to_string(), "c".to_string()]);
    let gone = m.remove_expired(140_001);
    assert_eq!(gone, vec!["b".to_string()]);
}

#[test]
fn heartbeat_keeps_a_client_alive() {
    let mut m = ConnectionManager::new();
    let (a, _ra) = conn("a", DeviceType::Iphone, 0);
    m.add(a);
    m.update_ping("a", 100_000);
    m.update_ping("unknown", 100_000);
    assert!(m.remove_expired(100_000 + HEARTBEAT_TIMEOUT_MS).is_empty());
    assert_eq!(m.remove_expired(100_001 + HEARTBEAT_TIMEOUT_MS), vec!["a".to_string()]);
}

#[test]
fn clock_before_last_ping_counts_as_no_time() {
    let mut m = ConnectionManager::new();
    let (a, _ra) = conn("a", DeviceType::Iphone, 500_000);
    m.add(a);
    assert!(m.remove_expired(0).is_empty());
}

fn text_msg(device: &str, dt: DeviceType) -> ClientToServer {
    ClientToServer::Message {
        session_id: "s1".to_string(),
        device_id: device.to_string(),
        device_type: dt,
        seq: None,
        payload: ClientPayload { text: Some("hi".to_string()), command: None, file: None },
        timestamp: 1,
    }
}

#[test]
fn first_message_registers_the_connection() {
    let mut r = ConnectionReader::new();
    let a = r.on_message(text_msg("w1", DeviceType::Watch));
    assert_eq!(a.register, Some(("w1".to_string(), DeviceType::Watch, "s1".to_string())));
    assert_eq!(a.ping, None);
    assert!(matches!(a.forward, Some(ClientToServer::Message { .. })));
    assert_eq!(r.device_id, Some("w1".to_string()));
    let b = r.on_message(text_msg("w1", DeviceType::Watch));
    assert_eq!(b.register, None);
    assert!(b.forward.is_some());
}

#[test]
fn heartbeat_first_registers_an_iphone_and_is_not_forwarded() {
    let mut r = ConnectionReader::new();
    let a = r.on_message(ClientToServer::Heartbeat { device_id: "p".to_string(), timestamp: 3 });
    assert_eq!(a.register, Some(("p".to_string(), DeviceType::Iphone, String::new())));
    assert_eq!(a.ping, Some("p".to_string()));
    assert!(a.forward.is_none());
    let join = ClientToServer::Join {
        session_id: "s9".to_string(),
        device_id: "p".to_string(),
        device_type: DeviceType::Iphone,
        timestamp: 4,
    };
    let b = r.on_message(join);
    assert_eq!(b.register, None);
    assert_eq!(b.ping, None);
    assert!(matches!(b.forward, Some(ClientToServer::Join { .. })));
}

#[test]
fn only_close_frames_end_reading() {
    assert!(frame_keeps_reading(&FrameKind::Text));
    assert!(frame_keeps_reading(&FrameKind::Binary));
    assert!(frame_keeps_reading(&FrameKind::Ping));
    assert!(frame_keeps_reading(&FrameKind::Pong));
    assert!(frame_keeps_reading(&FrameKind::Other));
    assert!(!frame_keeps_reading(&FrameKind::Close));
}

#[test]
fn drop_failed_removes_exactly_the_failed_sends() {
    let mut m = ConnectionManager::new();
    let (a, _ra) = conn("a", DeviceType::Iphone, 0);
    let (b, _rb) = conn("b", DeviceType::Watch, 0);
    let (c, _rc) = conn("c", DeviceType::Iphone, 0);
    m.add(a);
    m.add(b);
    m.add(c);
    let outcomes = vec![("c".to_string(), false), ("a".to_string(), true), ("b".to_string(), false)];
    let dropped = m.drop_failed(&outcomes);
    assert_eq!(dropped, vec!["c".to_string(), "b".to_string()]);
    assert_eq!(sorted_devices(&m), vec![("a".to_string(), DeviceType::Iphone)]);
}
