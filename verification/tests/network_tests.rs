use aura::network::{LanTransport, RelayTransport, TransportHandle, TransportStatus};
use aura::protocol::{ClientToServer, ServerToClient};
use tokio::sync::mpsc::unbounded_channel;

fn error_message() -> ServerToClient {
    ServerToClient::Error {
        session_id: "s".to_string(),
        code: "c".to_string(),
        message: "m".to_string(),
        timestamp: 0,
    }
}

#[test]
fn handle_send_and_take_incoming() {
    let (tx, mut rx) = unbounded_channel();
    let (_itx, irx) = unbounded_channel::<ClientToServer>();
    let mut h = TransportHandle { outgoing_tx: tx, incoming_rx: Some(irx), shutdown_tx: None, join_handle: None };
    assert_eq!(h.send(Some("d".to_string()), error_message()).map(|_| ()), Ok(()));
    assert_eq!(rx.try_recv().unwrap().target.as_deref(), Some("d"));
    assert!(h.take_incoming().is_some());
    assert!(h.take_incoming().is_none());
    drop(rx);
    assert_eq!(h.send(None, error_message()).map(|_| ()), Err("transport 已停止".to_string()));
}

#[test]
fn lan_transport_status() {
    let mut t = LanTransport::new(8765);
    assert_eq!(t.port, 8765);
    assert!(matches!(t.status(), TransportStatus::Stopped));
    t.set_listening(40000);
    assert!(matches!(t.status(), TransportStatus::Listening { port: 40000 }));
    t.set_stopped();
    assert!(matches!(t.status(), TransportStatus::Stopped));
}

#[test]
fn relay_transport_reports_unimplemented() {
    let mut t = RelayTransport::new("wss://r".to_string(), "room".to_string(), "k".to_string());
    assert!(matches!(t.status(), TransportStatus::Stopped));
    t.mark_started();
    match t.status() {
        TransportStatus::Error(e) => assert_eq!(e, "RelayTransport 尚未实现"),
        other => panic!("unexpected {:?}", other),
    }
    assert_eq!(t.server_url, "wss://r");
    assert_eq!(t.room_id, "room");
    assert_eq!(t.secret_key, "k");
}
