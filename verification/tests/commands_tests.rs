use aura::commands::{
    chosen_storage_dir, local_user_message, parse_connection_mode, plan_start, send_local_message,
    send_test_broadcast, status_response, test_broadcast_message, transport_status, tray_click_action, tray_menu_action,
    StartPlan, TrayAction,
};
use aura::config::{AppConfig, ConnectionMode};
use aura::network::{TransportHandle, TransportStatus};
use aura::protocol::{AiStatus, ClientToServer, DeviceType, ServerToClient};
use tokio::sync::mpsc::unbounded_channel;

#[test]
fn status_of_the_configured_transport() {
    let mut c = AppConfig::default();
    assert!(matches!(transport_status(false, &c), TransportStatus::Stopped));
    assert!(matches!(transport_status(true, &c), TransportStatus::Listening { port: 8765 }));
    c.connection_mode = ConnectionMode::Relay;
    c.relay_server_url = "wss://r".to_string();
    match transport_status(true, &c) {
        TransportStatus::Connected { server_url } => assert_eq!(server_url, "wss://r"),
        other => panic!("unexpected {:?}", other),
    }
}

#[test]
fn status_responses() {
    let r = status_response(TransportStatus::Stopped);
    assert_eq!((r.mode.as_str(), r.status.as_str(), r.port, r.server_url, r.error), ("stopped", "stopped", None, None, None));
    let r = status_response(TransportStatus::Listening { port: 1 });
    assert_eq!((r.mode.as_str(), r.status.as_str(), r.port), ("lan", "listening", Some(1)));
    let r = status_response(TransportStatus::Connected { server_url: "u".to_string() });
    assert_eq!((r.mode.as_str(), r.status.as_str(), r.server_url.as_deref()), ("relay", "connected", Some("u")));
    let r = status_response(TransportStatus::Error("e".to_string()));
    assert_eq!((r.mode.as_str(), r.status.as_str(), r.error.as_deref()), ("error", "error", Some("e")));
}

#[test]
fn mode_names() {
    assert_eq!(parse_connection_mode("lan"), Ok(ConnectionMode::Lan));
    assert_eq!(parse_connection_mode("relay"), Ok(ConnectionMode::Relay));
    assert_eq!(parse_connection_mode("Lan"), Err("未知模式: Lan".to_string()));
}

#[test]
fn start_plans() {
    let mut c = AppConfig::default();
    assert_eq!(plan_start(true, &c).unwrap_err(), "已有传输在运行，请先停止");
    assert!(matches!(plan_start(false, &c), Ok(StartPlan::Lan { port: 8765 })));
    c.connection_mode = ConnectionMode::Relay;
    assert_eq!(plan_start(false, &c).unwrap_err(), "未配置中继服务器地址");
    c.relay_server_url = "wss://r".to_string();
    c.relay_room_id = "room".to_string();
    c.relay_secret_key = "k".to_string();
    match plan_start(false, &c).unwrap() {
        StartPlan::Relay { server_url, room_id, secret_key } => {
            assert_eq!((server_url.as_str(), room_id.as_str(), secret_key.as_str()), ("wss://r", "room", "k"))
        }
        other => panic!("unexpected {:?}", other),
    }
}

#[test]
fn test_broadcast_content() {
    let text = "一二三四五六七八九十一二三四五六七八九十一二三四五六七八九十超出";
    match test_broadcast_message(text, 5) {
        ServerToClient::Message { session_id, seq, payload, timestamp, .. } => {
            assert_eq!(session_id, "test");
            assert_eq!(seq, 0);
            assert_eq!(timestamp, 5);
            assert_eq!(payload.content, Some(format!("[test broadcast] {}", text)));
            assert_eq!(payload.summary, Some(text.chars().take(30).collect::<String>()));
            assert_eq!(payload.status, Some(AiStatus::Done));
        }
        other => panic!("unexpected {:?}", other),
    }
}

#[test]
fn test_broadcast_needs_a_transport() {
    assert_eq!(send_test_broadcast(&None, "x", 0).map(|_| ()), Err("传输未启动".to_string()));
    let (tx, mut rx) = unbounded_channel();
    let handle = TransportHandle { outgoing_tx: tx, incoming_rx: None, shutdown_tx: None, join_handle: None };
    let t = Some(handle);
    assert_eq!(send_test_broadcast(&t, "x", 0).map(|_| ()), Ok(()));
    let sent = rx.try_recv().unwrap();
    assert!(sent.target.is_none());
    drop(rx);
    assert_eq!(send_test_broadcast(&t, "x", 0).map(|_| ()), Err("transport 已停止".to_string()));
}

#[test]
fn desktop_messages() {
    match local_user_message("hello".to_string(), None, 9) {
        ClientToServer::Message { session_id, device_id, device_type, seq, payload, timestamp } => {
            assert_eq!(session_id, "mac-local");
            assert_eq!(device_id, "mac-local");
            assert_eq!(device_type, DeviceType::Iphone);
            assert_eq!(seq, None);
            assert_eq!(payload.text.as_deref(), Some("hello"));
            assert!(payload.command.is_none() && payload.file.is_none());
            assert_eq!(timestamp, 9);
        }
        other => panic!("unexpected {:?}", other),
    }
    match local_user_message("x".to_string(), Some("s2".to_string()), 0) {
        ClientToServer::Message { session_id, .. } => assert_eq!(session_id, "s2"),
        other => panic!("unexpected {:?}", other),
    }
}

#[test]
fn desktop_messages_need_the_router() {
    assert_eq!(
        send_local_message(&None, "x".to_string(), None, 0).map(|_| ()),
        Err("router 未启动，请先点击启动服务".to_string())
    );
    let (tx, mut rx) = unbounded_channel();
    let some_tx = Some(tx);
    assert_eq!(send_local_message(&some_tx, "x".to_string(), None, 0).map(|_| ()), Ok(()));
    assert!(matches!(rx.try_recv().unwrap(), ClientToServer::Message { .. }));
    drop(rx);
    assert_eq!(send_local_message(&some_tx, "x".to_string(), None, 0).map(|_| ()), Err("router 已停止".to_string()));
}

#[test]
fn storage_dir_choice() {
    assert_eq!(chosen_storage_dir(Some("/a".to_string())), Some("/a".to_string()));
    assert_eq!(chosen_storage_dir(Some(String::new())), None);
    assert_eq!(chosen_storage_dir(None), None);
}

#[test]
fn tray_menu_entries() {
    assert_eq!(tray_menu_action("show"), TrayAction::ShowWindow);
    assert_eq!(tray_menu_action("hide"), TrayAction::HideWindow);
    assert_eq!(tray_menu_action("quit"), TrayAction::Quit);
    assert_eq!(tray_menu_action("status"), TrayAction::Nothing);
}

#[test]
fn left_click_toggles_the_window() {
    assert_eq!(tray_click_action(true, true), TrayAction::HideWindow);
    assert_eq!(tray_click_action(true, false), TrayAction::ShowWindow);
    assert_eq!(tray_click_action(false, true), TrayAction::Nothing);
    assert_eq!(tray_click_action(false, false), TrayAction::Nothing);
}
