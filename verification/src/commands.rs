//! Decisions behind the commands that the desktop front end invokes, and
//! behind the tray menu.
use vstd::prelude::*;
use crate::config::{AppConfig, ConnectionMode};
use crate::network::{channel_send, transport_stopped_text, OutgoingMsg, Queued, TransportHandle, TransportStatus};
use crate::protocol::{AiStatus, ClientPayload, ClientToServer, DeviceType, MessageFrom, ServerPayload, ServerToClient};
use crate::text::{concat, owned, str_eq, take_chars, take_upto};

verus! {

broadcast use vstd::string::group_string_axioms;

/// What the front end shows about the transport.
#[derive(Debug)]
pub struct StatusResponse {
    pub mode: String,
    pub status: String,
    pub port: Option<u16>,
    pub server_url: Option<String>,
    pub error: Option<String>,
}

/// The status reported for the configured transport: `Stopped` when none
/// runs, otherwise listening on the configured port (LAN) or connected to
/// the configured relay.
pub fn transport_status(running: bool, config: &AppConfig) -> (s: TransportStatus)
    ensures
        !running ==> s == TransportStatus::Stopped,
        running && config.connection_mode == ConnectionMode::Lan ==> s == (TransportStatus::Listening {
            port: config.server_port,
        }),
        running && config.connection_mode == ConnectionMode::Relay ==> s == (TransportStatus::Connected {
            server_url: config.relay_server_url,
        }),
{
    if !running {
        TransportStatus::Stopped
    } else {
        match config.connection_mode {
            ConnectionMode::Lan => TransportStatus::Listening { port: config.server_port },
            ConnectionMode::Relay => TransportStatus::Connected { server_url: config.relay_server_url.clone() },
        }
    }
}

/// The front end's view of a status: mode and status words, and the port,
/// server or error that goes with it.
pub fn status_response(status: TransportStatus) -> (r: StatusResponse)
    ensures
        status is Stopped ==> r.mode@ == "stopped"@ && r.status@ == "stopped"@ && r.port is None
            && r.server_url is None && r.error is None,
        status matches TransportStatus::Listening { port } ==> r.mode@ == "lan"@ && r.status@
            == "listening"@ && r.port == Some(port) && r.server_url is None && r.error is None,
        status matches TransportStatus::Connected { server_url } ==> r.mode@ == "relay"@
            && r.status@ == "connected"@ && r.port is None && r.server_url == Some(server_url)
            && r.error is None,
        status matches TransportStatus::Error(e) ==> r.mode@ == "error"@ && r.status@ == "error"@
            && r.port is None && r.server_url is None && r.error == Some(e),
{
    match status {
        TransportStatus::Stopped => StatusResponse {
            mode: owned("stopped"),
            status: owned("stopped"),
            port: None,
            server_url: None,
            error: None,
        },
        TransportStatus::Listening { port } => StatusResponse {
            mode: owned("lan"),
            status: owned("listening"),
            port: Some(port),
            server_url: None,
            error: None,
        },
        TransportStatus::Connected { server_url } => StatusResponse {
            mode: owned("relay"),
            status: owned("connected"),
            port: None,
            server_url: Some(server_url),
            error: None,
        },
        TransportStatus::Error(e) => StatusResponse {
            mode: owned("error"),
            status: owned("error"),
            port: None,
            server_url: None,
            error: Some(e),
        },
    }
}

/// The mode a front-end mode name selects: `lan` or `relay`, anything else
/// is refused with `未知模式: <mode>`.
pub fn parse_connection_mode(mode: &str) -> (r: Result<ConnectionMode, String>)
    ensures
        mode@ == "lan"@ ==> r == Ok::<ConnectionMode, String>(ConnectionMode::Lan),
        mode@ == "relay"@ ==> r == Ok::<ConnectionMode, String>(ConnectionMode::Relay),
        mode@ != "lan"@ && mode@ != "relay"@ ==> (r matches Err(e) && e@ == "未知模式: "@ + mode@),
{
    proof {
        reveal_strlit("lan");
        reveal_strlit("relay");
        assert("lan"@[0] != "relay"@[0]);
    }
    if str_eq(mode, "lan") {
        Ok(ConnectionMode::Lan)
    } else if str_eq(mode, "relay") {
        Ok(ConnectionMode::Relay)
    } else {
        Err(concat("未知模式: ", mode))
    }
}

/// Which transport to start.
#[derive(Debug)]
pub enum StartPlan {
    Lan { port: u16 },
    Relay { server_url: String, room_id: String, secret_key: String },
}

/// Error of starting while a transport runs.
pub open spec fn already_running_text() -> Seq<char> {
    "已有传输在运行，请先停止"@
}

/// Error of starting relay mode without a relay server.
pub open spec fn no_relay_text() -> Seq<char> {
    "未配置中继服务器地址"@
}

/// What starting does: refuse while a transport runs; otherwise start the
/// configured transport, except relay mode without a server.
pub fn plan_start(running: bool, config: &AppConfig) -> (r: Result<StartPlan, String>)
    ensures
        running ==> (r matches Err(e) && e@ == already_running_text()),
        !running && config.connection_mode == ConnectionMode::Lan ==> (r matches Ok(
            StartPlan::Lan { port },
        ) && port == config.server_port),
        !running && config.connection_mode == ConnectionMode::Relay
            && config.relay_server_url@.len() == 0 ==> (r matches Err(e) && e@ == no_relay_text()),
        !running && config.connection_mode == ConnectionMode::Relay
            && config.relay_server_url@.len() > 0 ==> (r matches Ok(
            StartPlan::Relay { server_url, room_id, secret_key },
        ) && server_url == config.relay_server_url && room_id == config.relay_room_id
            && secret_key == config.relay_secret_key),
{
    if running {
        return Err(owned("已有传输在运行，请先停止"));
    }
    match config.connection_mode {
        ConnectionMode::Lan => Ok(StartPlan::Lan { port: config.server_port }),
        ConnectionMode::Relay => {
            if config.relay_server_url.as_str().is_empty() {
                return Err(owned("未配置中继服务器地址"));
            }
            Ok(StartPlan::Relay {
                server_url: config.relay_server_url.clone(),
                room_id: config.relay_room_id.clone(),
                secret_key: config.relay_secret_key.clone(),
            })
        },
    }
}

/// `m` is the debug broadcast of `text`: session `test`, sequence 0,
/// content `[test broadcast] <text>`, summary the first 30 characters of
/// `text`, status `Done`.
pub open spec fn is_test_broadcast(m: ServerToClient, text: Seq<char>, timestamp: i64) -> bool {
    m matches ServerToClient::Message { session_id, seq, from, payload, timestamp: t }
        && session_id@ == "test"@ && seq == 0 && from == MessageFrom::Ai && t == timestamp
        && (payload.content matches Some(c) && c@ == "[test broadcast] "@ + text)
        && (payload.summary matches Some(s) && s@ == take_upto(text, 30))
        && payload.status == Some(AiStatus::Done) && payload.error is None
}

/// The debug broadcast of `text` (see `is_test_broadcast`).
pub fn test_broadcast_message(text: &str, timestamp: i64) -> (m: ServerToClient)
    ensures
        is_test_broadcast(m, text@, timestamp),
{
    ServerToClient::Message {
        session_id: owned("test"),
        seq: 0,
        from: MessageFrom::Ai,
        payload: ServerPayload {
            content: Some(concat("[test broadcast] ", text)),
            summary: Some(take_chars(text, 30)),
            status: Some(AiStatus::Done),
            error: None,
        },
        timestamp,
    }
}

/// Error of the debug broadcast without a transport.
pub open spec fn not_started_text() -> Seq<char> {
    "传输未启动"@
}

/// Sends the debug broadcast of `text` to every client through the
/// running transport; the receipt shows that message queued.
pub fn send_test_broadcast(transport: &Option<TransportHandle>, text: &str, timestamp: i64) -> (r: Result<
    Queued<OutgoingMsg>,
    String,
>)
    ensures
        transport is None ==> (r matches Err(e) && e@ == not_started_text()),
        transport matches Some(h) ==> match r {
            Ok(q) => q.writer() == h.outgoing_tx && q.value().target is None && is_test_broadcast(
                q.value().message,
                text@,
                timestamp,
            ),
            Err(e) => e@ == transport_stopped_text(),
        },
{
    match transport {
        None => Err(owned("传输未启动")),
        Some(handle) => handle.send(None, test_broadcast_message(text, timestamp)),
    }
}

/// `m` is the message typed on the desktop, routed like a phone's: device
/// `mac-local`, handled as an iPhone (no watch formatting), session
/// `mac-local` unless one is given.
pub open spec fn is_local_user_message(
    m: ClientToServer,
    text: String,
    session_id: Option<String>,
    timestamp: i64,
) -> bool {
    m matches ClientToServer::Message { session_id: s, device_id, device_type, seq, payload, timestamp: t }
        && (match session_id {
            Some(given) => s == given,
            None => s@ == "mac-local"@,
        }) && device_id@ == "mac-local"@ && device_type == DeviceType::Iphone && seq is None
        && payload.text == Some(text) && payload.command is None && payload.file is None
        && t == timestamp
}

/// The desktop message of `text` (see `is_local_user_message`).
pub fn local_user_message(text: String, session_id: Option<String>, timestamp: i64) -> (m: ClientToServer)
    ensures
        is_local_user_message(m, text, session_id, timestamp),
{
    let session = match session_id {
        Some(s) => s,
        None => owned("mac-local"),
    };
    let mut payload = ClientPayload::default();
    payload.text = Some(text);
    ClientToServer::Message {
        session_id: session,
        device_id: owned("mac-local"),
        device_type: DeviceType::Iphone,
        seq: None,
        payload,
        timestamp,
    }
}

/// Error of sending a desktop message while the router is not running.
pub open spec fn router_not_started_text() -> Seq<char> {
    "router 未启动，请先点击启动服务"@
}

/// Error of sending a desktop message after the router stopped.
pub open spec fn router_stopped_text() -> Seq<char> {
    "router 已停止"@
}

/// Hands a desktop message to the router; the receipt shows that message
/// queued on the router's channel.
pub fn send_local_message(
    local_tx: &Option<tokio::sync::mpsc::UnboundedSender<ClientToServer>>,
    text: String,
    session_id: Option<String>,
    timestamp: i64,
) -> (r: Result<Queued<ClientToServer>, String>)
    ensures
        local_tx is None ==> (r matches Err(e) && e@ == router_not_started_text()),
        local_tx matches Some(tx) ==> match r {
            Ok(q) => q.writer() == tx && is_local_user_message(q.value(), text, session_id, timestamp),
            Err(e) => e@ == router_stopped_text(),
        },
{
    match local_tx {
        None => Err(owned("router 未启动，请先点击启动服务")),
        Some(tx) => match channel_send(tx, local_user_message(text, session_id, timestamp)) {
            Some(q) => Ok(q),
            None => Err(owned("router 已停止")),
        },
    }
}

/// The storage directory the user chose: `None` (use the default one)
/// when none or an empty one was given.
pub fn chosen_storage_dir(dir: Option<String>) -> (r: Option<String>)
    ensures
        match dir {
            Some(d) => if d@.len() > 0 {
                r == Some(d)
            } else {
                r is None
            },
            None => r is None,
        },
{
    match dir {
        Some(d) => if d.as_str().is_empty() {
            None
        } else {
            Some(d)
        },
        None => None,
    }
}

/// What a tray menu entry does.
#[derive(Debug, Clone, Copy, PartialEq, Eq, Structural)]
pub enum TrayAction {
    ShowWindow,
    HideWindow,
    Quit,
    Nothing,
}

/// The action of the tray menu entry `id`.
pub fn tray_menu_action(id: &str) -> (a: TrayAction)
    ensures
        id@ == "show"@ ==> a == TrayAction::ShowWindow,
        id@ == "hide"@ ==> a == TrayAction::HideWindow,
        id@ == "quit"@ ==> a == TrayAction::Quit,
        id@ != "show"@ && id@ != "hide"@ && id@ != "quit"@ ==> a == TrayAction::Nothing,
{
    proof {
        reveal_strlit("show");
        reveal_strlit("hide");
        reveal_strlit("quit");
        assert("show"@[0] != "hide"@[0] && "show"@[0] != "quit"@[0] && "hide"@[0] != "quit"@[0]);
    }
    if str_eq(id, "show") {
        TrayAction::ShowWindow
    } else if str_eq(id, "hide") {
        TrayAction::HideWindow
    } else if str_eq(id, "quit") {
        TrayAction::Quit
    } else {
        TrayAction::Nothing
    }
}

/// The action of a click on the tray icon: releasing the left button
/// toggles the main window (hides it when visible, shows it otherwise);
/// other clicks do nothing.
pub fn tray_click_action(left_button_up: bool, window_visible: bool) -> (a: TrayAction)
    ensures
        left_button_up && window_visible ==> a == TrayAction::HideWindow,
        left_button_up && !window_visible ==> a == TrayAction::ShowWindow,
        !left_button_up ==> a == TrayAction::Nothing,
{
    if !left_button_up {
        TrayAction::Nothing
    } else if window_visible {
        TrayAction::HideWindow
    } else {
        TrayAction::ShowWindow
    }
}

} // verus!
