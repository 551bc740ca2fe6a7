//! Messages exchanged between the desktop and the phone / watch clients.
//!
//! Client to desktop: `ClientToServer`; desktop to client: `ServerToClient`.
//! The messages are the same in LAN mode and in relay mode; the relay only
//! forwards them. Their JSON form is produced by the application layer.
use vstd::prelude::*;

verus! {

/// Client to desktop.
#[derive(Debug, Clone)]
pub enum ClientToServer {
    /// A user message, a quick command or a file.
    Message {
        session_id: String,
        device_id: String,
        device_type: DeviceType,
        seq: Option<u64>,
        payload: ClientPayload,
        timestamp: i64,
    },
    /// Join a session (first connection).
    Join { session_id: String, device_id: String, device_type: DeviceType, timestamp: i64 },
    /// Keep-alive.
    Heartbeat { device_id: String, timestamp: i64 },
}

/// The kind of client device.
#[derive(Debug, Clone, Copy, PartialEq, Eq, Structural)]
pub enum DeviceType {
    Iphone,
    Watch,
}

/// What a client message carries.
#[derive(Debug, Clone)]
pub struct ClientPayload {
    pub text: Option<String>,
    pub command: Option<String>,
    pub file: Option<FileAttachment>,
}

impl Default for ClientPayload {
    fn default() -> (p: Self)
        ensures
            p.text is None,
            p.command is None,
            p.file is None,
    {
        ClientPayload { text: None, command: None, file: None }
    }
}

/// A file sent by a client; `data` is base64.
#[derive(Debug, Clone)]
pub struct FileAttachment {
    pub name: String,
    pub data: String,
    pub mime_type: String,
}

/// Desktop to client.
#[derive(Debug, Clone)]
pub enum ServerToClient {
    /// An AI reply (a streamed piece or the final message).
    Message {
        session_id: String,
        seq: u64,
        from: MessageFrom,
        payload: ServerPayload,
        timestamp: i64,
    },
    /// A status change (thinking / executing / done / error).
    Status { session_id: String, status: AiStatus, error: Option<String>, timestamp: i64 },
    /// Full history for a newly joined device.
    Sync { session_id: String, messages: Vec<SyncMessage>, timestamp: i64 },
    /// An error reply.
    Error { session_id: String, code: String, message: String, timestamp: i64 },
}

/// Who produced a desktop message.
#[derive(Debug, Clone, Copy, PartialEq, Eq, Structural)]
pub enum MessageFrom {
    Ai,
    System,
}

/// What a desktop message carries.
#[derive(Debug, Clone)]
pub struct ServerPayload {
    /// AI reply text (possibly a streamed piece).
    pub content: Option<String>,
    /// A short summary that the watch shows first.
    pub summary: Option<String>,
    pub status: Option<AiStatus>,
    pub error: Option<String>,
}

impl Default for ServerPayload {
    fn default() -> (p: Self)
        ensures
            p.content is None,
            p.summary is None,
            p.status is None,
            p.error is None,
    {
        ServerPayload { content: None, summary: None, status: None, error: None }
    }
}

/// State of the AI for one request.
#[derive(Debug, Clone, Copy, PartialEq, Eq, Structural)]
pub enum AiStatus {
    Thinking,
    Executing,
    Streaming,
    Done,
    Error,
}

/// One message of a history sync.
#[derive(Debug, Clone)]
pub struct SyncMessage {
    pub id: String,
    pub role: String,
    pub content: String,
    pub summary: Option<String>,
    pub seq: u64,
    pub created_at: i64,
}

/// The current UNIX time in seconds.
/// Trusted: chrono's `Utc::now().timestamp()`; it reads the clock, so nothing
/// is stated of the value.
#[verifier::external_body]
pub fn timestamp_now() -> i64 {
    chrono::Utc::now().timestamp()
}

} // verus!
