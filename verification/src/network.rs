//! Transport layer: the values that the LAN server and the relay client
//! share with the message router, and the state each transport reports.
//!
//! The router only sees a `TransportHandle`; it does not know whether the
//! desktop is the server (LAN) or a client of a relay.
use vstd::prelude::*;
use crate::protocol::{ClientToServer, ServerToClient};
use crate::text::owned;

verus! {

broadcast use vstd::string::group_string_axioms;

#[verifier::external_type_specification]
#[verifier::external_body]
#[verifier::reject_recursive_types(T)]
pub struct ExUnboundedSender<T>(tokio::sync::mpsc::UnboundedSender<T>);

#[verifier::external_type_specification]
#[verifier::external_body]
#[verifier::reject_recursive_types(T)]
pub struct ExUnboundedReceiver<T>(tokio::sync::mpsc::UnboundedReceiver<T>);

#[verifier::external_type_specification]
#[verifier::external_body]
#[verifier::reject_recursive_types(T)]
pub struct ExOneshotSender<T>(tokio::sync::oneshot::Sender<T>);

#[verifier::external_type_specification]
#[verifier::external_body]
#[verifier::reject_recursive_types(T)]
pub struct ExJoinHandle<T>(tokio::task::JoinHandle<T>);

#[verifier::external_type_specification]
#[verifier::external_body]
pub struct ExJoinError(tokio::task::JoinError);

/// The receipt of a value that an unbounded channel accepted: which sender
/// it was put on, and the value. Only `channel_send` makes one.
#[verifier::reject_recursive_types(T)]
pub struct Queued<T> {
    record: Ghost<(tokio::sync::mpsc::UnboundedSender<T>, T)>,
}

impl<T> Queued<T> {
    /// The sender that the value was put on.
    pub closed spec fn writer(&self) -> tokio::sync::mpsc::UnboundedSender<T> {
        self.record@.0
    }

    /// The value put on the channel.
    pub closed spec fn value(&self) -> T {
        self.record@.1
    }
}

/// Puts `value` on an unbounded channel; a receipt when it was accepted.
/// Trusted: tokio's `UnboundedSender::send`, which fails only when the
/// receiving half is closed (and then hands the value back, dropped here).
/// That depends on the channel's state, so whether it succeeds is not
/// stated; the receipt records the sender and value handed to `send`.
#[verifier::external_body]
pub(crate) fn channel_send<T>(tx: &tokio::sync::mpsc::UnboundedSender<T>, value: T) -> (r: Option<Queued<T>>)
    ensures
        r matches Some(q) ==> q.writer() == *tx && q.value() == value,
{
    let record = Ghost((*tx, value));
    match tx.send(value) {
        Ok(()) => Some(Queued { record }),
        Err(_) => None,
    }
}

/// A message to send: to one device, or to all of them when `target` is
/// `None`.
#[derive(Debug, Clone)]
pub struct OutgoingMsg {
    pub target: Option<String>,
    pub message: ServerToClient,
}

/// What a transport reports about itself.
#[derive(Debug, Clone)]
pub enum TransportStatus {
    Stopped,
    Listening { port: u16 },
    Connected { server_url: String },
    Error(String),
}

impl TransportStatus {
    /// A copy of the status.
    pub fn duplicate(&self) -> (r: TransportStatus)
        ensures
            r == *self,
    {
        match self {
            TransportStatus::Stopped => TransportStatus::Stopped,
            TransportStatus::Listening { port } => TransportStatus::Listening { port: *port },
            TransportStatus::Connected { server_url } => TransportStatus::Connected {
                server_url: server_url.clone(),
            },
            TransportStatus::Error(e) => TransportStatus::Error(e.clone()),
        }
    }
}

/// A running transport, as the router sees it.
///
/// - `outgoing_tx`: where the router puts messages to send;
/// - `incoming_rx`: client messages, taken out once for the router;
/// - `shutdown_tx`: sending on it stops the transport;
/// - `join_handle`: the transport task, awaited after stopping.
pub struct TransportHandle {
    pub outgoing_tx: tokio::sync::mpsc::UnboundedSender<OutgoingMsg>,
    pub incoming_rx: Option<tokio::sync::mpsc::UnboundedReceiver<ClientToServer>>,
    pub shutdown_tx: Option<tokio::sync::oneshot::Sender<()>>,
    pub join_handle: Option<tokio::task::JoinHandle<()>>,
}

/// The error of sending through a stopped transport.
pub open spec fn transport_stopped_text() -> Seq<char> {
    "transport 已停止"@
}

impl TransportHandle {
    /// Queues `message` for `target` (every device when `None`): the
    /// receipt shows exactly that message put on `outgoing_tx`. The only
    /// error is a stopped transport.
    pub fn send(&self, target: Option<String>, message: ServerToClient) -> (r: Result<Queued<OutgoingMsg>, String>)
        ensures
            r matches Ok(q) ==> q.writer() == self.outgoing_tx && q.value() == (OutgoingMsg { target, message }),
            r matches Err(e) ==> e@ == transport_stopped_text(),
    {
        match channel_send(&self.outgoing_tx, OutgoingMsg { target, message }) {
            Some(q) => Ok(q),
            None => Err(owned("transport 已停止")),
        }
    }

    /// Takes the receiver of client messages out of the handle; later calls
    /// give `None`.
    pub fn take_incoming(&mut self) -> (r: Option<tokio::sync::mpsc::UnboundedReceiver<ClientToServer>>)
        ensures
            r == old(self).incoming_rx,
            final(self).incoming_rx is None,
            final(self).outgoing_tx == old(self).outgoing_tx,
            final(self).shutdown_tx == old(self).shutdown_tx,
            final(self).join_handle == old(self).join_handle,
    {
        self.incoming_rx.take()
    }
}

/// LAN mode: the desktop is a WebSocket server that phones connect to.
#[derive(Debug)]
pub struct LanTransport {
    pub port: u16,
    pub status: TransportStatus,
}

impl LanTransport {
    /// A LAN transport for `port`, not started.
    pub fn new(port: u16) -> (t: Self)
        ensures
            t.port == port,
            t.status == TransportStatus::Stopped,
    {
        LanTransport { port, status: TransportStatus::Stopped }
    }

    /// Records that the server listens on `bound_port`.
    pub fn set_listening(&mut self, bound_port: u16)
        ensures
            final(self).port == old(self).port,
            final(self).status == (TransportStatus::Listening { port: bound_port }),
    {
        self.status = TransportStatus::Listening { port: bound_port };
    }

    /// Records that the server stopped.
    pub fn set_stopped(&mut self)
        ensures
            final(self).port == old(self).port,
            final(self).status == TransportStatus::Stopped,
    {
        self.status = TransportStatus::Stopped;
    }

    /// The current status.
    pub fn status(&self) -> (s: TransportStatus)
        ensures
            s == self.status,
    {
        self.status.duplicate()
    }
}

/// Relay mode: the desktop is a client of a relay server that the user
/// runs. Not implemented yet: starting it only reports an error status.
#[derive(Debug)]
pub struct RelayTransport {
    pub server_url: String,
    pub room_id: String,
    pub secret_key: String,
    pub status: TransportStatus,
}

/// The status a started relay transport reports.
pub open spec fn relay_unimplemented_text() -> Seq<char> {
    "RelayTransport 尚未实现"@
}

impl RelayTransport {
    /// A relay transport for the given server, room and key, not started.
    pub fn new(server_url: String, room_id: String, secret_key: String) -> (t: Self)
        ensures
            t.server_url == server_url,
            t.room_id == room_id,
            t.secret_key == secret_key,
            t.status == TransportStatus::Stopped,
    {
        RelayTransport { server_url, room_id, secret_key, status: TransportStatus::Stopped }
    }

    /// Records the outcome of starting: the relay client is not implemented,
    /// so the status becomes that error.
    pub fn mark_started(&mut self)
        ensures
            final(self).server_url == old(self).server_url,
            final(self).room_id == old(self).room_id,
            final(self).secret_key == old(self).secret_key,
            final(self).status matches TransportStatus::Error(e) && e@
                == relay_unimplemented_text(),
    {
        self.status = TransportStatus::Error(owned("RelayTransport 尚未实现，请在 Phase 4 完成"));
        self.status = TransportStatus::Error(owned("RelayTransport 尚未实现"));
    }

    /// The current status.
    pub fn status(&self) -> (s: TransportStatus)
        ensures
            s == self.status,
    {
        self.status.duplicate()
    }
}

} // verus!
