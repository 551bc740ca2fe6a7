//! Connected clients of the LAN server: registration, heartbeats, timeout
//! sweeps, broadcast and targeted sends, and the per-connection reading
//! state.
use vstd::prelude::*;
use crate::network::{channel_send, Queued};
use crate::protocol::{ClientToServer, DeviceType};
use crate::table::StrTable;
use crate::text::{concat, owned, views_of};

verus! {

broadcast use vstd::string::group_string_axioms;

/// A client that has not sent a heartbeat for longer than this many
/// milliseconds is disconnected.
pub const HEARTBEAT_TIMEOUT_MS: u64 = 90_000;

/// How often the server looks for timed-out clients, in milliseconds.
pub const HEARTBEAT_CHECK_INTERVAL_MS: u64 = 30_000;

/// One connected client. `M` is the type of the messages written to it.
#[verifier::reject_recursive_types(M)]
pub struct ClientConnection<M> {
    pub device_id: String,
    pub device_type: DeviceType,
    pub session_id: String,
    /// Time of the last heartbeat, in milliseconds of a monotonic clock.
    pub last_ping: u64,
    /// The channel of the task that writes to the client's socket.
    pub writer_tx: tokio::sync::mpsc::UnboundedSender<M>,
}

/// `c` has missed its heartbeats at time `now`: more than
/// `HEARTBEAT_TIMEOUT_MS` have passed since its last one (a clock reading
/// before the last heartbeat counts as no time passed).
pub open spec fn is_expired<M>(c: ClientConnection<M>, now: u64) -> bool {
    now > c.last_ping + HEARTBEAT_TIMEOUT_MS
}

/// `c` after a heartbeat at `now`.
pub open spec fn pinged<M>(c: ClientConnection<M>, now: u64) -> ClientConnection<M> {
    ClientConnection { last_ping: now, ..c }
}

/// The connections after a heartbeat of `id` at `now`; an unknown id
/// changes nothing.
pub open spec fn after_ping<M>(
    m: Map<Seq<char>, ClientConnection<M>>,
    id: Seq<char>,
    now: u64,
) -> Map<Seq<char>, ClientConnection<M>> {
    if m.contains_key(id) {
        m.insert(id, pinged(m[id], now))
    } else {
        m
    }
}

/// The connections that are still alive at `now`.
pub open spec fn live_at<M>(m: Map<Seq<char>, ClientConnection<M>>, now: u64) -> Map<
    Seq<char>,
    ClientConnection<M>,
> {
    m.restrict(m.dom().filter(|k: Seq<char>| !is_expired(m[k], now)))
}

/// The text of the error for an unknown device.
pub open spec fn not_connected_text(id: Seq<char>) -> Seq<char> {
    "设备 "@ + id + " 未连接"@
}

/// The text of the error for a device whose writer is gone.
pub open spec fn writer_closed_text(id: Seq<char>) -> Seq<char> {
    "设备 "@ + id + " 的写通道已关闭"@
}

/// The outcome of sending to each connection: device id, and whether its
/// writer accepted the message.
pub open spec fn outcome_views(o: Seq<(String, bool)>) -> Seq<(Seq<char>, bool)> {
    o.map_values(|p: (String, bool)| (p.0@, p.1))
}

/// The device ids of send outcomes, in order.
pub open spec fn outcome_ids(o: Seq<(Seq<char>, bool)>) -> Seq<Seq<char>> {
    o.map_values(|p: (Seq<char>, bool)| p.0)
}

/// The ids whose send failed, in the order of the outcomes.
pub open spec fn failed_ids(o: Seq<(Seq<char>, bool)>) -> Seq<Seq<char>>
    decreases o.len(),
{
    if o.len() == 0 {
        Seq::empty()
    } else if o.last().1 {
        failed_ids(o.drop_last())
    } else {
        failed_ids(o.drop_last()).push(o.last().0)
    }
}

/// What a broadcast did: the outcome of each send, in the order sent, and
/// the ids of the connections dropped because their send failed.
#[verifier::reject_recursive_types(M)]
pub struct BroadcastReport<M> {
    pub outcomes: Vec<(String, bool)>,
    /// The receipt of each accepted send, in the order of `outcomes`.
    pub receipts: Vec<Option<Queued<M>>>,
    pub dropped: Vec<String>,
}

/// `report` is what a broadcast of `message` over the connections `m`
/// did: one send to each connection's writer (each once), a receipt for
/// each accepted one holding a clone of `message`, and the failed ones
/// listed as dropped.
pub open spec fn broadcast_done<M: Clone>(
    m: Map<Seq<char>, ClientConnection<M>>,
    message: M,
    report: BroadcastReport<M>,
) -> bool {
    let o = outcome_views(report.outcomes@);
    &&& outcome_ids(o).no_duplicates()
    &&& outcome_ids(o).to_set() == m.dom()
    &&& report.receipts@.len() == o.len()
    &&& forall|i: int|
        0 <= i < o.len() ==> (#[trigger] report.receipts@[i] is Some <==> o[i].1)
    &&& forall|i: int|
        0 <= i < o.len() ==> (#[trigger] report.receipts@[i] matches Some(q) ==> q.writer()
            == m[o[i].0].writer_tx && cloned(message, q.value()))
    &&& views_of(report.dropped@) == failed_ids(o)
}

/// What `deliver` did: one targeted send, or a broadcast.
#[verifier::reject_recursive_types(M)]
pub enum Delivery<M> {
    One(Queued<M>),
    All(BroadcastReport<M>),
}

/// All connected clients, keyed by device id.
#[verifier::reject_recursive_types(M)]
pub struct ConnectionManager<M> {
    connections: StrTable<ClientConnection<M>>,
}

impl<M> View for ConnectionManager<M> {
    type V = Map<Seq<char>, ClientConnection<M>>;

    closed spec fn view(&self) -> Map<Seq<char>, ClientConnection<M>> {
        self.connections@
    }
}

impl<M> ConnectionManager<M> {
    #[verifier::type_invariant]
    closed spec fn inv(self) -> bool {
        &&& self.connections.wf()
        &&& forall|k: Seq<char>| #[trigger]
            self.connections@.contains_key(k) ==> self.connections@[k].device_id@ == k
    }

    /// No connections.
    pub fn new() -> (m: Self)
        ensures
            m@ == Map::<Seq<char>, ClientConnection<M>>::empty(),
    {
        ConnectionManager { connections: StrTable::new() }
    }

    /// Registers `conn` under its device id, replacing an earlier connection
    /// of the same device.
    pub fn add(&mut self, conn: ClientConnection<M>)
        ensures
            final(self)@ == old(self)@.insert(conn.device_id@, conn),
    {
        proof {
            use_type_invariant(&*self);
        }
        let id = conn.device_id.clone();
        let mut t = StrTable::new();
        std::mem::swap(&mut t, &mut self.connections);
        t.insert(id, conn);
        self.connections = t;
    }

    /// Forgets the connection of `device_id`.
    pub fn remove(&mut self, device_id: &str)
        ensures
            final(self)@ == old(self)@.remove(device_id@),
    {
        proof {
            use_type_invariant(&*self);
        }
        let mut t = StrTable::new();
        std::mem::swap(&mut t, &mut self.connections);
        let _ = t.remove(device_id);
        self.connections = t;
    }

    /// Records a heartbeat of `device_id` at time `now`.
    pub fn update_ping(&mut self, device_id: &str, now: u64)
        ensures
            final(self)@ == after_ping(old(self)@, device_id@, now),
    {
        proof {
            use_type_invariant(&*self);
        }
        let mut t = StrTable::new();
        std::mem::swap(&mut t, &mut self.connections);
        match t.remove(device_id) {
            Some(c) => {
                let mut c = c;
                c.last_ping = now;
                let id = owned(device_id);
                t.insert(id, c);
                assert(t@ =~= after_ping(old(self)@, device_id@, now));
            },
            None => {
                assert(t@ =~= old(self)@);
            },
        }
        self.connections = t;
    }

    /// The device id and type of every connection, each device once.
    pub fn list_devices(&self) -> (ds: Vec<(String, DeviceType)>)
        ensures
            ds@.len() == self@.dom().len(),
            views_of(ds@.map_values(|d: (String, DeviceType)| d.0)).no_duplicates(),
            views_of(ds@.map_values(|d: (String, DeviceType)| d.0)).to_set() == self@.dom(),
            forall|i: int|
                0 <= i < ds@.len() ==> #[trigger] self@[ds@[i].0@].device_type == ds@[i].1,
    {
        proof {
            use_type_invariant(self);
            self.connections.lemma_order();
        }
        let n = self.connections.len();
        let mut ds: Vec<(String, DeviceType)> = Vec::new();
        let mut i: usize = 0;
        while i < n
            invariant
                self.connections.wf(),
                n == self.connections.key_seq().len(),
                i <= n,
                ds@.len() == i,
                forall|j: int| 0 <= j < i ==> #[trigger] ds@[j].0@ == self.connections.key_seq()[j],
                forall|j: int|
                    0 <= j < i ==> #[trigger] self@[ds@[j].0@].device_type == ds@[j].1,
            decreases n - i,
        {
            let id = self.connections.key_at(i).clone();
            let c = self.connections.value_at(i);
            ds.push((id, c.device_type));
            i = i + 1;
        }
        let ghost names = views_of(ds@.map_values(|d: (String, DeviceType)| d.0));
        assert(names =~= self.connections.key_seq());
        ds
    }

    /// Sends `message` to `device_id`: the receipt shows that message put
    /// on that device's writer and on no other.
    pub fn send_to(&self, device_id: &str, message: M) -> (r: Result<Queued<M>, String>)
        ensures
            !self@.contains_key(device_id@) ==> (r matches Err(e) && e@ == not_connected_text(
                device_id@,
            )),
            self@.contains_key(device_id@) ==> match r {
                Ok(q) => q.writer() == self@[device_id@].writer_tx && q.value() == message,
                Err(e) => e@ == writer_closed_text(device_id@),
            },
    {
        proof {
            use_type_invariant(self);
        }
        match self.connections.get(device_id) {
            Some(c) => {
                if let Some(q) = channel_send(&c.writer_tx, message) {
                    Ok(q)
                } else {
                    let mut e = concat("设备 ", device_id);
                    e.append(" 的写通道已关闭");
                    Err(e)
                }
            },
            None => {
                let mut e = concat("设备 ", device_id);
                e.append(" 未连接");
                Err(e)
            },
        }
    }

    /// Forgets the connections whose send failed: `outcomes` pairs each
    /// device id with whether its writer accepted the message. Gives back
    /// the ids of the failed sends, in the order of `outcomes`.
    pub fn drop_failed(&mut self, outcomes: &Vec<(String, bool)>) -> (dropped: Vec<String>)
        ensures
            views_of(dropped@) == failed_ids(outcome_views(outcomes@)),
            final(self)@ == old(self)@.remove_keys(failed_ids(outcome_views(outcomes@)).to_set()),
    {
        proof {
            use_type_invariant(&*self);
        }
        let ghost ov = outcome_views(outcomes@);
        let mut t = StrTable::new();
        std::mem::swap(&mut t, &mut self.connections);
        let mut dropped: Vec<String> = Vec::new();
        let mut j: usize = 0;
        assert(ov.take(0) =~= Seq::<(Seq<char>, bool)>::empty());
        assert(failed_ids(ov.take(0)).to_set() =~= Set::<Seq<char>>::empty());
        assert(t@ =~= old(self)@.remove_keys(Set::<Seq<char>>::empty()));
        while j < outcomes.len()
            invariant
                t.wf(),
                j <= outcomes@.len(),
                ov == outcome_views(outcomes@),
                views_of(dropped@) == failed_ids(ov.take(j as int)),
                t@ == old(self)@.remove_keys(failed_ids(ov.take(j as int)).to_set()),
                forall|k: Seq<char>| #[trigger] t@.contains_key(k) ==> t@[k].device_id@ == k,
            decreases outcomes@.len() - j,
        {
            let ghost before = failed_ids(ov.take(j as int));
            assert(ov.take(j + 1).drop_last() =~= ov.take(j as int));
            assert(ov.take(j + 1).last() == ov[j as int]);
            let entry = &outcomes[j];
            if !entry.1 {
                let _ = t.remove(entry.0.as_str());
                let ghost d0 = dropped@;
                dropped.push(entry.0.clone());
                proof {
                    assert(views_of(dropped@) =~= views_of(d0).push(entry.0@));
                    before.lemma_push_to_set_commute(entry.0@);
                }
                assert(t@ =~= old(self)@.remove_keys(failed_ids(ov.take(j + 1)).to_set()));
            }
            j = j + 1;
        }
        assert(ov.take(outcomes@.len() as int) =~= ov);
        self.connections = t;
        dropped
    }

    /// Sends `message` to every connection, once each, then forgets those
    /// whose writer refused it (its client is gone). Gives back the outcome
    /// and receipt of every send and the ids dropped.
    pub fn broadcast(&mut self, message: M) -> (report: BroadcastReport<M>) where M: Clone
        ensures
            broadcast_done(old(self)@, message, report),
            final(self)@ == old(self)@.remove_keys(
                failed_ids(outcome_views(report.outcomes@)).to_set(),
            ),
    {
        proof {
            use_type_invariant(&*self);
            self.connections.lemma_order();
        }
        let n = self.connections.len();
        let ghost ks = self.connections.key_seq();
        let ghost m = old(self)@;
        let mut outcomes: Vec<(String, bool)> = Vec::new();
        let mut receipts: Vec<Option<Queued<M>>> = Vec::new();
        let mut i: usize = 0;
        while i < n
            invariant
                self.connections.wf(),
                self@ == m,
                m == old(self)@,
                ks == self.connections.key_seq(),
                n == ks.len(),
                i <= n,
                outcome_ids(outcome_views(outcomes@)) == ks.take(i as int),
                receipts@.len() == i,
                forall|j: int|
                    0 <= j < i ==> (#[trigger] receipts@[j] is Some <==> outcomes@[j].1),
                forall|j: int|
                    0 <= j < i ==> (#[trigger] receipts@[j] matches Some(q) ==> q.writer()
                        == m[outcomes@[j].0@].writer_tx && cloned(message, q.value())),
            decreases n - i,
        {
            let c = self.connections.value_at(i);
            let copy = message.clone();
            let receipt = channel_send(&c.writer_tx, copy);
            let sent = receipt.is_some();
            let id = self.connections.key_at(i).clone();
            let ghost before = outcomes@;
            outcomes.push((id, sent));
            receipts.push(receipt);
            proof {
                let a = outcome_ids(outcome_views(outcomes@));
                let b = ks.take(i + 1);
                assert(outcome_ids(outcome_views(before)).len() == i);
                assert(before.len() == i);
                assert(outcomes@.len() == i + 1);
                assert(a.len() == b.len());
                assert forall|x: int| 0 <= x < a.len() implies a[x] == b[x] by {
                    if x < i {
                        assert(outcomes@[x] == before[x]);
                        assert(outcome_ids(outcome_views(before))[x] == ks.take(i as int)[x]);
                    } else {
                        assert(outcomes@[x] == (id, sent));
                    }
                }
                assert(a =~= b);
                assert(outcomes@[i as int].0@ == ks[i as int]);
            }
            i = i + 1;
        }
        assert(ks.take(n as int) =~= ks);
        let dropped = self.drop_failed(&outcomes);
        let report = BroadcastReport { outcomes, receipts, dropped };
        proof {
            let o = outcome_views(report.outcomes@);
            assert forall|x: int| 0 <= x < o.len() implies (#[trigger] report.receipts@[x] matches Some(q)
                ==> q.writer() == m[o[x].0].writer_tx && cloned(message, q.value())) by {
                assert(o[x].0 == report.outcomes@[x].0@);
            }
            assert forall|x: int| 0 <= x < o.len() implies (#[trigger] report.receipts@[x] is Some <==> o[x].1) by {
                assert(o[x].1 == report.outcomes@[x].1);
            }
        }
        report
    }

    /// Sends `message` to `target`, or to everyone when `target` is `None`.
    pub fn deliver(&mut self, target: Option<String>, message: M) -> (r: Result<Delivery<M>, String>) where M: Clone
        ensures
            target is None ==> (r matches Ok(Delivery::All(report)) && broadcast_done(
                old(self)@,
                message,
                report,
            ) && final(self)@ == old(self)@.remove_keys(
                failed_ids(outcome_views(report.outcomes@)).to_set(),
            )),
            target matches Some(id) ==> final(self)@ == old(self)@,
            target matches Some(id) ==> (!old(self)@.contains_key(id@) ==> (r matches Err(e) && e@
                == not_connected_text(id@))),
            target matches Some(id) ==> (old(self)@.contains_key(id@) ==> match r {
                Ok(Delivery::One(q)) => q.writer() == old(self)@[id@].writer_tx && q.value() == message,
                Ok(Delivery::All(_)) => false,
                Err(e) => e@ == writer_closed_text(id@),
            }),
    {
        match target {
            Some(id) => match self.send_to(id.as_str(), message) {
                Ok(q) => Ok(Delivery::One(q)),
                Err(e) => Err(e),
            },
            None => Ok(Delivery::All(self.broadcast(message))),
        }
    }

    /// Disconnects every client that missed its heartbeats at `now`, and
    /// gives back their ids.
    pub fn remove_expired(&mut self, now: u64) -> (expired: Vec<String>)
        ensures
            final(self)@ == live_at(old(self)@, now),
            views_of(expired@).no_duplicates(),
            views_of(expired@).to_set() == old(self)@.dom().filter(
                |k: Seq<char>| is_expired(old(self)@[k], now),
            ),
    {
        proof {
            use_type_invariant(&*self);
            self.connections.lemma_order();
        }
        let n = self.connections.len();
        let ghost ks = self.connections.key_seq();
        let ghost m = old(self)@;
        let mut expired: Vec<String> = Vec::new();
        let ghost mut picked: Seq<int> = Seq::empty();
        let mut i: usize = 0;
        while i < n
            invariant
                self.connections.wf(),
                self@ == m,
                ks == self.connections.key_seq(),
                n == ks.len(),
                i <= n,
                picked_from(ks, views_of(expired@), picked, i as int),
                forall|j: int| 0 <= j < picked.len() ==> is_expired(m[ks[#[trigger] picked[j]]], now),
                forall|k: int|
                    0 <= k < i && is_expired(m[#[trigger] ks[k]], now) ==> picked.contains(k),
            decreases n - i,
        {
            let c = self.connections.value_at(i);
            if now > c.last_ping && now - c.last_ping > HEARTBEAT_TIMEOUT_MS {
                let id = self.connections.key_at(i).clone();
                let ghost before = expired@;
                expired.push(id);
                proof {
                    assert(views_of(expired@) =~= views_of(before).push(ks[i as int]));
                    let old_picked = picked;
                    picked = picked.push(i as int);
                    assert forall|k: int| 0 <= k < i + 1 && is_expired(m[#[trigger] ks[k]], now)
                        implies picked.contains(k) by {
                        if k < i {
                            let j = choose|j: int| 0 <= j < old_picked.len() && old_picked[j] == k;
                            assert(picked[j] == k);
                        } else {
                            assert(picked[picked.len() - 1] == k);
                        }
                    }
                }
            }
            i = i + 1;
        }
        let ghost names = views_of(expired@);
        proof {
            lemma_picked(ks, names, picked, n as int);
            self.connections.lemma_order();
            let target = m.dom().filter(|k: Seq<char>| is_expired(m[k], now));
            assert forall|k: Seq<char>| names.to_set().contains(k) <==> target.contains(k) by {
                if target.contains(k) {
                    assert(ks.to_set().contains(k));
                    let x = choose|x: int| 0 <= x < ks.len() && ks[x] == k;
                    assert(is_expired(m[ks[x]], now));
                    let j = choose|j: int| 0 <= j < picked.len() && picked[j] == x;
                    assert(names[j] == k);
                    assert(names.contains(k));
                }
                if names.to_set().contains(k) {
                    let j = choose|j: int| 0 <= j < names.len() && names[j] == k;
                    assert(is_expired(m[ks[picked[j]]], now));
                    assert(ks.to_set().contains(ks[picked[j]]));
                }
            }
            assert(names.to_set() =~= target);
        }
        let mut t = StrTable::new();
        std::mem::swap(&mut t, &mut self.connections);
        let mut j: usize = 0;
        while j < expired.len()
            invariant
                t.wf(),
                j <= expired@.len(),
                names == views_of(expired@),
                t@ == old(self)@.remove_keys(names.take(j as int).to_set()),
                forall|k: Seq<char>| #[trigger] t@.contains_key(k) ==> t@[k].device_id@ == k,
            decreases expired@.len() - j,
        {
            let _ = t.remove(expired[j].as_str());
            assert(names.take(j + 1) =~= names.take(j as int).push(names[j as int]));
            proof { names.take(j as int).lemma_push_to_set_commute(names[j as int]); }
            assert(t@ =~= old(self)@.remove_keys(names.take(j + 1).to_set()));
            j = j + 1;
        }
        assert(names.take(expired@.len() as int) =~= names);
        assert(t@ =~= live_at(old(self)@, now));
        self.connections = t;
        expired
    }
}

/// `names[j]` is `ks[picked[j]]`, the positions `picked` rise strictly and
/// lie below `upto`.
pub open spec fn picked_from(ks: Seq<Seq<char>>, names: Seq<Seq<char>>, picked: Seq<int>, upto: int) -> bool {
    &&& picked.len() == names.len()
    &&& forall|j: int| 0 <= j < picked.len() ==> 0 <= #[trigger] picked[j] < upto
    &&& forall|j: int| 0 <= j < picked.len() ==> #[trigger] names[j] == ks[picked[j]]
    &&& forall|a: int, b: int| 0 <= a < b < picked.len() ==> #[trigger] picked[a] < #[trigger] picked[b]
}

proof fn lemma_picked(ks: Seq<Seq<char>>, names: Seq<Seq<char>>, picked: Seq<int>, n: int)
    requires
        ks.no_duplicates(),
        n == ks.len(),
        picked_from(ks, names, picked, n),
    ensures
        names.no_duplicates(),
        names.to_set().subset_of(ks.to_set()),
{
    assert forall|a: int, b: int| 0 <= a < names.len() && 0 <= b < names.len() && a != b
        implies names[a] != names[b] by {
        if a < b {
            assert(picked[a] < picked[b]);
        } else {
            assert(picked[b] < picked[a]);
        }
    }
    assert forall|k: Seq<char>| names.to_set().contains(k) implies ks.to_set().contains(k) by {
        let j = choose|j: int| 0 <= j < names.len() && names[j] == k;
        assert(ks[picked[j]] == k);
    }
}

/// After a sweep at `now`, no remaining client has missed its heartbeats,
/// and every client that has not missed them is still there, unchanged.
pub proof fn law_sweep_keeps_exactly_live<M>(m: Map<Seq<char>, ClientConnection<M>>, now: u64)
    ensures
        forall|k: Seq<char>| #[trigger] live_at(m, now).contains_key(k) ==> !is_expired(
            live_at(m, now)[k],
            now,
        ),
        forall|k: Seq<char>|
            #[trigger] m.contains_key(k) && !is_expired(m[k], now) ==> live_at(m, now).contains_key(k)
                && live_at(m, now)[k] == m[k],
{
}

/// A heartbeat keeps a client through every sweep made within
/// `HEARTBEAT_TIMEOUT_MS` of it.
pub proof fn law_heartbeat_keeps_alive<M>(
    m: Map<Seq<char>, ClientConnection<M>>,
    id: Seq<char>,
    ping_at: u64,
    sweep_at: u64,
)
    requires
        m.contains_key(id),
        sweep_at <= ping_at + HEARTBEAT_TIMEOUT_MS,
    ensures
        live_at(after_ping(m, id, ping_at), sweep_at).contains_key(id),
{
}

/// Where a connection's reader stands: the device id that its first message
/// registered, if any.
pub struct ConnectionReader {
    pub device_id: Option<String>,
}

/// What to do with one message read from a client.
pub struct ReaderAction {
    /// Register the connection under this device id, type and session.
    pub register: Option<(String, DeviceType, String)>,
    /// Record a heartbeat of this device.
    pub ping: Option<String>,
    /// Hand this message to the router.
    pub forward: Option<ClientToServer>,
}

/// The device id, type and session that a first message registers; a
/// heartbeat registers an iPhone with no session.
pub open spec fn registration_of(msg: ClientToServer) -> (Seq<char>, DeviceType, Seq<char>) {
    match msg {
        ClientToServer::Message { device_id, device_type, session_id, .. } => (
            device_id@,
            device_type,
            session_id@,
        ),
        ClientToServer::Join { device_id, device_type, session_id, .. } => (
            device_id@,
            device_type,
            session_id@,
        ),
        ClientToServer::Heartbeat { device_id, .. } => (
            device_id@,
            DeviceType::Iphone,
            Seq::empty(),
        ),
    }
}

/// The view of a registration.
pub open spec fn registration_view(r: (String, DeviceType, String)) -> (
    Seq<char>,
    DeviceType,
    Seq<char>,
) {
    (r.0@, r.1, r.2@)
}

/// The kinds of WebSocket frame that a connection reads.
pub enum FrameKind {
    Text,
    Binary,
    Ping,
    Pong,
    Close,
    Other,
}

/// Reading goes on after a frame of this kind (only a close frame ends it).
pub fn frame_keeps_reading(kind: &FrameKind) -> (r: bool)
    ensures
        r == !(kind is Close),
{
    match kind {
        FrameKind::Close => false,
        _ => true,
    }
}

impl ConnectionReader {
    /// A reader before the first message.
    pub fn new() -> (r: Self)
        ensures
            r.device_id is None,
    {
        ConnectionReader { device_id: None }
    }

    /// Decides what to do with a parsed client message: the first message
    /// registers the connection; a heartbeat refreshes its device and is not
    /// forwarded; every other message goes to the router.
    pub fn on_message(&mut self, msg: ClientToServer) -> (a: ReaderAction)
        ensures
            old(self).device_id is None ==> (a.register matches Some(r) && registration_view(r)
                == registration_of(msg)),
            old(self).device_id is None ==> (final(self).device_id matches Some(d) && d@
                == registration_of(msg).0),
            old(self).device_id is Some ==> a.register is None && final(self).device_id
                == old(self).device_id,
            msg matches ClientToServer::Heartbeat { device_id, .. } ==> (a.ping matches Some(p)
                && p@ == device_id@),
            msg is Heartbeat ==> a.forward is None,
            !(msg is Heartbeat) ==> a.ping is None && a.forward == Some(msg),
    {
        let register = if self.device_id.is_none() {
            let r: (String, DeviceType, String) = match &msg {
                ClientToServer::Message { device_id, device_type, session_id, .. } => (
                    device_id.clone(),
                    *device_type,
                    session_id.clone(),
                ),
                ClientToServer::Join { device_id, device_type, session_id, .. } => (
                    device_id.clone(),
                    *device_type,
                    session_id.clone(),
                ),
                ClientToServer::Heartbeat { device_id, .. } => (
                    device_id.clone(),
                    DeviceType::Iphone,
                    String::new(),
                ),
            };
            self.device_id = Some(r.0.clone());
            Some(r)
        } else {
            None
        };
        match msg {
            ClientToServer::Heartbeat { device_id, .. } => ReaderAction {
                register,
                ping: Some(device_id),
                forward: None,
            },
            other => ReaderAction { register, ping: None, forward: Some(other) },
        }
    }
}

/// A connection is registered under the sender of its first message: a
/// `Join` or a user message registers its own device id, device type and
/// session; a heartbeat (which carries no type or session) registers its
/// device id as an iPhone with no session.
pub proof fn law_first_message_registers_its_sender(msg: ClientToServer)
    ensures
        msg matches ClientToServer::Join { device_id, device_type, session_id, .. } ==> registration_of(
            msg,
        ) == (device_id@, device_type, session_id@),
        msg matches ClientToServer::Message { device_id, device_type, session_id, .. }
            ==> registration_of(msg) == (device_id@, device_type, session_id@),
        msg matches ClientToServer::Heartbeat { device_id, .. } ==> registration_of(msg) == (
            device_id@,
            DeviceType::Iphone,
            Seq::<char>::empty(),
        ),
{
}

} // verus!
