//! Decisions of the message router: which client messages start an AI
//! turn, and the messages sent to the clients while the turn runs.
//!
//! For each user message the router appends it to the session history,
//! announces `Thinking`, asks the AI with the history, forwards each
//! streamed piece (not to a watch, whose small screen shows only the final
//! reply), then sends the final reply (or the error) and records the reply
//! in the history. Waiting on channels and on the HTTP stream happens in the
//! application layer.
use vstd::prelude::*;
use crate::ai::{opt_seq, ChatMessage, ChatRequest, ChatResponse};
use crate::protocol::{AiStatus, ClientToServer, DeviceType, MessageFrom, ServerPayload, ServerToClient};
use crate::text::{is_blank, owned, trim};

verus! {

broadcast use vstd::string::group_string_axioms;

/// One user turn: a non-blank text message of a client.
pub struct UserTurn {
    pub session_id: String,
    pub device_id: String,
    pub text: String,
    /// The message came from a watch.
    pub watch_target: bool,
}

/// The turn that a client message starts, as (session, device, text, from
/// a watch): only a `Message` whose text is present and not blank starts
/// one; joins and heartbeats never do.
pub open spec fn turn_of(msg: ClientToServer) -> Option<(Seq<char>, Seq<char>, Seq<char>, bool)> {
    match msg {
        ClientToServer::Message { session_id, device_id, device_type, payload, .. } => match payload.text {
            Some(t) => if trim(t@).len() > 0 {
                Some((session_id@, device_id@, t@, device_type == DeviceType::Watch))
            } else {
                None
            },
            None => None,
        },
        _ => None,
    }
}

/// The view of a turn.
pub open spec fn turn_view(t: UserTurn) -> (Seq<char>, Seq<char>, Seq<char>, bool) {
    (t.session_id@, t.device_id@, t.text@, t.watch_target)
}

/// The turn that `msg` starts, if any.
pub fn user_turn(msg: ClientToServer) -> (r: Option<UserTurn>)
    ensures
        match r {
            Some(t) => turn_of(msg) == Some(turn_view(t)),
            None => turn_of(msg) is None,
        },
{
    match msg {
        ClientToServer::Message { session_id, device_id, device_type, payload, .. } => match payload.text {
            Some(text) => {
                if is_blank(text.as_str()) {
                    None
                } else {
                    Some(UserTurn { session_id, device_id, text, watch_target: device_type == DeviceType::Watch })
                }
            },
            None => None,
        },
        _ => None,
    }
}

/// The history entry of the user's text.
pub fn user_message(turn: &UserTurn) -> (m: ChatMessage)
    ensures
        m.role@ == "user"@,
        m.content == turn.text,
{
    ChatMessage { role: owned("user"), content: turn.text.clone() }
}

/// The `Thinking` status announced when a turn starts.
pub fn thinking_status(session_id: String, timestamp: i64) -> (s: ServerToClient)
    ensures
        s == (ServerToClient::Status { session_id, status: AiStatus::Thinking, error: None, timestamp }),
{
    ServerToClient::Status { session_id, status: AiStatus::Thinking, error: None, timestamp }
}

/// The AI request of a turn: the session history, the configured model,
/// and whether the reply goes to a watch.
pub fn chat_request(turn: &UserTurn, history: Vec<ChatMessage>, model: String) -> (r: ChatRequest)
    ensures
        r.session_id == turn.session_id,
        r.messages == history,
        r.model == model,
        r.watch_target == turn.watch_target,
{
    ChatRequest { session_id: turn.session_id.clone(), messages: history, model, watch_target: turn.watch_target }
}

/// The message that forwards one streamed piece: none for a watch turn;
/// otherwise an AI message with the piece and status `Streaming`.
pub fn chunk_message(turn: &UserTurn, delta: &str, seq: u64, timestamp: i64) -> (r: Option<ServerToClient>)
    ensures
        turn.watch_target ==> r is None,
        !turn.watch_target ==> (r matches Some(ServerToClient::Message { session_id, seq: q, from, payload, timestamp: t })
            && session_id == turn.session_id && q == seq && from == MessageFrom::Ai && t == timestamp
            && (payload.content matches Some(c) && c@ == delta@) && payload.summary is None
            && payload.status == Some(AiStatus::Streaming) && payload.error is None),
{
    if turn.watch_target {
        return None;
    }
    Some(ServerToClient::Message {
        session_id: turn.session_id.clone(),
        seq,
        from: MessageFrom::Ai,
        payload: ServerPayload {
            content: Some(owned(delta)),
            summary: None,
            status: Some(AiStatus::Streaming),
            error: None,
        },
        timestamp,
    })
}

/// The history entry of the AI's reply.
pub fn assistant_message(resp: &ChatResponse) -> (m: ChatMessage)
    ensures
        m.role@ == "assistant"@,
        m.content == resp.content,
{
    ChatMessage { role: owned("assistant"), content: resp.content.clone() }
}

/// The final AI message of a turn: the reply, its summary, status `Done`.
pub fn final_message(session_id: String, resp: &ChatResponse, seq: u64, timestamp: i64) -> (r: ServerToClient)
    ensures
        r matches ServerToClient::Message { session_id: s, seq: q, from, payload, timestamp: t }
            && s == session_id && q == seq && from == MessageFrom::Ai && t == timestamp
            && payload.content == Some(resp.content) && payload.summary == resp.summary
            && payload.status == Some(AiStatus::Done) && payload.error is None,
{
    let summary = match &resp.summary {
        Some(s) => Some(s.clone()),
        None => None,
    };
    ServerToClient::Message {
        session_id,
        seq,
        from: MessageFrom::Ai,
        payload: ServerPayload {
            content: Some(resp.content.clone()),
            summary,
            status: Some(AiStatus::Done),
            error: None,
        },
        timestamp,
    }
}

/// The AI message that reports a failed turn: the error text as content
/// and as error, status `Error`.
pub fn failure_message(session_id: String, error: &str, seq: u64, timestamp: i64) -> (r: ServerToClient)
    ensures
        r matches ServerToClient::Message { session_id: s, seq: q, from, payload, timestamp: t }
            && s == session_id && q == seq && from == MessageFrom::Ai && t == timestamp
            && (payload.content matches Some(c) && c@ == error@) && payload.summary is None
            && payload.status == Some(AiStatus::Error) && (payload.error matches Some(e) && e@ == error@),
{
    ServerToClient::Message {
        session_id,
        seq,
        from: MessageFrom::Ai,
        payload: ServerPayload {
            content: Some(owned(error)),
            summary: None,
            status: Some(AiStatus::Error),
            error: Some(owned(error)),
        },
        timestamp,
    }
}

/// The sequence number made from a clock reading in milliseconds since the
/// UNIX epoch: its low 64 bits, or 0 when the clock is before the epoch.
pub fn seq_from_millis(millis: Option<u128>) -> (s: u64)
    ensures
        s == match millis {
            Some(m) => m as u64,
            None => 0u64,
        },
{
    match millis {
        Some(m) => m as u64,
        None => 0,
    }
}

#[verifier::external_type_specification]
#[verifier::external_body]
pub struct ExSystemTime(std::time::SystemTime);

/// The current time of the system clock.
/// Trusted: std's `SystemTime::now`; it reads the clock, so nothing is
/// stated of the value.
#[verifier::external_body]
fn system_now() -> (t: std::time::SystemTime) {
    std::time::SystemTime::now()
}

/// The time elapsed since the UNIX epoch, or `None` when `t` is before it.
/// Trusted: std's `SystemTime::duration_since(UNIX_EPOCH)`, whose error
/// (an earlier time) becomes `None`; nothing is stated of the duration.
#[verifier::external_body]
fn since_unix_epoch(t: &std::time::SystemTime) -> (r: Option<core::time::Duration>) {
    match t.duration_since(std::time::UNIX_EPOCH) {
        Ok(d) => Some(d),
        Err(_) => None,
    }
}

/// The whole milliseconds of a duration.
/// Trusted: std's `Duration::as_millis`; a duration is opaque here, so
/// nothing is stated of the number.
#[verifier::external_body]
fn whole_millis(d: &core::time::Duration) -> (m: u128) {
    d.as_millis()
}

/// A sequence number for an outgoing message: the current time in
/// milliseconds (see `seq_from_millis`).
pub fn next_seq() -> u64 {
    let millis = match since_unix_epoch(&system_now()) {
        Some(d) => Some(whole_millis(&d)),
        None => None,
    };
    seq_from_millis(millis)
}

// ---------------------------------------------------------------------------
// The turn protocol as a state machine
// ---------------------------------------------------------------------------

/// Where the router stands: idle, or waiting for the AI's reply to a turn.
pub enum TurnState {
    Idle,
    Waiting { turn: UserTurn },
}

/// What happens to the router: a client message arrives, the AI streams a
/// piece, the AI's reply is complete, or the AI request fails.
pub enum TurnEvent {
    Received(ClientToServer),
    Piece(String),
    Replied(ChatResponse),
    Failed(String),
}

/// What the router does, in order: append a message to a session's
/// history, send a message to every client and the front end, or ask the
/// AI with the session's history.
pub enum TurnEffect {
    Record { session_id: String, message: ChatMessage },
    Publish(ServerToClient),
    Ask(UserTurn),
}

/// The router's state as values.
pub enum TurnStateView {
    Idle,
    Waiting { session: Seq<char>, watch: bool },
}

/// An event as values.
pub enum TurnEventView {
    Received(ClientToServer),
    Piece(Seq<char>),
    Replied(Seq<char>, Option<Seq<char>>),
    Failed(Seq<char>),
}

/// An effect as values.
pub enum TurnEffectView {
    Record { session: Seq<char>, role: Seq<char>, content: Seq<char> },
    Thinking { session: Seq<char>, timestamp: i64 },
    Ask { session: Seq<char>, watch: bool },
    Piece { session: Seq<char>, text: Seq<char>, seq: u64, timestamp: i64 },
    Done { session: Seq<char>, content: Seq<char>, summary: Option<Seq<char>>, seq: u64, timestamp: i64 },
    Error { session: Seq<char>, text: Seq<char>, seq: u64, timestamp: i64 },
    /// A message that is none of the above.
    Other,
}

/// The view of a state.
pub open spec fn turn_state_view(s: TurnState) -> TurnStateView {
    match s {
        TurnState::Idle => TurnStateView::Idle,
        TurnState::Waiting { turn } => TurnStateView::Waiting { session: turn.session_id@, watch: turn.watch_target },
    }
}

/// The view of an event.
pub open spec fn turn_event_view(e: TurnEvent) -> TurnEventView {
    match e {
        TurnEvent::Received(m) => TurnEventView::Received(m),
        TurnEvent::Piece(d) => TurnEventView::Piece(d@),
        TurnEvent::Replied(r) => TurnEventView::Replied(r.content@, opt_seq(r.summary)),
        TurnEvent::Failed(e) => TurnEventView::Failed(e@),
    }
}

/// What a sent message is: the `Thinking` status, a streamed piece, the
/// final reply or the error reply of the AI, each with all its fields.
pub open spec fn publish_view(m: ServerToClient) -> TurnEffectView {
    match m {
        ServerToClient::Status { session_id, status, error, timestamp } => if status == AiStatus::Thinking
            && error is None {
            TurnEffectView::Thinking { session: session_id@, timestamp }
        } else {
            TurnEffectView::Other
        },
        ServerToClient::Message { session_id, seq, from, payload, timestamp } => if from != MessageFrom::Ai {
            TurnEffectView::Other
        } else {
            match (payload.content, payload.status) {
                (Some(c), Some(AiStatus::Streaming)) => if payload.summary is None && payload.error is None {
                    TurnEffectView::Piece { session: session_id@, text: c@, seq, timestamp }
                } else {
                    TurnEffectView::Other
                },
                (Some(c), Some(AiStatus::Done)) => if payload.error is None {
                    TurnEffectView::Done {
                        session: session_id@,
                        content: c@,
                        summary: opt_seq(payload.summary),
                        seq,
                        timestamp,
                    }
                } else {
                    TurnEffectView::Other
                },
                (Some(c), Some(AiStatus::Error)) => match payload.error {
                    Some(e) => if e@ == c@ && payload.summary is None {
                        TurnEffectView::Error { session: session_id@, text: c@, seq, timestamp }
                    } else {
                        TurnEffectView::Other
                    },
                    None => TurnEffectView::Other,
                },
                _ => TurnEffectView::Other,
            }
        },
        _ => TurnEffectView::Other,
    }
}

/// The view of an effect.
pub open spec fn turn_effect_view(e: TurnEffect) -> TurnEffectView {
    match e {
        TurnEffect::Record { session_id, message } => TurnEffectView::Record {
            session: session_id@,
            role: message.role@,
            content: message.content@,
        },
        TurnEffect::Publish(m) => publish_view(m),
        TurnEffect::Ask(t) => TurnEffectView::Ask { session: t.session_id@, watch: t.watch_target },
    }
}

/// The views of effects.
pub open spec fn turn_effects_view(es: Seq<TurnEffect>) -> Seq<TurnEffectView> {
    es.map_values(|e: TurnEffect| turn_effect_view(e))
}

/// One step of the router: a user message, when idle, is recorded, then
/// `Thinking` is announced, then the AI is asked; while waiting, each piece
/// is forwarded (not for a watch); the complete reply is recorded and then
/// sent with status `Done`; a failure is sent with status `Error` and
/// records nothing. Anything else changes nothing. `seq` and `timestamp`
/// are those of the messages sent in the step.
pub open spec fn turn_step_of(s: TurnStateView, e: TurnEventView, seq: u64, timestamp: i64) -> (
    TurnStateView,
    Seq<TurnEffectView>,
) {
    match s {
        TurnStateView::Idle => match e {
            TurnEventView::Received(msg) => match turn_of(msg) {
                Some((session, _device, text, watch)) => (
                    TurnStateView::Waiting { session, watch },
                    seq![
                        TurnEffectView::Record { session, role: "user"@, content: text },
                        TurnEffectView::Thinking { session, timestamp },
                        TurnEffectView::Ask { session, watch },
                    ],
                ),
                None => (s, Seq::empty()),
            },
            _ => (s, Seq::empty()),
        },
        TurnStateView::Waiting { session, watch } => match e {
            TurnEventView::Piece(d) => (
                s,
                if watch {
                    Seq::empty()
                } else {
                    seq![TurnEffectView::Piece { session, text: d, seq, timestamp }]
                },
            ),
            TurnEventView::Replied(content, summary) => (
                TurnStateView::Idle,
                seq![
                    TurnEffectView::Record { session, role: "assistant"@, content },
                    TurnEffectView::Done { session, content, summary, seq, timestamp },
                ],
            ),
            TurnEventView::Failed(text) => (
                TurnStateView::Idle,
                seq![TurnEffectView::Error { session, text, seq, timestamp }],
            ),
            TurnEventView::Received(_) => (s, Seq::empty()),
        },
    }
}

/// The router's next state and what it does on `event`.
pub fn turn_step(state: TurnState, event: TurnEvent, seq: u64, timestamp: i64) -> (r: (TurnState, Vec<TurnEffect>))
    ensures
        (turn_state_view(r.0), turn_effects_view(r.1@)) == turn_step_of(
            turn_state_view(state),
            turn_event_view(event),
            seq,
            timestamp,
        ),
{
    let ghost sv = turn_state_view(state);
    let ghost ev = turn_event_view(event);
    let mut effects: Vec<TurnEffect> = Vec::new();
    match state {
        TurnState::Idle => match event {
            TurnEvent::Received(msg) => match user_turn(msg) {
                Some(turn) => {
                    let sid = turn.session_id.clone();
                    effects.push(TurnEffect::Record { session_id: turn.session_id.clone(), message: user_message(&turn) });
                    effects.push(TurnEffect::Publish(thinking_status(sid, timestamp)));
                    let ask = UserTurn {
                        session_id: turn.session_id.clone(),
                        device_id: turn.device_id.clone(),
                        text: turn.text.clone(),
                        watch_target: turn.watch_target,
                    };
                    effects.push(TurnEffect::Ask(ask));
                    assert(turn_effects_view(effects@) =~= turn_step_of(sv, ev, seq, timestamp).1);
                    (TurnState::Waiting { turn }, effects)
                },
                None => {
                    assert(turn_effects_view(effects@) =~= Seq::<TurnEffectView>::empty());
                    (TurnState::Idle, effects)
                },
            },
            _ => {
                assert(turn_effects_view(effects@) =~= Seq::<TurnEffectView>::empty());
                (TurnState::Idle, effects)
            },
        },
        TurnState::Waiting { turn } => match event {
            TurnEvent::Piece(d) => {
                match chunk_message(&turn, d.as_str(), seq, timestamp) {
                    Some(m) => {
                        effects.push(TurnEffect::Publish(m));
                    },
                    None => {},
                }
                assert(turn_effects_view(effects@) =~= turn_step_of(sv, ev, seq, timestamp).1);
                (TurnState::Waiting { turn }, effects)
            },
            TurnEvent::Replied(resp) => {
                effects.push(TurnEffect::Record { session_id: turn.session_id.clone(), message: assistant_message(&resp) });
                effects.push(TurnEffect::Publish(final_message(turn.session_id.clone(), &resp, seq, timestamp)));
                assert(turn_effects_view(effects@) =~= turn_step_of(sv, ev, seq, timestamp).1);
                (TurnState::Idle, effects)
            },
            TurnEvent::Failed(e) => {
                effects.push(TurnEffect::Publish(failure_message(turn.session_id.clone(), e.as_str(), seq, timestamp)));
                assert(turn_effects_view(effects@) =~= turn_step_of(sv, ev, seq, timestamp).1);
                (TurnState::Idle, effects)
            },
            TurnEvent::Received(_) => {
                assert(turn_effects_view(effects@) =~= Seq::<TurnEffectView>::empty());
                (TurnState::Waiting { turn }, effects)
            },
        },
    }
}

/// The router's state and everything it did after the events `evs`
/// (each with the `seq` and `timestamp` of its step), starting from `s`.
pub open spec fn run_turn_events(s: TurnStateView, evs: Seq<(TurnEventView, u64, i64)>) -> (
    TurnStateView,
    Seq<TurnEffectView>,
)
    decreases evs.len(),
{
    if evs.len() == 0 {
        (s, Seq::empty())
    } else {
        let (s1, out1) = run_turn_events(s, evs.drop_last());
        let e = evs.last();
        let (s2, out2) = turn_step_of(s1, e.0, e.1, e.2);
        (s2, out1 + out2)
    }
}

/// Streamed pieces as events.
pub open spec fn piece_events(ps: Seq<(Seq<char>, u64, i64)>) -> Seq<(TurnEventView, u64, i64)> {
    ps.map_values(|p: (Seq<char>, u64, i64)| (TurnEventView::Piece(p.0), p.1, p.2))
}

/// The messages that forward streamed pieces of `session`.
pub open spec fn piece_effects(session: Seq<char>, ps: Seq<(Seq<char>, u64, i64)>) -> Seq<TurnEffectView> {
    ps.map_values(
        |p: (Seq<char>, u64, i64)| TurnEffectView::Piece { session, text: p.0, seq: p.1, timestamp: p.2 },
    )
}

/// How a turn of `session` ends: on the reply, it is recorded and then sent
/// as `Done`; on a failure, the error is sent and nothing is recorded.
pub open spec fn turn_closing(session: Seq<char>, end: TurnEventView, seq: u64, timestamp: i64) -> Seq<
    TurnEffectView,
> {
    match end {
        TurnEventView::Replied(content, summary) => seq![
            TurnEffectView::Record { session, role: "assistant"@, content },
            TurnEffectView::Done { session, content, summary, seq, timestamp },
        ],
        TurnEventView::Failed(text) => seq![TurnEffectView::Error { session, text, seq, timestamp }],
        _ => Seq::empty(),
    }
}

proof fn lemma_run_concat(s: TurnStateView, a: Seq<(TurnEventView, u64, i64)>, b: Seq<(TurnEventView, u64, i64)>)
    ensures
        ({
            let (s1, o1) = run_turn_events(s, a);
            let (s2, o2) = run_turn_events(s1, b);
            run_turn_events(s, a + b) == (s2, o1 + o2)
        }),
    decreases b.len(),
{
    if b.len() == 0 {
        assert(a + b =~= a);
        let (s1, o1) = run_turn_events(s, a);
        assert(o1 + Seq::<TurnEffectView>::empty() =~= o1);
    } else {
        lemma_run_concat(s, a, b.drop_last());
        assert((a + b).drop_last() =~= a + b.drop_last());
        assert((a + b).last() == b.last());
        let (s1, o1) = run_turn_events(s, a);
        let (c2, p2) = run_turn_events(s1, b.drop_last());
        let e = b.last();
        let x = turn_step_of(c2, e.0, e.1, e.2).1;
        assert(o1 + p2 + x =~= o1 + (p2 + x));
    }
}

proof fn lemma_run_pieces(session: Seq<char>, watch: bool, ps: Seq<(Seq<char>, u64, i64)>)
    ensures
        run_turn_events(TurnStateView::Waiting { session, watch }, piece_events(ps)) == (
            TurnStateView::Waiting { session, watch },
            if watch {
                Seq::<TurnEffectView>::empty()
            } else {
                piece_effects(session, ps)
            },
        ),
    decreases ps.len(),
{
    if ps.len() > 0 {
        lemma_run_pieces(session, watch, ps.drop_last());
        assert(piece_events(ps).drop_last() =~= piece_events(ps.drop_last()));
        if !watch {
            assert(piece_effects(session, ps) =~= piece_effects(session, ps.drop_last()) + seq![
                TurnEffectView::Piece { session, text: ps.last().0, seq: ps.last().1, timestamp: ps.last().2 },
            ]);
        } else {
            assert(Seq::<TurnEffectView>::empty() + Seq::<TurnEffectView>::empty() =~= Seq::<TurnEffectView>::empty());
        }
    } else {
        assert(piece_events(ps) =~= Seq::<(TurnEventView, u64, i64)>::empty());
        assert(piece_effects(session, ps) =~= Seq::<TurnEffectView>::empty());
    }
}

/// The turn protocol: for a user message, the router first records the
/// user's text, then announces `Thinking`, then asks the AI; it forwards
/// the streamed pieces in order (none to a watch); then, on the reply, it
/// records the reply and sends it as `Done`, or, on a failure, sends the
/// error and records nothing; and it is idle again.
pub proof fn law_turn_protocol(
    msg: ClientToServer,
    seq0: u64,
    timestamp0: i64,
    pieces: Seq<(Seq<char>, u64, i64)>,
    end: TurnEventView,
    seq: u64,
    timestamp: i64,
)
    requires
        turn_of(msg) is Some,
        end is Replied || end is Failed,
    ensures
        ({
            let (session, _device, text, watch) = turn_of(msg)->0;
            run_turn_events(
                TurnStateView::Idle,
                seq![(TurnEventView::Received(msg), seq0, timestamp0)] + piece_events(pieces) + seq![
                    (end, seq, timestamp),
                ],
            ) == (
                TurnStateView::Idle,
                seq![
                    TurnEffectView::Record { session, role: "user"@, content: text },
                    TurnEffectView::Thinking { session, timestamp: timestamp0 },
                    TurnEffectView::Ask { session, watch },
                ] + (if watch {
                    Seq::<TurnEffectView>::empty()
                } else {
                    piece_effects(session, pieces)
                }) + turn_closing(session, end, seq, timestamp),
            )
        }),
{
    let (session, _device, text, watch) = turn_of(msg)->0;
    let first = seq![(TurnEventView::Received(msg), seq0, timestamp0)];
    let last = seq![(end, seq, timestamp)];
    let waiting = TurnStateView::Waiting { session, watch };
    let none = Seq::<(TurnEventView, u64, i64)>::empty();
    assert(first.drop_last() =~= none);
    assert(first.last() == (TurnEventView::Received(msg), seq0, timestamp0));
    assert(run_turn_events(TurnStateView::Idle, none) == (TurnStateView::Idle, Seq::<TurnEffectView>::empty()));
    assert(run_turn_events(TurnStateView::Idle, first).0 == waiting);
    lemma_run_pieces(session, watch, pieces);
    lemma_run_concat(TurnStateView::Idle, first, piece_events(pieces));
    lemma_run_concat(waiting, piece_events(pieces), last);
    lemma_run_concat(TurnStateView::Idle, first + piece_events(pieces), last);
    assert(last.drop_last() =~= none);
    assert(last.last() == (end, seq, timestamp));
    assert(run_turn_events(waiting, none) == (waiting, Seq::<TurnEffectView>::empty()));
    let opening = seq![
        TurnEffectView::Record { session, role: "user"@, content: text },
        TurnEffectView::Thinking { session, timestamp: timestamp0 },
        TurnEffectView::Ask { session, watch },
    ];
    assert(Seq::<TurnEffectView>::empty() + opening =~= opening);
    let mid = if watch { Seq::<TurnEffectView>::empty() } else { piece_effects(session, pieces) };
    let close = turn_closing(session, end, seq, timestamp);
    assert(Seq::<TurnEffectView>::empty() + close =~= close);
    assert(run_turn_events(waiting, last).1 =~= close);
    assert(run_turn_events(waiting, last).0 == TurnStateView::Idle);
}

} // verus!
