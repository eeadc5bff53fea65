//! The streaming session: its outbound frames and the state machine that
//! decides, event by event, what the connection does next.
use vstd::prelude::*;
use crate::json::{json_parse, json_quoted};
use crate::sign::{push_quoted, sign_message, signature};
use crate::text::{decimal, push_char, push_decimal, u64_to_decimal};
use crate::ws_types::{classified_as, classify_frame, message_kind, BybitWsUpdate, MessageKind};

verus! {

/// An API key and its secret, fixed for the life of a client.
pub struct Credentials {
    pub api_key: String,
    pub api_secret: String,
}

/// How long, in milliseconds, a stream authentication stays valid.
pub const AUTH_VALIDITY_MS: u64 = 5000;

/// The expiry of an authentication signed at `now_ms`.
pub open spec fn auth_expiry(now_ms: u64) -> u64 {
    if now_ms <= u64::MAX - AUTH_VALIDITY_MS { (now_ms + AUTH_VALIDITY_MS) as u64 } else { u64::MAX }
}

/// The message signed to authenticate a stream: `GET/realtime` then the expiry.
pub open spec fn auth_message(expires: u64) -> Seq<char> {
    "GET/realtime"@ + decimal(expires as nat)
}

/// The authentication frame: `{"req_id":null,"op":"auth","args":[key, expiry, signature]}`.
pub open spec fn auth_frame_text(api_key: Seq<char>, expires: u64, sig: Seq<char>) -> Seq<char> {
    "{\"req_id\":null,\"op\":\"auth\",\"args\":["@ + json_quoted(api_key) + seq![',']
        + json_quoted(decimal(expires as nat)) + seq![','] + json_quoted(sig) + "]}"@
}

/// The authentication frame for credentials at time `now_ms`.
pub open spec fn auth_frame(api_key: Seq<char>, api_secret: Seq<char>, now_ms: u64) -> Seq<char> {
    auth_frame_text(api_key, auth_expiry(now_ms), signature(api_secret, auth_message(auth_expiry(now_ms))))
}

/// Topics as JSON strings joined by `,`.
pub open spec fn topics_text(ts: Seq<Seq<char>>) -> Seq<char>
    decreases ts.len(),
{
    if ts.len() == 0 {
        Seq::empty()
    } else if ts.len() == 1 {
        json_quoted(ts[0])
    } else {
        topics_text(ts.drop_last()) + seq![','] + json_quoted(ts.last())
    }
}

/// The subscription frame: `{"args":[topics],"op":"subscribe","req_id":"1"}`.
pub open spec fn subscribe_frame_text(ts: Seq<Seq<char>>) -> Seq<char> {
    "{\"args\":["@ + topics_text(ts) + "],\"op\":\"subscribe\",\"req_id\":\"1\"}"@
}

/// The heartbeat frame.
pub open spec fn ping_frame_text() -> Seq<char> {
    "{\"op\":\"ping\",\"req_id\":\"100001\"}"@
}

/// Builds the authentication frame for credentials at time `now_ms`.
pub fn auth_frame_at(creds: &Credentials, now_ms: u64) -> (r: String)
    ensures
        r@ == auth_frame(creds.api_key@, creds.api_secret@, now_ms),
{
    let expires: u64 = if now_ms <= u64::MAX - AUTH_VALIDITY_MS { now_ms + AUTH_VALIDITY_MS } else { u64::MAX };
    let mut msg = "GET/realtime".to_owned();
    push_decimal(&mut msg, expires);
    let sig = sign_message(creds.api_secret.as_str(), msg.as_str());
    let expiry_text = u64_to_decimal(expires);
    let mut out = "{\"req_id\":null,\"op\":\"auth\",\"args\":[".to_owned();
    push_quoted(&mut out, creds.api_key.as_str());
    push_char(&mut out, ',');
    push_quoted(&mut out, expiry_text.as_str());
    push_char(&mut out, ',');
    push_quoted(&mut out, sig.as_str());
    out.append("]}");
    assert(out@ =~= auth_frame(creds.api_key@, creds.api_secret@, now_ms));
    out
}

/// Builds the subscription frame for the topics, in order.
pub fn subscribe_frame(topics: &Vec<String>) -> (r: String)
    ensures
        r@ == subscribe_frame_text(topics@.map_values(|t: String| t@)),
{
    let ghost ts = topics@.map_values(|t: String| t@);
    let mut list = String::new();
    let mut i: usize = 0;
    while i < topics.len()
        invariant
            ts == topics@.map_values(|t: String| t@),
            i <= topics@.len(),
            list@ == topics_text(ts.take(i as int)),
        decreases topics@.len() - i,
    {
        if i > 0 {
            push_char(&mut list, ',');
        }
        push_quoted(&mut list, topics[i].as_str());
        assert(ts.take(i + 1).drop_last() =~= ts.take(i as int));
        i = i + 1;
    }
    assert(ts.take(topics@.len() as int) =~= ts);
    let mut out = "{\"args\":[".to_owned();
    out.append(list.as_str());
    out.append("],\"op\":\"subscribe\",\"req_id\":\"1\"}");
    out
}

/// Builds the heartbeat frame.
pub fn ping_frame() -> (r: String)
    ensures
        r@ == ping_frame_text(),
{
    "{\"op\":\"ping\",\"req_id\":\"100001\"}".to_owned()
}

/// Where a session stands.
#[derive(Clone, Copy, PartialEq, Eq, Structural, Debug)]
pub enum ConnectionState {
    Disconnected,
    Connecting,
    Authenticating,
    Subscribing,
    Streaming,
    Closed,
}

/// What happened on the connection, as the driver of the session reports it.
pub enum SessionEvent {
    /// The caller asks the session to connect.
    Start,
    /// The dial succeeded; the wall clock reads `now_ms`.
    Dialed { now_ms: u64 },
    /// The last frame handed out was written.
    Sent,
    /// Writing the last frame handed out failed. While streaming this is a
    /// failed heartbeat, which is recorded and does not end the session.
    SendFailed,
    /// A text frame arrived.
    Text(String),
    /// A binary, ping or pong control frame arrived.
    Control,
    /// The heartbeat interval elapsed.
    HeartbeatDue,
    /// The peer closed the connection.
    CloseFrame,
    /// Dialing or reading failed.
    SocketError,
    /// The caller shuts the session down.
    Shutdown,
}

/// What the driver must do next.
pub enum SessionAction {
    /// Dial the streaming endpoint.
    Dial,
    /// Write this frame, then report `Sent` or `SendFailed`.
    Send(String),
    /// Start the heartbeat timer and the receive loop.
    StartStreaming,
    /// Hand this message to the consumer.
    Deliver(BybitWsUpdate),
    /// Nothing to do; a frame, if any, is dropped.
    Ignore,
    /// Stop the heartbeat and close the socket; the session is over.
    Stop,
}

/// The state after an event, for a session that authenticates (`private`)
/// or not. `Closed` is terminal; events that do not belong to a state leave
/// it unchanged.
pub open spec fn next_state(s: ConnectionState, private: bool, e: SessionEvent) -> ConnectionState {
    match s {
        ConnectionState::Closed => ConnectionState::Closed,
        _ => match e {
            SessionEvent::Shutdown | SessionEvent::SocketError | SessionEvent::CloseFrame => ConnectionState::Closed,
            SessionEvent::Start => if s == ConnectionState::Disconnected { ConnectionState::Connecting } else { s },
            SessionEvent::Dialed { .. } => if s == ConnectionState::Connecting {
                if private { ConnectionState::Authenticating } else { ConnectionState::Subscribing }
            } else {
                s
            },
            SessionEvent::Sent => if s == ConnectionState::Authenticating {
                ConnectionState::Subscribing
            } else if s == ConnectionState::Subscribing {
                ConnectionState::Streaming
            } else {
                s
            },
            SessionEvent::SendFailed => if s == ConnectionState::Authenticating || s == ConnectionState::Subscribing {
                ConnectionState::Closed
            } else {
                s
            },
            SessionEvent::Text(t) => if s == ConnectionState::Streaming && json_parse(t@) is None {
                ConnectionState::Closed
            } else {
                s
            },
            _ => s,
        },
    }
}

/// The action of a session in state `s` on event `e`.
pub open spec fn action_of(
    s: ConnectionState,
    private: bool,
    creds: (Seq<char>, Seq<char>),
    topics: Seq<Seq<char>>,
    e: SessionEvent,
    a: SessionAction,
) -> bool {
    match s {
        ConnectionState::Closed => a is Ignore,
        _ => match e {
            SessionEvent::Shutdown | SessionEvent::SocketError | SessionEvent::CloseFrame => a is Stop,
            SessionEvent::Start => if s == ConnectionState::Disconnected { a is Dial } else { a is Ignore },
            SessionEvent::Dialed { now_ms } => if s == ConnectionState::Connecting {
                if private {
                    a matches SessionAction::Send(f) && f@ == auth_frame(creds.0, creds.1, now_ms)
                } else {
                    a matches SessionAction::Send(f) && f@ == subscribe_frame_text(topics)
                }
            } else {
                a is Ignore
            },
            SessionEvent::Sent => if s == ConnectionState::Authenticating {
                a matches SessionAction::Send(f) && f@ == subscribe_frame_text(topics)
            } else if s == ConnectionState::Subscribing {
                a is StartStreaming
            } else {
                a is Ignore
            },
            SessionEvent::SendFailed => if s == ConnectionState::Authenticating || s == ConnectionState::Subscribing {
                a is Stop
            } else {
                a is Ignore
            },
            SessionEvent::Text(t) => if s == ConnectionState::Streaming {
                match json_parse(t@) {
                    None => a is Stop,
                    Some(j) => match message_kind(j) {
                        MessageKind::Unrecognized => a is Ignore,
                        _ => a matches SessionAction::Deliver(u) && classified_as(j, Some(u)),
                    },
                }
            } else {
                a is Ignore
            },
            SessionEvent::HeartbeatDue => if s == ConnectionState::Streaming {
                a matches SessionAction::Send(f) && f@ == ping_frame_text()
            } else {
                a is Ignore
            },
            SessionEvent::Control => a is Ignore,
        },
    }
}

/// One streaming session over one connection.
pub struct WsSession {
    pub creds: Credentials,
    pub topics: Vec<String>,
    pub private: bool,
    pub state: ConnectionState,
}

impl WsSession {
    /// The topics as texts.
    pub open spec fn topic_texts(&self) -> Seq<Seq<char>> {
        self.topics@.map_values(|t: String| t@)
    }

    /// A session that has not dialed yet.
    pub fn new(creds: Credentials, topics: Vec<String>, private: bool) -> (r: WsSession)
        ensures
            r.state == ConnectionState::Disconnected,
            r.creds == creds,
            r.topics == topics,
            r.private == private,
    {
        WsSession { creds, topics, private, state: ConnectionState::Disconnected }
    }

    /// Takes one event, moves to the next state and says what to do.
    pub fn on_event(&mut self, e: SessionEvent) -> (a: SessionAction)
        ensures
            final(self).state == next_state(old(self).state, old(self).private, e),
            action_of(
                old(self).state,
                old(self).private,
                (old(self).creds.api_key@, old(self).creds.api_secret@),
                old(self).topic_texts(),
                e,
                a,
            ),
            final(self).creds == old(self).creds,
            final(self).topics == old(self).topics,
            final(self).private == old(self).private,
    {
        let s = self.state;
        if s == ConnectionState::Closed {
            return SessionAction::Ignore;
        }
        match e {
            SessionEvent::Shutdown | SessionEvent::SocketError | SessionEvent::CloseFrame => {
                self.state = ConnectionState::Closed;
                SessionAction::Stop
            },
            SessionEvent::Start => {
                if s == ConnectionState::Disconnected {
                    self.state = ConnectionState::Connecting;
                    SessionAction::Dial
                } else {
                    SessionAction::Ignore
                }
            },
            SessionEvent::Dialed { now_ms } => {
                if s == ConnectionState::Connecting {
                    if self.private {
                        self.state = ConnectionState::Authenticating;
                        SessionAction::Send(auth_frame_at(&self.creds, now_ms))
                    } else {
                        self.state = ConnectionState::Subscribing;
                        SessionAction::Send(subscribe_frame(&self.topics))
                    }
                } else {
                    SessionAction::Ignore
                }
            },
            SessionEvent::Sent => {
                if s == ConnectionState::Authenticating {
                    self.state = ConnectionState::Subscribing;
                    SessionAction::Send(subscribe_frame(&self.topics))
                } else if s == ConnectionState::Subscribing {
                    self.state = ConnectionState::Streaming;
                    SessionAction::StartStreaming
                } else {
                    SessionAction::Ignore
                }
            },
            SessionEvent::SendFailed => {
                if s == ConnectionState::Authenticating || s == ConnectionState::Subscribing {
                    self.state = ConnectionState::Closed;
                    SessionAction::Stop
                } else {
                    SessionAction::Ignore
                }
            },
            SessionEvent::Text(t) => {
                if s == ConnectionState::Streaming {
                    match classify_frame(t.as_str()) {
                        Err(_) => {
                            self.state = ConnectionState::Closed;
                            SessionAction::Stop
                        },
                        Ok(Some(u)) => SessionAction::Deliver(u),
                        Ok(None) => SessionAction::Ignore,
                    }
                } else {
                    SessionAction::Ignore
                }
            },
            SessionEvent::HeartbeatDue => {
                if s == ConnectionState::Streaming {
                    SessionAction::Send(ping_frame())
                } else {
                    SessionAction::Ignore
                }
            },
            SessionEvent::Control => SessionAction::Ignore,
        }
    }
}

/// The heartbeat writes only while streaming, and a failed heartbeat write
/// leaves a streaming session open.
pub proof fn lemma_heartbeat(
    s: ConnectionState,
    private: bool,
    creds: (Seq<char>, Seq<char>),
    topics: Seq<Seq<char>>,
    a: SessionAction,
)
    ensures
        s != ConnectionState::Streaming && action_of(s, private, creds, topics, SessionEvent::HeartbeatDue, a)
            ==> a is Ignore,
        next_state(ConnectionState::Streaming, private, SessionEvent::SendFailed) == ConnectionState::Streaming,
        action_of(ConnectionState::Streaming, private, creds, topics, SessionEvent::SendFailed, a) ==> a is Ignore,
{
}

} // verus!
