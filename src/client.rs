//! The transport engine: one long-polling session with the server, driven step
//! by step by whoever performs the HTTP requests.
//!
//! Connecting is a sequence of steps, each taking the server's last answer and
//! saying what to send next: `connect` (GET the handshake URL),
//! `accept_handshake` (POST the namespace connect), `namespace_acknowledged`,
//! `send_auth`, `accept_auth_response`, then `establish`. Once
//! established, emitted frames wait in a bounded FIFO that a sender drains
//! with `next_outbound`, and poll responses become deliveries via `receive`.

use vstd::prelude::*;
use crate::clock::now_millis;
use crate::json::{JsonValue, print_json, json_print, opt_views};
use crate::frame::{
    Endpoint, url_parts, parse_url, endpoint_of, base_url_of, socket_path_of,
    handshake_url_of, session_url_of, parse_handshake, handshake_of, event_frame, encode_event,
    namespace_connect_frame, is_namespace_ack, decode_event, event_of, events_of, batch_frames, is_keepalive,
    lemma_keepalive_no_event,
    text_views, ping_frame,
};
use crate::events::{
    AuthPayload, AuthSuccessPayload, AuthErrorPayload, ServerConfigPayload, auth_success_fields, auth_error_fields, server_config_view, ScreenshotPayload, ScreenFramePayload, ActivityLogEntry, ActivityLogPayload,
    KeystrokeEntry, KeystrokesPayload, ClipboardPayload, CommandResponsePayload, TerminalOutputPayload,
    FileTransferProgressPayload, FileContentPayload, DirectoryEntry, DirectoryListingPayload, auth_json,
    screenshot_json, screen_frame_json, activity_log_json, keystrokes_json, clipboard_json, command_response_json,
    terminal_output_json, progress_json, file_content_json, directory_listing_json,
};
use crate::events::outgoing;
use crate::registry::{Registry, EventKind, Delivery, kind_of_name, decodes, decoded_from, event_kind};
use crate::text::{chars_of, string_of, push_str, same_text, has_prefix};

verus! {

/// The agent's version, reported when authenticating.
pub const AGENT_VERSION: &'static str = "0.1.0";

/// How many frames may wait to be sent.
pub const OUTBOUND_CAPACITY: usize = 100;

/// Failures of the transport.
#[derive(Debug)]
pub enum SocketError {
    /// No usable server URL.
    Config(String),
    /// An HTTP round trip failed.
    Connection(String),
    /// The server's open packet was missing or malformed.
    Handshake(String),
    /// There is no session to send on.
    NotConnected,
    /// A payload could not be encoded or decoded.
    Serialization(String),
    /// A frame could not be handed to the sender.
    Emit(String),
    /// The server refused the agent's credentials.
    AuthFailed(String),
}

impl SocketError {
    /// A human-readable description.
    pub fn message(&self) -> (r: String)
        ensures
            r@ == match self {
                SocketError::Config(m) => "Configuration error: "@ + m@,
                SocketError::Connection(m) => "Connection error: "@ + m@,
                SocketError::Handshake(m) => "Handshake error: "@ + m@,
                SocketError::NotConnected => "Not connected to server"@,
                SocketError::Serialization(m) => "Serialization error: "@ + m@,
                SocketError::Emit(m) => "Emit error: "@ + m@,
                SocketError::AuthFailed(m) => "Authentication failed: "@ + m@,
            },
    {
        let mut v: Vec<char> = Vec::new();
        match self {
            SocketError::Config(m) => {
                push_str(&mut v, "Configuration error: ");
                push_str(&mut v, m.as_str());
            },
            SocketError::Connection(m) => {
                push_str(&mut v, "Connection error: ");
                push_str(&mut v, m.as_str());
            },
            SocketError::Handshake(m) => {
                push_str(&mut v, "Handshake error: ");
                push_str(&mut v, m.as_str());
            },
            SocketError::NotConnected => push_str(&mut v, "Not connected to server"),
            SocketError::Serialization(m) => {
                push_str(&mut v, "Serialization error: ");
                push_str(&mut v, m.as_str());
            },
            SocketError::Emit(m) => {
                push_str(&mut v, "Emit error: ");
                push_str(&mut v, m.as_str());
            },
            SocketError::AuthFailed(m) => {
                push_str(&mut v, "Authentication failed: ");
                push_str(&mut v, m.as_str());
            },
        }
        assert(v@ =~= match self {
            SocketError::Config(m) => "Configuration error: "@ + m@,
            SocketError::Connection(m) => "Connection error: "@ + m@,
            SocketError::Handshake(m) => "Handshake error: "@ + m@,
            SocketError::NotConnected => "Not connected to server"@,
            SocketError::Serialization(m) => "Serialization error: "@ + m@,
            SocketError::Emit(m) => "Emit error: "@ + m@,
            SocketError::AuthFailed(m) => "Authentication failed: "@ + m@,
        });
        string_of(&v)
    }
}

/// The live session: its id and keep-alive intervals in milliseconds.
#[derive(Debug)]
pub struct Session {
    pub id: String,
    pub ping_interval: u64,
    pub ping_timeout: u64,
}

/// A frame to POST, and where.
#[derive(Debug)]
pub struct Post {
    pub url: String,
    pub frame: String,
}

/// Where an emitted frame went.
#[derive(Debug)]
pub enum EmitRoute {
    /// Into the outbound queue.
    Queued,
    /// Nowhere yet: before establishment the caller POSTs it on the session itself.
    Direct(Post),
}

/// An accepted authentication: the server's configuration (empty when it sent
/// none) goes to `subscribers`.
#[derive(Debug)]
pub struct AuthAccepted {
    pub computer_id: String,
    pub config: ServerConfigPayload,
    pub subscribers: Vec<u64>,
}

/// What the answer to `auth` said.
#[derive(Debug)]
pub enum AuthOutcome {
    Accepted(AuthAccepted),
    /// Neither a well-formed acceptance nor a refusal; the connection goes on.
    Unanswered,
}

/// The transport engine's state.
#[derive(Debug)]
pub struct SocketClient {
    pub connected: bool,
    pub endpoint: Option<Endpoint>,
    pub session: Option<Session>,
    pub computer_id: Option<String>,
    pub outbound: Option<Vec<String>>,
    pub registry: Registry,
    /// Which session the background tasks belong to; every `connect` moves it on.
    pub epoch: u64,
}

/// The epoch after `e`.
pub open spec fn next_epoch(e: u64) -> u64 {
    if e < u64::MAX { (e + 1) as u64 } else { 0 }
}

/// Whether a background task started for epoch `e` goes on.
pub open spec fn task_running(c: SocketClient, e: u64) -> bool {
    c.connected && c.epoch == e
}

pub open spec fn session_view(s: Session) -> (Seq<char>, u64, u64) {
    (s.id@, s.ping_interval, s.ping_timeout)
}

/// `pingInterval - 5000`, or zero for shorter intervals.
pub open spec fn ping_threshold(interval: u64) -> u64 {
    if interval >= 5000 { (interval - 5000) as u64 } else { 0 }
}

pub open spec fn session_url_spec(e: Endpoint, s: Session) -> Seq<char> {
    session_url_of(e.base_url@, e.socket_path@, s.id@)
}

impl SocketClient {
    pub open spec fn wf(&self) -> bool {
        &&& self.registry.wf()
        &&& self.outbound is Some ==> self.session is Some
        &&& self.session is Some ==> self.endpoint is Some
        &&& self.connected ==> self.outbound is Some
    }

    /// The frames waiting in the outbound queue, oldest first; `None` before establishment.
    pub open spec fn queue(&self) -> Option<Seq<Seq<char>>> {
        match self.outbound {
            Some(q) => Some(text_views(q@)),
            None => None,
        }
    }

    /// A disconnected engine with no subscribers.
    pub fn new() -> (r: SocketClient)
        ensures
            r.wf(),
            !r.connected,
            r.session is None,
            r.outbound is None,
            forall|k: EventKind| (#[trigger] r.registry.subs(k)).len() == 0,
    {
        SocketClient {
            connected: false,
            endpoint: None,
            session: None,
            computer_id: None,
            outbound: None,
            registry: Registry::new(),
            epoch: 0,
        }
    }

    /// First step of connecting: checks the server URL, drops any previous session,
    /// and returns the handshake URL to GET.
    pub fn connect(&mut self, server_url: &str) -> (r: Result<String, SocketError>)
        requires
            old(self).wf(),
        ensures
            final(self).wf(),
            final(self).registry == old(self).registry,
            server_url@.len() == 0 ==> r is Err && r->Err_0 is Config,
            r is Err ==> {
                &&& final(self).connected == old(self).connected
                &&& final(self).session == old(self).session
                &&& final(self).outbound == old(self).outbound
                &&& final(self).endpoint == old(self).endpoint
                &&& final(self).epoch == old(self).epoch
            },
            server_url@.len() > 0 ==> match url_parts(server_url@) {
                Ok(p) => {
                    &&& r is Ok
                    &&& r->Ok_0@ == handshake_url_of(base_url_of(p), socket_path_of(p.path@))
                    &&& final(self).endpoint is Some
                    &&& final(self).endpoint->0.base_url@ == base_url_of(p)
                    &&& final(self).endpoint->0.socket_path@ == socket_path_of(p.path@)
                    &&& !final(self).connected
                    &&& final(self).session is None
                    &&& final(self).outbound is None
                    &&& final(self).epoch == next_epoch(old(self).epoch)
                },
                Err(m) => r is Err && r->Err_0 is Config && r->Err_0->Config_0@ == "Invalid URL: "@ + m,
            },
    {
        if chars_of(server_url).len() == 0 {
            return Err(SocketError::Config(string_of(&chars_of("No server URL configured"))));
        }
        match parse_url(server_url) {
            Ok(p) => {
                let e = endpoint_of(&p);
                let url = e.handshake_url();
                self.connected = false;
                self.session = None;
                self.outbound = None;
                self.endpoint = Some(e);
                self.epoch = if self.epoch < u64::MAX { self.epoch + 1 } else { 0 };
                Ok(url)
            },
            Err(m) => {
                let mut v = chars_of("Invalid URL: ");
                push_str(&mut v, m.as_str());
                Err(SocketError::Config(string_of(&v)))
            },
        }
    }

    /// Second step: reads the open packet, keeps the session it grants, and returns
    /// the session URL with the namespace-connect frame to POST there.
    pub fn accept_handshake(&mut self, text: &str) -> (r: Result<Post, SocketError>)
        requires
            old(self).wf(),
            old(self).endpoint is Some,
            !old(self).connected,
            old(self).outbound is None,
        ensures
            final(self).wf(),
            final(self).registry == old(self).registry,
            final(self).epoch == old(self).epoch,
            final(self).endpoint == old(self).endpoint,
            !final(self).connected,
            final(self).outbound is None,
            match handshake_of(text@) {
                Some(h) => {
                    &&& r is Ok
                    &&& final(self).session is Some
                    &&& session_view(final(self).session->0) == h
                    &&& r->Ok_0.url@ == session_url_spec(final(self).endpoint->0, final(self).session->0)
                    &&& r->Ok_0.frame@ == "40/agent,"@
                },
                None => r is Err && r->Err_0 is Handshake && final(self).session == old(self).session,
            },
    {
        match parse_handshake(text) {
            Some(h) => {
                let url = match &self.endpoint {
                    Some(e) => e.session_url(h.sid.as_str()),
                    None => return Err(SocketError::NotConnected),
                };
                self.session = Some(Session { id: h.sid, ping_interval: h.ping_interval, ping_timeout: h.ping_timeout });
                Ok(Post { url, frame: namespace_connect_frame() })
            },
            None => {
                let mut v = chars_of("expected an open packet, got: ");
                push_str(&mut v, text);
                Err(SocketError::Handshake(string_of(&v)))
            },
        }
    }

    /// Whether the reply to the namespace connect acknowledges `/agent`; a
    /// mismatch is tolerated.
    pub fn namespace_acknowledged(resp: &str) -> (r: bool)
        ensures
            r == has_prefix(resp@, "40/agent,"@),
    {
        is_namespace_ack(resp)
    }

    /// Third step: reads the server's answer to `auth`. An acceptance records the
    /// computer id; a refusal fails with its message.
    pub fn accept_auth_response(&mut self, text: &str) -> (r: Result<AuthOutcome, SocketError>)
        requires
            old(self).wf(),
        ensures
            final(self).wf(),
            final(self).registry == old(self).registry,
            final(self).epoch == old(self).epoch,
            final(self).connected == old(self).connected,
            final(self).session == old(self).session,
            final(self).endpoint == old(self).endpoint,
            final(self).outbound == old(self).outbound,
            match event_of(text@) {
                Some((n, d)) => if n == "auth_success"@ && auth_success_fields(d) is Some {
                    &&& r is Ok
                    &&& r->Ok_0 is Accepted
                    &&& r->Ok_0->Accepted_0.computer_id@ == accepted_id(d)
                    &&& match accepted_config(d) {
                        Some(f) => server_config_view(r->Ok_0->Accepted_0.config) == f,
                        None => server_config_view(r->Ok_0->Accepted_0.config) == (None::<int>, None::<int>, None::<int>),
                    }
                    &&& r->Ok_0->Accepted_0.subscribers@ == old(self).registry.subs(EventKind::AuthSuccess)
                    &&& opt_views(final(self).computer_id) == Some(accepted_id(d))
                } else if n == "auth_error"@ && auth_error_fields(d) is Some {
                    &&& r is Err
                    &&& r->Err_0 is AuthFailed
                    &&& r->Err_0->AuthFailed_0@ == auth_error_fields(d)->0
                    &&& final(self).computer_id == old(self).computer_id
                } else {
                    r is Ok && r->Ok_0 is Unanswered && final(self).computer_id == old(self).computer_id
                },
                None => r is Ok && r->Ok_0 is Unanswered && final(self).computer_id == old(self).computer_id,
            },
    {
        proof {
            reveal_strlit("auth_success");
            reveal_strlit("auth_error");
            assert("auth_success"@.len() != "auth_error"@.len());
        }
        let (name, data) = match decode_event(text) {
            Some(e) => e,
            None => return Ok(AuthOutcome::Unanswered),
        };
        if same_text(name.as_str(), "auth_success") {
            match AuthSuccessPayload::from_json(&data) {
                Some(p) => {
                    self.computer_id = Some(p.computer_id.clone());
                    let config = match p.config {
                        Some(c) => c,
                        None => ServerConfigPayload::default(),
                    };
                    let subscribers = self.registry.subscribers(EventKind::AuthSuccess);
                    Ok(AuthOutcome::Accepted(AuthAccepted { computer_id: p.computer_id, config, subscribers }))
                },
                None => Ok(AuthOutcome::Unanswered),
            }
        } else if same_text(name.as_str(), "auth_error") {
            match AuthErrorPayload::from_json(&data) {
                Some(p) => Err(SocketError::AuthFailed(p.message)),
                None => Ok(AuthOutcome::Unanswered),
            }
        } else {
            Ok(AuthOutcome::Unanswered)
        }
    }

    /// Last step: the session is live, with an empty outbound queue.
    pub fn establish(&mut self)
        requires
            old(self).wf(),
            old(self).session is Some,
        ensures
            final(self).wf(),
            final(self).connected,
            final(self).queue() == Some(Seq::<Seq<char>>::empty()),
            final(self).session == old(self).session,
            final(self).endpoint == old(self).endpoint,
            final(self).registry == old(self).registry,
            final(self).epoch == old(self).epoch,
            final(self).computer_id == old(self).computer_id,
    {
        self.outbound = Some(Vec::new());
        self.connected = true;
        assert(final(self).queue()->0 =~= Seq::<Seq<char>>::empty());
    }

    /// Ends the session; background work sees the flag and stops. The server is not told.
    pub fn disconnect(&mut self)
        requires
            old(self).wf(),
        ensures
            final(self).wf(),
            !final(self).connected,
            final(self).session is None,
            final(self).outbound is None,
            final(self).registry == old(self).registry,
            final(self).epoch == old(self).epoch,
            final(self).endpoint == old(self).endpoint,
    {
        self.connected = false;
        self.session = None;
        self.outbound = None;
    }

    pub fn is_connected(&self) -> (r: bool)
        ensures
            r == self.connected,
    {
        self.connected
    }

    /// Sends event `event` with JSON `payload_json`: into the outbound queue once
    /// established (failing when it is full), else back to the caller to POST on the
    /// session, else `NotConnected`.
    pub fn emit(&mut self, event: &str, payload_json: &str) -> (r: Result<EmitRoute, SocketError>)
        requires
            old(self).wf(),
        ensures
            final(self).wf(),
            final(self).connected == old(self).connected,
            final(self).session == old(self).session,
            final(self).endpoint == old(self).endpoint,
            final(self).registry == old(self).registry,
            final(self).epoch == old(self).epoch,
            final(self).computer_id == old(self).computer_id,
            emitted(*old(self), *final(self), event_frame(event@, payload_json@), r),
    {
        let frame = encode_event(event, payload_json);
        self.route(frame)
    }

    fn route(&mut self, frame: String) -> (r: Result<EmitRoute, SocketError>)
        requires
            old(self).wf(),
        ensures
            final(self).wf(),
            final(self).connected == old(self).connected,
            final(self).session == old(self).session,
            final(self).endpoint == old(self).endpoint,
            final(self).registry == old(self).registry,
            final(self).epoch == old(self).epoch,
            final(self).computer_id == old(self).computer_id,
            emitted(*old(self), *final(self), frame@, r),
    {
        match &mut self.outbound {
            Some(q) => {
                if q.len() >= OUTBOUND_CAPACITY {
                    return Err(SocketError::Emit(string_of(&chars_of("outbound queue is full"))));
                }
                let ghost before = q@;
                q.push(frame);
                assert(text_views(q@) =~= text_views(before).push(frame@));
                Ok(EmitRoute::Queued)
            },
            None => match (&self.session, &self.endpoint) {
                (Some(s), Some(e)) => Ok(EmitRoute::Direct(Post { url: e.session_url(s.id.as_str()), frame })),
                _ => Err(SocketError::NotConnected),
            },
        }
    }

    /// Whether a background task started for session `epoch` goes on: only while
    /// connected, and only for the current session.
    pub fn task_active(&self, epoch: u64) -> (r: bool)
        ensures
            r == task_running(*self, epoch),
    {
        self.connected && self.epoch == epoch
    }

    /// The next frame for the sender of session `epoch`, oldest first, with the URL
    /// to POST it to; `None` once that session is down or superseded, or nothing waits.
    pub fn next_outbound(&mut self, epoch: u64) -> (r: Option<Post>)
        requires
            old(self).wf(),
        ensures
            final(self).wf(),
            final(self).connected == old(self).connected,
            final(self).session == old(self).session,
            final(self).endpoint == old(self).endpoint,
            final(self).registry == old(self).registry,
            final(self).epoch == old(self).epoch,
            final(self).computer_id == old(self).computer_id,
            !task_running(*old(self), epoch) ==> r is None && final(self).queue() == old(self).queue(),
            task_running(*old(self), epoch) ==> match r {
                Some(p) => popped(*old(self), *final(self), p.frame@)
                    && p.url@ == session_url_spec(old(self).endpoint->0, old(self).session->0),
                None => old(self).queue()->0.len() == 0 && final(self).queue() == old(self).queue(),
            },
    {
        if !self.task_active(epoch) {
            return None;
        }
        let url = match (&self.session, &self.endpoint) {
            (Some(s), Some(e)) => e.session_url(s.id.as_str()),
            _ => return None,
        };
        match &mut self.outbound {
            Some(q) => {
                if q.len() == 0 {
                    return None;
                }
                let ghost before = q@;
                let frame = q.remove(0);
                assert(text_views(q@) =~= text_views(before).drop_first());
                Some(Post { url, frame })
            },
            None => None,
        }
    }

    /// The URL to poll or post on, while a session exists.
    pub fn session_url(&self) -> (r: Option<String>)
        requires
            self.wf(),
        ensures
            match r {
                Some(u) => self.session is Some && u@ == session_url_spec(self.endpoint->0, self.session->0),
                None => self.session is None,
            },
    {
        match (&self.session, &self.endpoint) {
            (Some(s), Some(e)) => Some(e.session_url(s.id.as_str())),
            _ => None,
        }
    }

    /// Whether the poller should send a ping: more than `pingInterval - 5000` ms
    /// (saturating at zero) have passed since the last one.
    pub fn ping_due(&self, elapsed_ms: u64) -> (r: bool)
        ensures
            r == (self.session is Some && elapsed_ms > ping_threshold(self.session->0.ping_interval)),
    {
        match &self.session {
            Some(s) => elapsed_ms > s.ping_interval.saturating_sub(5000),
            None => false,
        }
    }

    /// The ping packet the poller sends.
    pub fn ping_frame() -> (r: String)
        ensures
            r@ == "2"@,
    {
        ping_frame()
    }

    /// Decodes a poll response into deliveries: its event frames in batch order,
    /// each paired with the current subscribers of its kind; keep-alive frames and
    /// events that do not decode are dropped.
    pub fn receive(&self, body: &str) -> (r: Vec<Delivery>)
        requires
            self.wf(),
        ensures
            delivered(dispatchable(events_of(batch_frames(body@))), r@, self.registry),
    {
        let frames = crate::frame::split_batch(body);
        let ghost fs = batch_frames(body@);
        let mut out: Vec<Delivery> = Vec::new();
        let mut i: usize = 0;
        assert(fs.subrange(0, 0) =~= Seq::<Seq<char>>::empty());
        while i < frames.len()
            invariant
                self.wf(),
                text_views(frames@) == fs,
                0 <= i <= frames.len(),
                delivered(dispatchable(events_of(fs.subrange(0, i as int))), out@, self.registry),
            decreases frames.len() - i,
        {
            let ghost before = out@;
            let ghost prev = events_of(fs.subrange(0, i as int));
            assert(fs.subrange(0, i + 1).drop_last() =~= fs.subrange(0, i as int));
            assert(fs.subrange(0, i + 1).last() == frames@[i as int]@);
            if is_keepalive(frames[i].as_str()) {
                proof {
                    lemma_keepalive_no_event(frames@[i as int]@);
                }
                assert(events_of(fs.subrange(0, i + 1)) == prev);
                i = i + 1;
                continue;
            }
            match decode_event(frames[i].as_str()) {
                Some((name, data)) => {
                    let ghost e = (name@, data);
                    assert(events_of(fs.subrange(0, i + 1)) == prev.push(e));
                    assert(prev.push(e).drop_last() =~= prev);
                    match self.registry.dispatch(name.as_str(), data) {
                        Some(d) => {
                            out.push(d);
                            assert(dispatchable(prev.push(e)) == dispatchable(prev).push(e));
                            assert(out@.drop_last() =~= before);
                        },
                        None => {
                            assert(dispatchable(prev.push(e)) == dispatchable(prev));
                        },
                    }
                },
                None => {
                    assert(events_of(fs.subrange(0, i + 1)) == prev);
                },
            }
            i = i + 1;
        }
        assert(fs.subrange(0, frames.len() as int) =~= fs);
        out
    }

    /// Registers `id` as the only subscriber of `k`.
    pub fn register_single(&mut self, k: EventKind, id: u64)
        requires
            old(self).wf(),
        ensures
            final(self).wf(),
            final(self).registry.subs(k) == seq![id],
            forall|o: EventKind| o != k ==> final(self).registry.subs(o) == old(self).registry.subs(o),
            final(self).connected == old(self).connected,
            final(self).session == old(self).session,
            final(self).outbound == old(self).outbound,
            final(self).epoch == old(self).epoch,
    {
        self.registry.register_single(k, id);
    }

    /// Registers `id` after the current subscribers of `k`.
    pub fn register_multi(&mut self, k: EventKind, id: u64)
        requires
            old(self).wf(),
        ensures
            final(self).wf(),
            final(self).registry.subs(k) == old(self).registry.subs(k).push(id),
            forall|o: EventKind| o != k ==> final(self).registry.subs(o) == old(self).registry.subs(o),
            final(self).connected == old(self).connected,
            final(self).session == old(self).session,
            final(self).outbound == old(self).outbound,
            final(self).epoch == old(self).epoch,
    {
        self.registry.register_multi(k, id);
    }

    /// The subscribers of `k`, in order.
    pub fn subscribers(&self, k: EventKind) -> (r: Vec<u64>)
        requires
            self.wf(),
        ensures
            r@ == self.registry.subs(k),
    {
        self.registry.subscribers(k)
    }

    /// Emits `v`, printed as JSON, as event `event`.
    pub fn emit_json(&mut self, event: &str, v: &JsonValue) -> (r: Result<EmitRoute, SocketError>)
        requires
            old(self).wf(),
        ensures
            final(self).wf(),
            unchanged_but_queue(*old(self), *final(self)),
            emitted(*old(self), *final(self), event_frame(event@, json_print(*v)), r),
    {
        let text = print_json(v);
        self.emit(event, text.as_str())
    }

    /// Emits the `auth` event; before establishment it comes back to be POSTed directly.
    pub fn send_auth(&mut self, payload: &AuthPayload) -> (r: Result<EmitRoute, SocketError>)
        requires
            old(self).wf(),
        ensures
            final(self).wf(),
            unchanged_but_queue(*old(self), *final(self)),
            exists|v: JsonValue| auth_json(v, *payload) && emitted(*old(self), *final(self), event_frame("auth"@, json_print(v)), r),
    {
        let v = payload.to_json();
        self.emit_json(outgoing::AUTH, &v)
    }

    pub fn on_auth_success(&mut self, id: u64)
        requires
            old(self).wf(),
        ensures
            final(self).wf(),
            registered_single(*old(self), *final(self), EventKind::AuthSuccess, id),
    {
        self.register_single(EventKind::AuthSuccess, id);
    }

    pub fn on_auth_error(&mut self, id: u64)
        requires
            old(self).wf(),
        ensures
            final(self).wf(),
            registered_single(*old(self), *final(self), EventKind::AuthError, id),
    {
        self.register_single(EventKind::AuthError, id);
    }

    /// Adds a command subscriber; every command reaches every subscriber.
    pub fn on_command(&mut self, id: u64)
        requires
            old(self).wf(),
        ensures
            final(self).wf(),
            registered_multi(*old(self), *final(self), EventKind::Command, id),
    {
        self.register_multi(EventKind::Command, id);
    }

    pub fn on_start_screen_stream(&mut self, id: u64)
        requires
            old(self).wf(),
        ensures
            final(self).wf(),
            registered_single(*old(self), *final(self), EventKind::StartScreenStream, id),
    {
        self.register_single(EventKind::StartScreenStream, id);
    }

    pub fn on_stop_screen_stream(&mut self, id: u64)
        requires
            old(self).wf(),
        ensures
            final(self).wf(),
            registered_single(*old(self), *final(self), EventKind::StopScreenStream, id),
    {
        self.register_single(EventKind::StopScreenStream, id);
    }

    pub fn on_capture_screenshot(&mut self, id: u64)
        requires
            old(self).wf(),
        ensures
            final(self).wf(),
            registered_single(*old(self), *final(self), EventKind::CaptureScreenshot, id),
    {
        self.register_single(EventKind::CaptureScreenshot, id);
    }

    pub fn on_remote_input(&mut self, id: u64)
        requires
            old(self).wf(),
        ensures
            final(self).wf(),
            registered_single(*old(self), *final(self), EventKind::RemoteInput, id),
    {
        self.register_single(EventKind::RemoteInput, id);
    }

    pub fn on_start_remote_control(&mut self, id: u64)
        requires
            old(self).wf(),
        ensures
            final(self).wf(),
            registered_single(*old(self), *final(self), EventKind::StartRemoteControl, id),
    {
        self.register_single(EventKind::StartRemoteControl, id);
    }

    pub fn on_start_terminal(&mut self, id: u64)
        requires
            old(self).wf(),
        ensures
            final(self).wf(),
            registered_single(*old(self), *final(self), EventKind::StartTerminal, id),
    {
        self.register_single(EventKind::StartTerminal, id);
    }

    pub fn on_terminal_input(&mut self, id: u64)
        requires
            old(self).wf(),
        ensures
            final(self).wf(),
            registered_single(*old(self), *final(self), EventKind::TerminalInput, id),
    {
        self.register_single(EventKind::TerminalInput, id);
    }

    pub fn on_file_transfer(&mut self, id: u64)
        requires
            old(self).wf(),
        ensures
            final(self).wf(),
            registered_single(*old(self), *final(self), EventKind::FileTransfer, id),
    {
        self.register_single(EventKind::FileTransfer, id);
    }

    pub fn on_list_directory(&mut self, id: u64)
        requires
            old(self).wf(),
        ensures
            final(self).wf(),
            registered_single(*old(self), *final(self), EventKind::ListDirectory, id),
    {
        self.register_single(EventKind::ListDirectory, id);
    }

    pub fn send_screenshot(&mut self, image: String, active_window: String) -> (r: Result<EmitRoute, SocketError>)
        requires
            old(self).wf(),
        ensures
            final(self).wf(),
            unchanged_but_queue(*old(self), *final(self)),
            exists|ts: u64, v: JsonValue| screenshot_json(v, (ScreenshotPayload { image, timestamp: ts, active_window }))
                && emitted(*old(self), *final(self), event_frame("screenshot"@, json_print(v)), r),
    {
        let payload = ScreenshotPayload { image, timestamp: now_millis(), active_window };
        let v = payload.to_json();
        self.emit_json(outgoing::SCREENSHOT, &v)
    }

    pub fn send_screen_frame(&mut self, frame: String, monitor_index: u32) -> (r: Result<EmitRoute, SocketError>)
        requires
            old(self).wf(),
        ensures
            final(self).wf(),
            unchanged_but_queue(*old(self), *final(self)),
            exists|ts: u64, v: JsonValue| screen_frame_json(v, (ScreenFramePayload { frame, timestamp: ts, monitor_index }))
                && emitted(*old(self), *final(self), event_frame("screen_frame"@, json_print(v)), r),
    {
        let payload = ScreenFramePayload { frame, timestamp: now_millis(), monitor_index };
        let v = payload.to_json();
        self.emit_json(outgoing::SCREEN_FRAME, &v)
    }

    pub fn send_activity_logs(&mut self, logs: Vec<ActivityLogEntry>) -> (r: Result<EmitRoute, SocketError>)
        requires
            old(self).wf(),
        ensures
            final(self).wf(),
            unchanged_but_queue(*old(self), *final(self)),
            exists|v: JsonValue| activity_log_json(v, (ActivityLogPayload { logs }))
                && emitted(*old(self), *final(self), event_frame("activity_log"@, json_print(v)), r),
    {
        let payload = ActivityLogPayload { logs };
        let v = payload.to_json();
        self.emit_json(outgoing::ACTIVITY_LOG, &v)
    }

    pub fn send_keystrokes(&mut self, strokes: Vec<KeystrokeEntry>) -> (r: Result<EmitRoute, SocketError>)
        requires
            old(self).wf(),
        ensures
            final(self).wf(),
            unchanged_but_queue(*old(self), *final(self)),
            exists|v: JsonValue| keystrokes_json(v, (KeystrokesPayload { strokes }))
                && emitted(*old(self), *final(self), event_frame("keystrokes"@, json_print(v)), r),
    {
        let payload = KeystrokesPayload { strokes };
        let v = payload.to_json();
        self.emit_json(outgoing::KEYSTROKES, &v)
    }

    pub fn send_clipboard(&mut self, content: String, content_type: String) -> (r: Result<EmitRoute, SocketError>)
        requires
            old(self).wf(),
        ensures
            final(self).wf(),
            unchanged_but_queue(*old(self), *final(self)),
            exists|ts: u64, v: JsonValue| clipboard_json(v, (ClipboardPayload { content, content_type, timestamp: ts }))
                && emitted(*old(self), *final(self), event_frame("clipboard"@, json_print(v)), r),
    {
        let payload = ClipboardPayload { content, content_type, timestamp: now_millis() };
        let v = payload.to_json();
        self.emit_json(outgoing::CLIPBOARD, &v)
    }

    /// Reports the outcome of command `command_id`.
    pub fn send_command_response(
        &mut self,
        command_id: String,
        success: bool,
        response: Option<String>,
        error: Option<String>,
    ) -> (r: Result<EmitRoute, SocketError>)
        requires
            old(self).wf(),
        ensures
            final(self).wf(),
            unchanged_but_queue(*old(self), *final(self)),
            exists|v: JsonValue| command_response_json(v, (CommandResponsePayload { command_id, success, response, error }))
                && emitted(*old(self), *final(self), event_frame("command_response"@, json_print(v)), r),
    {
        let payload = CommandResponsePayload { command_id, success, response, error };
        let v = payload.to_json();
        self.emit_json(outgoing::COMMAND_RESPONSE, &v)
    }

    pub fn send_terminal_output(&mut self, session_id: String, output: String) -> (r: Result<EmitRoute, SocketError>)
        requires
            old(self).wf(),
        ensures
            final(self).wf(),
            unchanged_but_queue(*old(self), *final(self)),
            exists|v: JsonValue| terminal_output_json(v, (TerminalOutputPayload { session_id, output }))
                && emitted(*old(self), *final(self), event_frame("terminal_output"@, json_print(v)), r),
    {
        let payload = TerminalOutputPayload { session_id, output };
        let v = payload.to_json();
        self.emit_json(outgoing::TERMINAL_OUTPUT, &v)
    }

    pub fn send_file_transfer_progress(
        &mut self,
        transfer_id: String,
        progress: u32,
        bytes_transferred: u64,
    ) -> (r: Result<EmitRoute, SocketError>)
        requires
            old(self).wf(),
        ensures
            final(self).wf(),
            unchanged_but_queue(*old(self), *final(self)),
            exists|v: JsonValue| progress_json(v, (FileTransferProgressPayload { transfer_id, progress, bytes_transferred }))
                && emitted(*old(self), *final(self), event_frame("file_transfer_progress"@, json_print(v)), r),
    {
        let payload = FileTransferProgressPayload { transfer_id, progress, bytes_transferred };
        let v = payload.to_json();
        self.emit_json(outgoing::FILE_TRANSFER_PROGRESS, &v)
    }

    pub fn send_file_content(
        &mut self,
        transfer_id: String,
        file_name: String,
        file_data: String,
        file_size: u64,
    ) -> (r: Result<EmitRoute, SocketError>)
        requires
            old(self).wf(),
        ensures
            final(self).wf(),
            unchanged_but_queue(*old(self), *final(self)),
            exists|v: JsonValue| file_content_json(v, (FileContentPayload { transfer_id, file_name, file_data, file_size }))
                && emitted(*old(self), *final(self), event_frame("file_content"@, json_print(v)), r),
    {
        let payload = FileContentPayload { transfer_id, file_name, file_data, file_size };
        let v = payload.to_json();
        self.emit_json(outgoing::FILE_CONTENT, &v)
    }

    pub fn send_directory_listing(&mut self, path: String, entries: Vec<DirectoryEntry>) -> (r: Result<EmitRoute, SocketError>)
        requires
            old(self).wf(),
        ensures
            final(self).wf(),
            unchanged_but_queue(*old(self), *final(self)),
            exists|v: JsonValue| directory_listing_json(v, (DirectoryListingPayload { path, entries }))
                && emitted(*old(self), *final(self), event_frame("directory_listing"@, json_print(v)), r),
    {
        let payload = DirectoryListingPayload { path, entries };
        let v = payload.to_json();
        self.emit_json(outgoing::DIRECTORY_LISTING, &v)
    }
}

/// Everything but the outbound queue is as it was.
pub open spec fn unchanged_but_queue(c0: SocketClient, c1: SocketClient) -> bool {
    &&& c1.connected == c0.connected
    &&& c1.session == c0.session
    &&& c1.endpoint == c0.endpoint
    &&& c1.registry == c0.registry
    &&& c1.computer_id == c0.computer_id
    &&& c1.epoch == c0.epoch
}

/// `id` became the only subscriber of `k`; nothing else changed.
pub open spec fn registered_single(c0: SocketClient, c1: SocketClient, k: EventKind, id: u64) -> bool {
    &&& c1.registry.subs(k) == seq![id]
    &&& forall|o: EventKind| o != k ==> c1.registry.subs(o) == c0.registry.subs(o)
    &&& c1.connected == c0.connected
    &&& c1.session == c0.session
    &&& c1.outbound == c0.outbound
    &&& c1.epoch == c0.epoch
}

/// `id` was appended to the subscribers of `k`; nothing else changed.
pub open spec fn registered_multi(c0: SocketClient, c1: SocketClient, k: EventKind, id: u64) -> bool {
    &&& c1.registry.subs(k) == c0.registry.subs(k).push(id)
    &&& forall|o: EventKind| o != k ==> c1.registry.subs(o) == c0.registry.subs(o)
    &&& c1.connected == c0.connected
    &&& c1.session == c0.session
    &&& c1.outbound == c0.outbound
    &&& c1.epoch == c0.epoch
}


/// The computer id of an acceptance that decodes.
pub open spec fn accepted_id(d: JsonValue) -> Seq<char> {
    let (id, _c) = auth_success_fields(d)->0;
    id
}

/// The configuration of an acceptance that decodes, if it carried one.
pub open spec fn accepted_config(d: JsonValue) -> Option<(Option<int>, Option<int>, Option<int>)> {
    let (_id, c) = auth_success_fields(d)->0;
    c
}

/// What `emit` of `frame` does to the engine and returns.
pub open spec fn emitted(c0: SocketClient, c1: SocketClient, frame: Seq<char>, r: Result<EmitRoute, SocketError>) -> bool {
    match c0.queue() {
        Some(q) => if q.len() >= OUTBOUND_CAPACITY {
            r is Err && r->Err_0 is Emit && c1.queue() == c0.queue()
        } else {
            r is Ok && r->Ok_0 is Queued && c1.queue() == Some(q.push(frame))
        },
        None => match c0.session {
            Some(s) => {
                &&& r is Ok
                &&& r->Ok_0 is Direct
                &&& r->Ok_0->Direct_0.frame@ == frame
                &&& r->Ok_0->Direct_0.url@ == session_url_spec(c0.endpoint->0, s)
                &&& c1.queue() is None
            },
            None => r is Err && r->Err_0 is NotConnected && c1.queue() is None,
        },
    }
}

/// What the sender's taking of `frame` from the queue does to the engine.
pub open spec fn popped(c0: SocketClient, c1: SocketClient, frame: Seq<char>) -> bool {
    &&& c0.queue() is Some
    &&& c0.queue()->0.len() > 0
    &&& frame == c0.queue()->0[0]
    &&& c1.queue() == Some(c0.queue()->0.drop_first())
}

/// The events of a poll that reach subscribers: known kinds whose data decodes.
pub open spec fn dispatchable(evs: Seq<(Seq<char>, JsonValue)>) -> Seq<(Seq<char>, JsonValue)>
    decreases evs.len(),
{
    if evs.len() == 0 {
        Seq::empty()
    } else {
        let prev = dispatchable(evs.drop_last());
        let e = evs.last();
        if kind_of_name(e.0) is Some && decodes(kind_of_name(e.0)->0, e.1) {
            prev.push(e)
        } else {
            prev
        }
    }
}

/// `ds` delivers `evs` one for one and in order, each to the subscribers of its kind.
pub open spec fn delivered(evs: Seq<(Seq<char>, JsonValue)>, ds: Seq<Delivery>, reg: Registry) -> bool {
    &&& ds.len() == evs.len()
    &&& forall|i: int| 0 <= i < ds.len() ==> {
        &&& kind_of_name(evs[i].0) == Some(event_kind(#[trigger] ds[i].event))
        &&& decoded_from(ds[i].event, evs[i].1)
        &&& ds[i].subscribers@ == reg.subs(event_kind(ds[i].event))
    }
}

/// At most one live session: once `connect` has begun a new session, no
/// background task of the session before it goes on, whatever state follows
/// in which the epoch is the new one.
pub proof fn law_superseded_tasks_stop(c0: SocketClient, c1: SocketClient)
    requires
        c1.epoch == next_epoch(c0.epoch),
    ensures
        forall|c: SocketClient| c.epoch == c1.epoch ==> !#[trigger] task_running(c, c0.epoch),
{
}

/// Frames leave in the order they were emitted: after `e1`, `e2`, `e3` are queued
/// on an empty queue, the sender takes `e1`, then `e2`, then `e3`.
pub proof fn law_emit_order(
    c0: SocketClient, c1: SocketClient, c2: SocketClient, c3: SocketClient,
    c4: SocketClient, c5: SocketClient, c6: SocketClient,
    e1: Seq<char>, e2: Seq<char>, e3: Seq<char>, t1: Seq<char>, t2: Seq<char>, t3: Seq<char>,
)
    requires
        c0.queue() == Some(Seq::<Seq<char>>::empty()),
        emitted(c0, c1, e1, Ok(EmitRoute::Queued)),
        emitted(c1, c2, e2, Ok(EmitRoute::Queued)),
        emitted(c2, c3, e3, Ok(EmitRoute::Queued)),
        popped(c3, c4, t1),
        popped(c4, c5, t2),
        popped(c5, c6, t3),
    ensures
        t1 == e1 && t2 == e2 && t3 == e3,
        c6.queue() == Some(Seq::<Seq<char>>::empty()),
{
    let q3 = seq![e1, e2, e3];
    assert(c3.queue()->0 =~= q3);
    assert(c4.queue()->0 =~= seq![e2, e3]);
    assert(c5.queue()->0 =~= seq![e3]);
    assert(c6.queue()->0 =~= Seq::<Seq<char>>::empty());
}

} // verus!
