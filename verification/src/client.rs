//! The per-connection state machine.
//!
//! One [`VideoClient`] accompanies each live connection and decides, event by
//! event, what the surrounding runtime must do: register with the
//! coordinator, answer probes, forward decoded commands, reply to a decode
//! failure, and — on a peer close, a transport error or a missed heartbeat
//! window — deregister exactly once and close. The runtime performs the
//! transport work and feeds every observed event back in here; all decisions
//! are made, and proved, in this module.
//!
//! Timestamps are milliseconds of a monotonic clock, supplied by the caller
//! with each event.

use vstd::prelude::*;

use crate::codec;
use crate::codec::IncomingRequest;
use crate::codec::IncomingRequestSpec;
use crate::server::ClientData;
use crate::server::ClientDataSpec;
use crate::server::ServerCommandSpec;
use crate::server::VideoState;

verus! {

/// How often a liveness probe is sent, in milliseconds.
pub const HEARTBEAT_INTERVAL_MS: u64 = 30000;

/// How long the connection may stay silent before it is closed, in
/// milliseconds; strictly greater than the probe interval.
pub const CLIENT_TIMEOUT_MS: u64 = 40000;

/// The phases of a connection's life.
#[derive(Clone, Copy, Debug, PartialEq, Eq, Structural)]
pub enum ConnPhase {
    /// Handshake in progress: waiting for the coordinator to assign an id.
    Connecting,
    /// Registered and exchanging traffic.
    Active,
    /// Doomed: the session has been handed over for deregistration, the
    /// transport is being torn down.
    Closing,
    /// Terminal.
    Closed,
}

/// Abstract value of a [`VideoClient`].
pub struct ClientSpec {
    pub phase: ConnPhase,
    pub uid: u16,
    /// When the last liveness signal (any inbound traffic) was observed.
    pub last_seen: u64,
}

/// What a heartbeat tick asks the runtime to do.
#[derive(Clone, Copy, Debug, PartialEq, Eq, Structural)]
pub enum TickAction {
    /// Send a liveness probe.
    Ping,
    /// The liveness window was missed: deregister the carried session id and
    /// close the connection.
    Close(u16),
    /// Not active: do nothing.
    Idle,
}

/// What an inbound text frame asks the runtime to do.
pub enum TextAction {
    /// Hand the carried update to the coordinator (fire-and-forget).
    Forward(ClientData),
    /// Ask the coordinator for the current state; the answer comes back
    /// through [`VideoClient::on_state_reply`].
    Query,
    /// The frame failed to decode: send [`codec::error_reply`] and carry on.
    ReplyError,
    /// Not active: do nothing.
    Ignored,
}

/// Abstract value of a [`TextAction`].
pub enum TextActionSpec {
    Forward(ClientDataSpec),
    Query,
    ReplyError,
    Ignored,
}

impl View for TextAction {
    type V = TextActionSpec;

    open spec fn view(&self) -> TextActionSpec {
        match self {
            TextAction::Forward(d) => TextActionSpec::Forward(d@),
            TextAction::Query => TextActionSpec::Query,
            TextAction::ReplyError => TextActionSpec::ReplyError,
            TextAction::Ignored => TextActionSpec::Ignored,
        }
    }
}

/// Registration answered: an active session under the assigned id.
pub open spec fn sp_registered(c: ClientSpec, uid: u16) -> ClientSpec {
    if c.phase is Connecting {
        ClientSpec { phase: ConnPhase::Active, uid: uid, last_seen: c.last_seen }
    } else {
        c
    }
}

/// Registration failed: straight to `Closed`, no session to deregister.
pub open spec fn sp_register_failed(c: ClientSpec) -> ClientSpec {
    if c.phase is Connecting {
        ClientSpec { phase: ConnPhase::Closed, uid: c.uid, last_seen: c.last_seen }
    } else {
        c
    }
}

/// A liveness signal observed at `now`.
pub open spec fn sp_liveness(c: ClientSpec, now: u64) -> ClientSpec {
    if c.phase is Active {
        ClientSpec { phase: c.phase, uid: c.uid, last_seen: now }
    } else {
        c
    }
}

/// A fatal connection event (peer close, transport error): from `Active` the
/// one transition into `Closing`, handing out the session id to deregister;
/// from `Connecting` straight to `Closed`; otherwise nothing — the session is
/// deregistered at most once however many fatal events race.
pub open spec fn sp_fatal(c: ClientSpec) -> (ClientSpec, Option<u16>) {
    if c.phase is Active {
        (ClientSpec { phase: ConnPhase::Closing, uid: c.uid, last_seen: c.last_seen }, Some(c.uid))
    } else if c.phase is Connecting {
        (ClientSpec { phase: ConnPhase::Closed, uid: c.uid, last_seen: c.last_seen }, None)
    } else {
        (c, None)
    }
}

/// A heartbeat tick at `now`: close when the liveness window was missed,
/// probe otherwise.
pub open spec fn sp_tick(c: ClientSpec, now: u64) -> (ClientSpec, TickAction) {
    if c.phase is Active {
        if now > c.last_seen + CLIENT_TIMEOUT_MS {
            (
                ClientSpec { phase: ConnPhase::Closing, uid: c.uid, last_seen: c.last_seen },
                TickAction::Close(c.uid),
            )
        } else {
            (c, TickAction::Ping)
        }
    } else {
        (c, TickAction::Idle)
    }
}

/// An inbound text frame at `now`: any inbound traffic is a liveness signal;
/// a decoded update is forwarded under the session's own id (whatever uid the
/// producer claimed), a decoded query is passed on, and a decode failure is
/// answered with an error reply while the connection stays active.
pub open spec fn sp_text(c: ClientSpec, frame: Seq<char>, now: u64) -> (ClientSpec, TextActionSpec) {
    if c.phase is Active {
        let c2 = ClientSpec { phase: c.phase, uid: c.uid, last_seen: now };
        match codec::sp_decode(frame) {
            Some(IncomingRequestSpec::SendState(d)) => (
                c2,
                TextActionSpec::Forward(
                    ClientDataSpec { time: d.time, uid: c.uid, playing: d.playing },
                ),
            ),
            Some(IncomingRequestSpec::GetState) => (c2, TextActionSpec::Query),
            None => (c2, TextActionSpec::ReplyError),
        }
    } else {
        (c, TextActionSpec::Ignored)
    }
}

/// Transport fully torn down.
pub open spec fn sp_stopped(c: ClientSpec) -> ClientSpec {
    if c.phase is Closing {
        ClientSpec { phase: ConnPhase::Closed, uid: c.uid, last_seen: c.last_seen }
    } else {
        c
    }
}

/// The per-connection state machine; see the module documentation.
pub struct VideoClient {
    phase: ConnPhase,
    uid: u16,
    last_seen: u64,
}

impl View for VideoClient {
    type V = ClientSpec;

    closed spec fn view(&self) -> ClientSpec {
        ClientSpec { phase: self.phase, uid: self.uid, last_seen: self.last_seen }
    }
}

impl VideoClient {
    /// A fresh connection at `now`: handshaking, no id yet; the runtime must
    /// now ask the coordinator to register this session.
    pub fn new(now: u64) -> (c: VideoClient)
        ensures
            c@ == (ClientSpec { phase: ConnPhase::Connecting, uid: 0, last_seen: now }),
    {
        VideoClient { phase: ConnPhase::Connecting, uid: 0, last_seen: now }
    }

    /// The phase the connection is in.
    pub fn current_phase(&self) -> (p: ConnPhase)
        ensures
            p == self@.phase,
    {
        self.phase
    }

    /// The session id; meaningful once `Active`.
    pub fn session_uid(&self) -> (u: u16)
        ensures
            u == self@.uid,
    {
        self.uid
    }

    /// The coordinator assigned `uid`.
    pub fn on_registered(&mut self, uid: u16)
        ensures
            final(self)@ == sp_registered(old(self)@, uid),
    {
        if self.phase == ConnPhase::Connecting {
            self.phase = ConnPhase::Active;
            self.uid = uid;
        }
    }

    /// The coordinator was unreachable or out of ids.
    pub fn on_register_failed(&mut self)
        ensures
            final(self)@ == sp_register_failed(old(self)@),
    {
        if self.phase == ConnPhase::Connecting {
            self.phase = ConnPhase::Closed;
        }
    }

    /// An inbound probe at `now`: a liveness signal, answered with a pong
    /// while active.
    pub fn on_ping(&mut self, now: u64) -> (pong: bool)
        ensures
            final(self)@ == sp_liveness(old(self)@, now),
            pong == (old(self)@.phase is Active),
    {
        if self.phase == ConnPhase::Active {
            self.last_seen = now;
            true
        } else {
            false
        }
    }

    /// An inbound probe acknowledgment at `now`: a liveness signal.
    pub fn on_pong(&mut self, now: u64)
        ensures
            final(self)@ == sp_liveness(old(self)@, now),
    {
        if self.phase == ConnPhase::Active {
            self.last_seen = now;
        }
    }

    /// An inbound text frame at `now`; see [`sp_text`].
    pub fn on_text(&mut self, frame: &Vec<char>, now: u64) -> (act: TextAction)
        ensures
            final(self)@ == sp_text(old(self)@, frame@, now).0,
            act@ == sp_text(old(self)@, frame@, now).1,
    {
        if self.phase == ConnPhase::Active {
            self.last_seen = now;
            match codec::decode(frame) {
                Ok(IncomingRequest::SendState(d)) => TextAction::Forward(
                    ClientData { time: d.time, uid: self.uid, playing: d.playing },
                ),
                Ok(IncomingRequest::GetState) => TextAction::Query,
                Err(_) => TextAction::ReplyError,
            }
        } else {
            TextAction::Ignored
        }
    }

    /// The coordinator answered a state query: the reply frame for the peer,
    /// carrying the current state attributed to this session's own id.
    pub fn on_state_reply(&self, st: &VideoState) -> (reply: Vec<char>)
        ensures
            reply@ == codec::sp_encode(
                (ServerCommandSpec { time: st@.time, source_uid: self@.uid, playing: st@.playing }),
            ),
    {
        let cmd = st.as_command(self.uid);
        codec::encode(&cmd)
    }

    /// A heartbeat tick at `now`; see [`sp_tick`].
    pub fn on_tick(&mut self, now: u64) -> (act: TickAction)
        ensures
            final(self)@ == sp_tick(old(self)@, now).0,
            act == sp_tick(old(self)@, now).1,
    {
        if self.phase == ConnPhase::Active {
            if now > self.last_seen && now - self.last_seen > CLIENT_TIMEOUT_MS {
                self.phase = ConnPhase::Closing;
                TickAction::Close(self.uid)
            } else {
                TickAction::Ping
            }
        } else {
            TickAction::Idle
        }
    }

    /// A fatal connection event — the peer closed, or the transport failed;
    /// see [`sp_fatal`]. `Some(uid)` obliges the runtime to deregister that
    /// session now, and comes at most once over the connection's life.
    pub fn on_fatal(&mut self) -> (unregister: Option<u16>)
        ensures
            final(self)@ == sp_fatal(old(self)@).0,
            unregister == sp_fatal(old(self)@).1,
    {
        if self.phase == ConnPhase::Active {
            self.phase = ConnPhase::Closing;
            Some(self.uid)
        } else if self.phase == ConnPhase::Connecting {
            self.phase = ConnPhase::Closed;
            None
        } else {
            None
        }
    }

    /// The transport is fully torn down.
    pub fn on_stopped(&mut self)
        ensures
            final(self)@ == sp_stopped(old(self)@),
    {
        if self.phase == ConnPhase::Closing {
            self.phase = ConnPhase::Closed;
        }
    }
}

/// Law: a session is deregistered exactly once, even when two fatal events
/// (say, a transport error racing a missed heartbeat window) arrive in
/// sequence: an active connection hands out its id on the first fatal event,
/// leaves `Active` for good, and every later fatal event hands out nothing.
pub proof fn lemma_unregister_once(c: ClientSpec)
    ensures
        sp_fatal(c).1 is Some <==> c.phase is Active,
        c.phase is Active ==> sp_fatal(c).1 == Some(c.uid) && sp_fatal(c).0.phase is Closing,
        !(sp_fatal(c).0.phase is Active),
        sp_fatal(sp_fatal(c).0).1 is None,
{
}

/// Law: a heartbeat tick closes an active connection exactly when the
/// liveness window was missed — silence longer than the timeout — and leaves
/// it untouched, probing again, otherwise.
pub proof fn lemma_heartbeat_window(c: ClientSpec, now: u64)
    requires
        c.phase is Active,
    ensures
        sp_tick(c, now).1 is Close <==> now > c.last_seen + CLIENT_TIMEOUT_MS,
        sp_tick(c, now).1 is Close ==> sp_tick(c, now).1 == TickAction::Close(c.uid) && sp_tick(
            c,
            now,
        ).0.phase is Closing,
        now <= c.last_seen + CLIENT_TIMEOUT_MS ==> sp_tick(c, now) == (c, TickAction::Ping),
{
}

/// Law: a connection that answers its probes is never closed by the
/// heartbeat: after a liveness signal at `tp`, a tick at any `tn` within the
/// timeout window probes and stays active — so as long as every probe is
/// answered before the window runs out, the machine never leaves `Active`.
pub proof fn lemma_responsive_stays_active(c: ClientSpec, tp: u64, tn: u64)
    requires
        c.phase is Active,
        tn <= tp + CLIENT_TIMEOUT_MS,
    ensures
        sp_tick(sp_liveness(c, tp), tn).1 == TickAction::Ping,
        sp_tick(sp_liveness(c, tp), tn).0.phase is Active,
{
}

/// Law: a frame that fails to decode never costs the connection: the machine
/// stays `Active` under the same session id, asks for exactly one error
/// reply, and forwards nothing — so the shared playback state cannot change.
pub proof fn lemma_decode_failure_harmless(c: ClientSpec, frame: Seq<char>, now: u64)
    requires
        c.phase is Active,
        codec::sp_decode(frame) is None,
    ensures
        sp_text(c, frame, now).0.phase is Active,
        sp_text(c, frame, now).0.uid == c.uid,
        sp_text(c, frame, now).1 == TextActionSpec::ReplyError,
{
}

} // verus!
