//! The coordinator: the single owner of the session registry and of the shared
//! playback state. Every mutation and every cross-session read goes through
//! the operations of [`VideoServer`], which the surrounding runtime invokes
//! one at a time.
//!
//! Playback time travels through the system as the decimal text of the wire
//! protocol's JSON number (see [`crate::codec`]); the coordinator never
//! interprets it, it only stores and forwards it (last writer wins).

use vstd::prelude::*;

verus! {

/// Abstract value of a [`VideoState`]: the shared playback state.
pub struct VideoStateSpec {
    /// Playback position, as the decimal text of a JSON number.
    pub time: Seq<char>,
    /// Whether playback is running.
    pub playing: bool,
}

/// Abstract value of a [`ClientData`].
pub struct ClientDataSpec {
    pub time: Seq<char>,
    pub uid: u16,
    pub playing: bool,
}

/// Abstract value of a [`ServerCommand`].
pub struct ServerCommandSpec {
    pub time: Seq<char>,
    pub source_uid: u16,
    pub playing: bool,
}

/// Abstract value of an [`OutgoingCommand`].
pub struct OutgoingCommandSpec {
    pub target: u16,
    pub command: ServerCommandSpec,
}

/// The single shared playback state: position and play/pause flag.
pub struct VideoState {
    /// Playback position, as the decimal text of a JSON number.
    pub time: Vec<char>,
    /// Whether playback is running.
    pub playing: bool,
}

impl View for VideoState {
    type V = VideoStateSpec;

    open spec fn view(&self) -> VideoStateSpec {
        VideoStateSpec { time: self.time@, playing: self.playing }
    }
}

/// A state update as a session hands it in: the new playback state plus the
/// session id the coordinator attributes the update to.
pub struct ClientData {
    pub time: Vec<char>,
    pub uid: u16,
    pub playing: bool,
}

impl View for ClientData {
    type V = ClientDataSpec;

    open spec fn view(&self) -> ClientDataSpec {
        ClientDataSpec { time: self.time@, uid: self.uid, playing: self.playing }
    }
}

/// An outbound state notification: the playback state together with the id of
/// the session it is attributed to.
pub struct ServerCommand {
    pub time: Vec<char>,
    pub source_uid: u16,
    pub playing: bool,
}

impl View for ServerCommand {
    type V = ServerCommandSpec;

    open spec fn view(&self) -> ServerCommandSpec {
        ServerCommandSpec { time: self.time@, source_uid: self.source_uid, playing: self.playing }
    }
}

/// One delivery the coordinator asks the runtime to perform: write `command`
/// to the session registered under `target`.
pub struct OutgoingCommand {
    pub target: u16,
    pub command: ServerCommand,
}

impl View for OutgoingCommand {
    type V = OutgoingCommandSpec;

    open spec fn view(&self) -> OutgoingCommandSpec {
        OutgoingCommandSpec { target: self.target, command: self.command@ }
    }
}

/// Why a registration attempt failed.
#[derive(Clone, Copy, Debug, PartialEq, Eq, Structural)]
pub enum RegisterError {
    /// The bounded number of fresh-id draws was used up without finding a
    /// free id: the id space is (close to) exhausted.
    IdSpaceExhausted,
}

/// The playback position a fresh coordinator starts from.
pub open spec fn initial_time() -> Seq<char> {
    seq!['0', '.', '0']
}

/// How many random draws a single registration may spend looking for a free
/// id before it fails with [`RegisterError::IdSpaceExhausted`].
pub const MAX_REGISTER_ATTEMPTS: u16 = 64;

impl VideoState {
    /// A fresh playback state: position `0.0`, paused.
    pub fn new() -> (s: VideoState)
        ensures
            s@.time == initial_time(),
            s@.playing == false,
    {
        let mut t: Vec<char> = Vec::new();
        t.push('0');
        t.push('.');
        t.push('0');
        proof {
            assert(t@ =~= initial_time());
        }
        VideoState { time: t, playing: false }
    }

    /// The notification that tells session `uid` about this state. The
    /// attributed id is the one given here, whatever session last wrote the
    /// state.
    pub fn as_command(&self, uid: u16) -> (c: ServerCommand)
        ensures
            c@ == (ServerCommandSpec { time: self@.time, source_uid: uid, playing: self@.playing }),
    {
        ServerCommand { time: copy_chars(&self.time), source_uid: uid, playing: self.playing }
    }
}

/// Copies a character buffer.
fn copy_chars(v: &Vec<char>) -> (r: Vec<char>)
    ensures
        r@ == v@,
{
    let mut r: Vec<char> = Vec::new();
    let mut i: usize = 0;
    while i < v.len()
        invariant
            i <= v@.len(),
            r@ == v@.take(i as int),
        decreases v@.len() - i,
    {
        r.push(v[i]);
        proof {
            assert(r@ =~= v@.take(i as int + 1));
        }
        i = i + 1;
    }
    proof {
        assert(v@.take(v@.len() as int) =~= v@);
    }
    r
}

/// No session id occurs twice.
pub open spec fn unique_ids(s: Seq<u16>) -> bool {
    forall|i: int, j: int| 0 <= i < j < s.len() ==> s[i] != s[j]
}

/// The deliveries a broadcast of `cmd` produces over the registered sessions
/// `users`: one per session, in registration order, skipping the session the
/// command is attributed to.
pub open spec fn sp_fan_out(users: Seq<u16>, cmd: ServerCommandSpec) -> Seq<OutgoingCommandSpec>
    decreases users.len(),
{
    if users.len() == 0 {
        Seq::empty()
    } else {
        let rest = sp_fan_out(users.drop_last(), cmd);
        if users.last() == cmd.source_uid {
            rest
        } else {
            rest.push(OutgoingCommandSpec { target: users.last(), command: cmd })
        }
    }
}

/// The abstract value of a delivery list.
pub open spec fn commands_view(s: Seq<OutgoingCommand>) -> Seq<OutgoingCommandSpec> {
    s.map_values(|o: OutgoingCommand| o@)
}

/// Relies on `rand::random::<u16>`: draws a thread-local uniformly random id.
/// Nothing is promised of the value.
#[verifier::external_body]
fn draw_candidate() -> u16 {
    rand::random()
}

/// The coordinator: owns the registry of live session ids and the shared
/// playback state.
pub struct VideoServer {
    users: Vec<u16>,
    video_state: VideoState,
}

impl VideoServer {
    /// The ids of the currently registered sessions, in registration order.
    pub closed spec fn sessions(self) -> Seq<u16> {
        self.users@
    }

    /// The current shared playback state.
    pub closed spec fn play_state(self) -> VideoStateSpec {
        self.video_state@
    }

    /// Coordinator invariant: session ids are pairwise unique among the
    /// currently registered sessions.
    pub open spec fn wf(self) -> bool {
        unique_ids(self.sessions())
    }

    /// A fresh coordinator: no sessions, playback state `0.0` / paused.
    pub fn new() -> (s: VideoServer)
        ensures
            s.wf(),
            s.sessions() == Seq::<u16>::empty(),
            s.play_state().time == initial_time(),
            s.play_state().playing == false,
    {
        VideoServer { users: Vec::new(), video_state: VideoState::new() }
    }

    /// Whether `uid` is currently registered.
    pub fn is_registered(&self, uid: u16) -> (r: bool)
        ensures
            r == self.sessions().contains(uid),
    {
        let mut i: usize = 0;
        while i < self.users.len()
            invariant
                i <= self.users@.len(),
                forall|k: int| 0 <= k < i ==> self.users@[k] != uid,
            decreases self.users@.len() - i,
        {
            if self.users[i] == uid {
                return true;
            }
            i = i + 1;
        }
        false
    }

    /// Registers `uid` if it is free. Returns whether it did: true exactly
    /// when `uid` was not yet registered, in which case the registry grows by
    /// that one entry; on a collision nothing changes.
    pub fn register_with(&mut self, uid: u16) -> (r: bool)
        requires
            old(self).wf(),
        ensures
            final(self).wf(),
            r == !old(self).sessions().contains(uid),
            r ==> final(self).sessions() == old(self).sessions().push(uid),
            !r ==> *final(self) == *old(self),
            final(self).play_state() == old(self).play_state(),
    {
        if self.is_registered(uid) {
            false
        } else {
            self.users.push(uid);
            true
        }
    }

    /// Allocates a fresh session id by random draws, bounded by
    /// [`MAX_REGISTER_ATTEMPTS`]: on success the returned id was free and is
    /// now registered (the registry grows by exactly that entry); when every
    /// draw collides, fails with [`RegisterError::IdSpaceExhausted`] and
    /// changes nothing. The playback state is never touched.
    pub fn connect(&mut self) -> (r: Result<u16, RegisterError>)
        requires
            old(self).wf(),
        ensures
            final(self).wf(),
            final(self).play_state() == old(self).play_state(),
            match r {
                Ok(uid) => !old(self).sessions().contains(uid) && final(self).sessions()
                    == old(self).sessions().push(uid),
                Err(e) => *final(self) == *old(self) && e == RegisterError::IdSpaceExhausted,
            },
    {
        let mut attempts: u16 = 0;
        while attempts < MAX_REGISTER_ATTEMPTS
            invariant
                old(self).wf(),
                *self == *old(self),
            decreases MAX_REGISTER_ATTEMPTS - attempts,
        {
            let candidate = draw_candidate();
            if self.register_with(candidate) {
                return Ok(candidate);
            }
            attempts = attempts + 1;
        }
        Err(RegisterError::IdSpaceExhausted)
    }

    /// Removes `uid` from the registry; a no-op when it is not registered, so
    /// a second call for the same session changes nothing. The playback state
    /// is never touched.
    pub fn disconnect(&mut self, uid: u16)
        requires
            old(self).wf(),
        ensures
            final(self).wf(),
            final(self).sessions() == old(self).sessions().remove_value(uid),
            final(self).play_state() == old(self).play_state(),
    {
        let ghost s0 = self.users@;
        let mut i: usize = 0;
        while i < self.users.len()
            invariant
                old(self).wf(),
                *self == *old(self),
                s0 == self.users@,
                i <= self.users@.len(),
                forall|k: int| 0 <= k < i ==> self.users@[k] != uid,
            decreases self.users@.len() - i,
        {
            if self.users[i] == uid {
                proof {
                    lemma_first_occurrence(s0, uid, i as int);
                    s0.remove_ensures(i as int);
                }
                self.users.remove(i);
                proof {
                    let t = s0.remove(i as int);
                    assert(self.users@ == t);
                    assert(unique_ids(s0));
                    assert forall|p: int, q: int| 0 <= p < q < t.len() implies t[p] != t[q] by {
                        if p < i {
                            assert(t[p] == s0[p]);
                        } else {
                            assert(t[p] == s0[p + 1]);
                        }
                        if q < i {
                            assert(t[q] == s0[q]);
                        } else {
                            assert(t[q] == s0[q + 1]);
                        }
                    }
                }
                return ;
            }
            i = i + 1;
        }
        proof {
            assert(!s0.contains(uid));
            s0.index_of_first_ensures(uid);
        }
    }

    /// Overwrites the playback state with the given values, unconditionally
    /// (last writer wins), and returns the deliveries that tell every other
    /// registered session about it: the new state, attributed to `data.uid`.
    /// The session the update is attributed to receives nothing; the registry
    /// is not changed.
    pub fn update_state(&mut self, data: ClientData) -> (out: Vec<OutgoingCommand>)
        requires
            old(self).wf(),
        ensures
            final(self).wf(),
            final(self).sessions() == old(self).sessions(),
            final(self).play_state() == (VideoStateSpec { time: data@.time, playing: data@.playing }),
            commands_view(out@) == sp_fan_out(
                old(self).sessions(),
                ServerCommandSpec { time: data@.time, source_uid: data@.uid, playing: data@.playing },
            ),
    {
        let cmd = ServerCommand {
            time: copy_chars(&data.time),
            source_uid: data.uid,
            playing: data.playing,
        };
        self.video_state = VideoState { time: data.time, playing: data.playing };
        self.send_command(&cmd)
    }

    /// The deliveries that fan `cmd` out to every registered session except
    /// the one it is attributed to, in registration order.
    pub fn send_command(&self, cmd: &ServerCommand) -> (out: Vec<OutgoingCommand>)
        ensures
            commands_view(out@) == sp_fan_out(self.sessions(), cmd@),
    {
        let mut out: Vec<OutgoingCommand> = Vec::new();
        let mut i: usize = 0;
        while i < self.users.len()
            invariant
                i <= self.users@.len(),
                commands_view(out@) == sp_fan_out(self.users@.take(i as int), cmd@),
            decreases self.users@.len() - i,
        {
            proof {
                assert(self.users@.take(i as int + 1).drop_last() =~= self.users@.take(i as int));
                assert(self.users@.take(i as int + 1).last() == self.users@[i as int]);
            }
            if self.users[i] != cmd.source_uid {
                let delivery = OutgoingCommand {
                    target: self.users[i],
                    command: ServerCommand {
                        time: copy_chars(&cmd.time),
                        source_uid: cmd.source_uid,
                        playing: cmd.playing,
                    },
                };
                let ghost prev = out@;
                let ghost o = (OutgoingCommandSpec {
                    target: self.users@[i as int],
                    command: cmd@,
                });
                proof {
                    assert(delivery@ == o);
                }
                out.push(delivery);
                proof {
                    assert(commands_view(out@) =~= commands_view(prev).push(o));
                    assert(commands_view(out@) == sp_fan_out(self.users@.take(i as int + 1), cmd@));
                }
            }
            i = i + 1;
        }
        proof {
            assert(self.users@.take(self.users@.len() as int) =~= self.users@);
        }
        out
    }

    /// The current playback state, for a targeted reply to the requesting
    /// session.
    pub fn get_state(&self) -> (s: VideoState)
        ensures
            s@ == self.play_state(),
    {
        VideoState { time: copy_chars(&self.video_state.time), playing: self.video_state.playing }
    }
}

/// Law: a broadcast carries only the broadcast values, never targets the
/// session it is attributed to (no session hears an echo of its own update),
/// and targets only registered sessions.
pub proof fn lemma_fan_out_sound(users: Seq<u16>, cmd: ServerCommandSpec)
    ensures
        forall|k: int|
            0 <= k < sp_fan_out(users, cmd).len() ==> (#[trigger] sp_fan_out(users, cmd)[k]).command
                == cmd && sp_fan_out(users, cmd)[k].target != cmd.source_uid && users.contains(
                sp_fan_out(users, cmd)[k].target,
            ),
    decreases users.len(),
{
    if users.len() > 0 {
        let rest = users.drop_last();
        lemma_fan_out_sound(rest, cmd);
        let out = sp_fan_out(users, cmd);
        let prev = sp_fan_out(rest, cmd);
        assert forall|k: int| 0 <= k < out.len() implies (#[trigger] out[k]).command == cmd
            && out[k].target != cmd.source_uid && users.contains(out[k].target) by {
            if k < prev.len() {
                assert(out[k] == prev[k]);
                let t = prev[k].target;
                let i = choose|i: int| 0 <= i < rest.len() && rest[i] == t;
                assert(users[i] == t);
            } else {
                assert(out[k].target == users.last());
                assert(users[users.len() - 1] == users.last());
            }
        }
    }
}

/// Law: every session registered when a broadcast is made, other than the one
/// the broadcast is attributed to, receives a delivery carrying exactly the
/// broadcast values.
pub proof fn lemma_fan_out_covers(users: Seq<u16>, cmd: ServerCommandSpec)
    ensures
        forall|u: u16|
            #[trigger] users.contains(u) && u != cmd.source_uid ==> sp_fan_out(
                users,
                cmd,
            ).contains((OutgoingCommandSpec { target: u, command: cmd })),
    decreases users.len(),
{
    if users.len() > 0 {
        let rest = users.drop_last();
        lemma_fan_out_covers(rest, cmd);
        let out = sp_fan_out(users, cmd);
        let prev = sp_fan_out(rest, cmd);
        assert forall|u: u16| users.contains(u) && u != cmd.source_uid implies out.contains(
            (OutgoingCommandSpec { target: u, command: cmd }),
        ) by {
            let o = (OutgoingCommandSpec { target: u, command: cmd });
            if u == users.last() {
                assert(out[out.len() - 1] == o);
            } else {
                let i = choose|i: int| 0 <= i < users.len() && users[i] == u;
                assert(rest[i] == u);
                assert(rest.contains(u));
                let k = choose|k: int| 0 <= k < prev.len() && prev[k] == o;
                assert(out[k] == o);
            }
        }
    }
}

/// Law: when session ids are pairwise unique, a broadcast delivers to each
/// other session exactly once — no two deliveries share a target.
pub proof fn lemma_fan_out_unique(users: Seq<u16>, cmd: ServerCommandSpec)
    requires
        unique_ids(users),
    ensures
        forall|p: int, q: int|
            0 <= p < q < sp_fan_out(users, cmd).len() ==> #[trigger] sp_fan_out(users, cmd)[p].target
                != #[trigger] sp_fan_out(users, cmd)[q].target,
    decreases users.len(),
{
    if users.len() > 0 {
        let rest = users.drop_last();
        assert(unique_ids(rest));
        lemma_fan_out_unique(rest, cmd);
        lemma_fan_out_sound(rest, cmd);
        let out = sp_fan_out(users, cmd);
        let prev = sp_fan_out(rest, cmd);
        assert forall|p: int, q: int| 0 <= p < q < out.len() implies out[p].target
            != out[q].target by {
            if q < prev.len() {
                assert(out[p] == prev[p] && out[q] == prev[q]);
            } else {
                assert(out[p] == prev[p]);
                assert(out[q].target == users.last());
                assert(rest.contains(prev[p].target));
                let i = choose|i: int| 0 <= i < rest.len() && rest[i] == prev[p].target;
                assert(users[i] == rest[i]);
                assert(users[users.len() - 1] == users.last());
            }
        }
    }
}

/// When the scan of `s` finds `needle` first at index `i`, removing the value
/// removes exactly index `i`.
proof fn lemma_first_occurrence(s: Seq<u16>, needle: u16, i: int)
    requires
        0 <= i < s.len(),
        s[i] == needle,
        forall|k: int| 0 <= k < i ==> s[k] != needle,
    ensures
        s.remove_value(needle) == s.remove(i),
{
    assert(s.contains(needle));
    s.index_of_first_ensures(needle);
    let j = s.index_of_first(needle)->Some_0;
    assert(s[j] == needle);
    assert(!(j < i) && !(i < j));
}

} // verus!

