//! The session state model and the handle that guards it.
//!
//! One handle owns one mutable session. Exclusive access is what the
//! borrow discipline of `&mut self` states: no operation reads or writes
//! session state without it, which is exactly the serialization the
//! asynchronous guard enforces at run time. Every operation is a single
//! whole-state transition, written down once as a spec function and once
//! as executable code proved equal to it.

use vstd::prelude::*;
use crate::activation::ActivatedInput;
use crate::bitrate::BitrateSetting;
use crate::errors::SessionError;

verus! {

/// The mathematical model of one session: what the facade is responsible
/// for tracking between calls.
#[verifier::ext_equal]
pub struct SessionView<C> {
    pub connected: bool,
    pub muted: bool,
    pub bitrate: BitrateSetting,
    pub active_tracks: Seq<u64>,
    pub config: Option<C>,
    pub next_track_id: u64,
}

/// A freshly created session: disconnected, unmuted, no active sources,
/// automatic bitrate, and whatever configuration the factory was given
/// (`None` means the engine's own default configuration).
pub open spec fn spec_create<C>(config: Option<C>) -> SessionView<C> {
    SessionView {
        connected: false,
        muted: false,
        bitrate: BitrateSetting::Automatic,
        active_tracks: Seq::empty(),
        config: config,
        next_track_id: 0,
    }
}

/// What one connect attempt does to the session: an accepted handshake
/// connects it; a rejected one leaves it exactly as it was.
pub open spec fn spec_apply_connect<C>(s: SessionView<C>, accepted: bool) -> SessionView<C> {
    if accepted {
        SessionView { connected: true, ..s }
    } else {
        s
    }
}

/// Leaving only drops the connection. Active sources, the mute flag, the
/// bitrate target and the configuration are deliberately kept: a later
/// reconnect finds the session as it was left.
pub open spec fn spec_leave<C>(s: SessionView<C>) -> SessionView<C> {
    SessionView { connected: false, ..s }
}

/// Setting the mute flag replaces it wholesale and touches nothing else.
pub open spec fn spec_set_mute<C>(s: SessionView<C>, muted: bool) -> SessionView<C> {
    SessionView { muted: muted, ..s }
}

/// Playing an activated input adds one fresh track beside the ones already
/// active.
pub open spec fn spec_play<C>(s: SessionView<C>) -> SessionView<C>
    recommends
        s.next_track_id < u64::MAX,
{
    SessionView {
        active_tracks: s.active_tracks.push(s.next_track_id),
        next_track_id: (s.next_track_id + 1) as u64,
        ..s
    }
}

/// Playing an activated input as the only source: every other source stops
/// and the fresh track replaces them, in one step.
pub open spec fn spec_play_only<C>(s: SessionView<C>) -> SessionView<C>
    recommends
        s.next_track_id < u64::MAX,
{
    SessionView {
        active_tracks: seq![s.next_track_id],
        next_track_id: (s.next_track_id + 1) as u64,
        ..s
    }
}

/// Stopping clears every active source.
pub open spec fn spec_stop<C>(s: SessionView<C>) -> SessionView<C> {
    SessionView { active_tracks: Seq::empty(), ..s }
}

/// A bitrate change replaces the target wholesale.
pub open spec fn spec_set_bitrate<C>(s: SessionView<C>, b: BitrateSetting) -> SessionView<C> {
    SessionView { bitrate: b, ..s }
}

/// A configuration change replaces the installed value atomically.
pub open spec fn spec_set_config<C>(s: SessionView<C>, c: C) -> SessionView<C> {
    SessionView { config: Some(c), ..s }
}

/// The opaque handle returned when playback of one input starts. Its own
/// control surface (pause, volume) belongs to the engine.
#[derive(Clone, Copy, Debug, PartialEq, Eq, Structural)]
pub struct TrackHandle {
    pub id: u64,
}

/// Exclusive owner of one session. The only way to obtain a usable handle
/// is the factory `create`; the plain constructor always fails, because a
/// live session needs the native scheduler context at construction time.
pub struct SessionHandle<C> {
    connected: bool,
    muted: bool,
    bitrate: BitrateSetting,
    active_tracks: Vec<u64>,
    config: Option<C>,
    next_track_id: u64,
}

impl<C> View for SessionHandle<C> {
    type V = SessionView<C>;

    closed spec fn view(&self) -> SessionView<C> {
        SessionView {
            connected: self.connected,
            muted: self.muted,
            bitrate: self.bitrate,
            active_tracks: self.active_tracks@,
            config: self.config,
            next_track_id: self.next_track_id,
        }
    }
}

impl<C> SessionHandle<C> {
    /// The plain constructor path. It can never produce a handle: callers
    /// are directed to the asynchronous factory `create`.
    pub fn new() -> (r: Result<SessionHandle<C>, SessionError>)
        ensures
            r matches Err(e) && e == SessionError::UsageError,
    {
        Err(SessionError::UsageError)
    }

    /// The designated factory. The embedding layer runs it on the native
    /// scheduler; the session itself starts disconnected.
    pub fn create(config: Option<C>) -> (r: SessionHandle<C>)
        ensures
            r@ == spec_create(config),
    {
        let r = SessionHandle {
            connected: false,
            muted: false,
            bitrate: BitrateSetting::Automatic,
            active_tracks: Vec::new(),
            config: config,
            next_track_id: 0,
        };
        proof {
            assert(r@ =~= spec_create(r.config));
        }
        r
    }

    /// Applies the engine's answer to one connect attempt. An accepted
    /// handshake leaves the session connected; a rejected one leaves the
    /// whole state exactly as it was and surfaces the engine's diagnostic
    /// as a `ConnectionFailure` — there is no partially connected state
    /// and no automatic retry.
    pub fn apply_connect(&mut self, outcome: Result<(), String>) -> (r: Result<(), SessionError>)
        ensures
            final(self)@ == spec_apply_connect(old(self)@, outcome is Ok),
            r is Ok <==> outcome is Ok,
            outcome is Ok ==> final(self)@.connected,
            outcome is Err ==> final(self)@ == old(self)@,
            outcome matches Err(d) ==> r matches Err(e) && e == SessionError::ConnectionFailure(d),
    {
        match outcome {
            Ok(()) => {
                self.connected = true;
                proof {
                    assert(self@ =~= spec_apply_connect(old(self)@, true));
                }
                Ok(())
            },
            Err(diagnostic) => {
                proof {
                    assert(self@ =~= spec_apply_connect(old(self)@, false));
                }
                Err(SessionError::ConnectionFailure(diagnostic))
            },
        }
    }

    /// Disables the session. External channel-membership state is owned
    /// elsewhere and is not touched; see `spec_leave` for what is kept.
    pub fn leave(&mut self)
        ensures
            final(self)@ == spec_leave(old(self)@),
    {
        self.connected = false;
        proof {
            assert(self@ =~= spec_leave(old(self)@));
        }
    }

    /// Mutes the session.
    pub fn mute(&mut self)
        ensures
            final(self)@ == spec_set_mute(old(self)@, true),
    {
        self.set_mute(true);
    }

    /// Unmutes the session.
    pub fn unmute(&mut self)
        ensures
            final(self)@ == spec_set_mute(old(self)@, false),
    {
        self.set_mute(false);
    }

    /// Sets the mute flag to exactly the given value.
    pub fn set_mute(&mut self, muted: bool)
        ensures
            final(self)@ == spec_set_mute(old(self)@, muted),
    {
        self.muted = muted;
        proof {
            assert(self@ =~= spec_set_mute(old(self)@, muted));
        }
    }

    /// Reads the mute flag.
    pub fn is_muted(&self) -> (r: bool)
        ensures
            r == self@.muted,
    {
        self.muted
    }

    /// Plays one source beside the ones already active. The caller hands in
    /// the whole activation outcome: on success the activated input is
    /// consumed and a fresh track starts; on failure the session is never
    /// touched and the activation failure is surfaced unchanged.
    pub fn play_source(&mut self, activation: Result<ActivatedInput, SessionError>) -> (r: Result<
        TrackHandle,
        SessionError,
    >)
        requires
            activation is Ok ==> old(self)@.next_track_id < u64::MAX,
        ensures
            activation is Ok ==> final(self)@ == spec_play(old(self)@),
            activation is Ok ==> (r matches Ok(t) && t.id == old(self)@.next_track_id),
            activation is Err ==> final(self)@ == old(self)@,
            activation matches Err(e) ==> (r matches Err(e2) && e2 == e),
    {
        match activation {
            Ok(input) => {
                let id = self.admit_track(input);
                Ok(TrackHandle { id })
            },
            Err(e) => Err(e),
        }
    }

    /// Plays one source as the only one. Stopping the old sources and
    /// starting the new one is a single guarded step, so no state ever
    /// holds both: on success exactly one source is active, however many
    /// were before. On activation failure the session is never touched.
    pub fn play_only_source(&mut self, activation: Result<ActivatedInput, SessionError>) -> (r:
        Result<TrackHandle, SessionError>)
        requires
            activation is Ok ==> old(self)@.next_track_id < u64::MAX,
        ensures
            activation is Ok ==> final(self)@ == spec_play_only(old(self)@)
                && final(self)@.active_tracks.len() == 1,
            activation is Ok ==> (r matches Ok(t) && t.id == old(self)@.next_track_id),
            activation is Err ==> final(self)@ == old(self)@,
            activation matches Err(e) ==> (r matches Err(e2) && e2 == e),
    {
        match activation {
            Ok(input) => {
                self.active_tracks = Vec::new();
                let id = self.admit_track(input);
                proof {
                    assert(self@ =~= spec_play_only(old(self)@));
                }
                Ok(TrackHandle { id })
            },
            Err(e) => Err(e),
        }
    }

    /// Hands one activated input to the session and starts its track. The
    /// input is consumed here: it can never be reused.
    fn admit_track(&mut self, input: ActivatedInput) -> (id: u64)
        requires
            old(self)@.next_track_id < u64::MAX,
        ensures
            final(self)@ == spec_play(old(self)@),
            id == old(self)@.next_track_id,
    {
        let _ = input;
        let id = self.next_track_id;
        self.active_tracks.push(id);
        self.next_track_id = self.next_track_id + 1;
        proof {
            assert(self@ =~= spec_play(old(self)@));
        }
        id
    }

    /// Stops every active source.
    pub fn stop(&mut self)
        ensures
            final(self)@ == spec_stop(old(self)@),
    {
        self.active_tracks = Vec::new();
        proof {
            assert(self@ =~= spec_stop(old(self)@));
        }
    }

    /// Replaces the bitrate target wholesale.
    pub fn set_bitrate_setting(&mut self, setting: BitrateSetting)
        ensures
            final(self)@ == spec_set_bitrate(old(self)@, setting),
    {
        self.bitrate = setting;
        proof {
            assert(self@ =~= spec_set_bitrate(old(self)@, setting));
        }
    }

    /// Sets an explicit bits-per-second target.
    pub fn set_bitrate(&mut self, bits_per_second: i32)
        ensures
            final(self)@ == spec_set_bitrate(
                old(self)@,
                BitrateSetting::ExplicitBitsPerSecond(bits_per_second),
            ),
    {
        self.set_bitrate_setting(BitrateSetting::ExplicitBitsPerSecond(bits_per_second));
    }

    /// Targets the highest rate the codec supports.
    pub fn set_bitrate_to_max(&mut self)
        ensures
            final(self)@ == spec_set_bitrate(old(self)@, BitrateSetting::Maximum),
    {
        self.set_bitrate_setting(BitrateSetting::Maximum);
    }

    /// Lets the engine pick the rate.
    pub fn set_bitrate_to_auto(&mut self)
        ensures
            final(self)@ == spec_set_bitrate(old(self)@, BitrateSetting::Automatic),
    {
        self.set_bitrate_setting(BitrateSetting::Automatic);
    }

    /// Replaces the configuration atomically. Operations already in flight
    /// are unaffected retroactively; only later ones see the new value.
    pub fn set_config(&mut self, config: C)
        ensures
            final(self)@ == spec_set_config(old(self)@, config),
    {
        self.config = Some(config);
        proof {
            assert(self@ =~= spec_set_config(old(self)@, config));
        }
    }

    /// Whether another track can still start: the machine-sized track
    /// counter has room. Unverified callers test this before a play call.
    pub fn can_admit_track(&self) -> (r: bool)
        ensures
            r == (self@.next_track_id < u64::MAX),
    {
        self.next_track_id < u64::MAX
    }

    /// Reads the connection status.
    pub fn is_connected(&self) -> (r: bool)
        ensures
            r == self@.connected,
    {
        self.connected
    }

    /// How many sources are active right now.
    pub fn active_track_count(&self) -> (n: usize)
        ensures
            n == self@.active_tracks.len(),
    {
        self.active_tracks.len()
    }

    /// Reads the bitrate target.
    pub fn current_bitrate(&self) -> (r: BitrateSetting)
        ensures
            r == self@.bitrate,
    {
        self.bitrate
    }

    /// Reads the installed configuration value; `None` means the engine's
    /// default is still in force.
    pub fn current_config(&self) -> (r: &Option<C>)
        ensures
            *r == self@.config,
    {
        &self.config
    }
}

/// A connect attempt on a disconnected session ends in exactly one of two
/// states: connected after an accepted handshake, or bit-for-bit the old
/// disconnected state after a rejected one. No partially connected state
/// exists.
pub proof fn lemma_connect_never_partial<C>(s: SessionView<C>, accepted: bool)
    requires
        !s.connected,
    ensures
        accepted ==> spec_apply_connect(s, accepted).connected,
        !accepted ==> spec_apply_connect(s, accepted) == s,
        !accepted ==> !spec_apply_connect(s, accepted).connected,
{
}

/// Reading the mute flag right after setting it, with no mutator in
/// between, returns exactly the value that was set.
pub proof fn lemma_mute_read_back<C>(s: SessionView<C>, muted: bool)
    ensures
        spec_set_mute(s, muted).muted == muted,
{
}

/// Two mute updates racing for the guard serialize: whichever order the
/// guard admits them in, the session ends bit-for-bit in the state written
/// by the later one — one of the two requested states, never a torn mixture.
pub proof fn lemma_serialized_mutes_never_tear<C>(s: SessionView<C>, first: bool, second: bool)
    ensures
        spec_set_mute(spec_set_mute(s, first), second) == spec_set_mute(s, second),
        spec_set_mute(spec_set_mute(s, second), first) == spec_set_mute(s, first),
{
    assert(spec_set_mute(spec_set_mute(s, first), second) =~= spec_set_mute(s, second));
    assert(spec_set_mute(spec_set_mute(s, second), first) =~= spec_set_mute(s, first));
}

} // verus!
