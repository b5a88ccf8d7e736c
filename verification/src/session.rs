//! The voice session of one guild: the channel it is connected to, its mute
//! and deafen flags, the track that plays and the tracks that wait.

use vstd::prelude::*;
use vstd::string::*;

use crate::errors::VoiceFlag;

verus! {

/// A resolved audio source: the playable stream and what is shown of it.
#[derive(Clone, Debug, PartialEq, Eq)]
pub struct Track {
    /// The handle by which the voice transport knows the stream.
    pub stream: u64,
    pub title: String,
    pub artist: String,
    pub duration_ms: u64,
    pub thumbnail: String,
}

/// The mathematical value of a [`Track`].
pub struct TrackView {
    pub stream: u64,
    pub title: Seq<char>,
    pub artist: Seq<char>,
    pub duration_ms: u64,
    pub thumbnail: Seq<char>,
}

impl View for Track {
    type V = TrackView;

    open spec fn view(&self) -> TrackView {
        TrackView {
            stream: self.stream,
            title: self.title@,
            artist: self.artist@,
            duration_ms: self.duration_ms,
            thumbnail: self.thumbnail@,
        }
    }
}

/// A track somebody asked for.
#[derive(Clone, Debug, PartialEq, Eq)]
pub struct TrackRequest {
    pub track: Track,
    /// The display name of the user who asked, as it was when they asked.
    pub requester: String,
    /// Whether the track starts over each time it ends.
    pub looped: bool,
}

/// The mathematical value of a [`TrackRequest`].
pub struct RequestView {
    pub track: TrackView,
    pub requester: Seq<char>,
    pub looped: bool,
}

impl View for TrackRequest {
    type V = RequestView;

    open spec fn view(&self) -> RequestView {
        RequestView { track: self.track@, requester: self.requester@, looped: self.looped }
    }
}

/// The track that plays.
#[derive(Clone, Debug, PartialEq, Eq)]
pub struct Playing {
    pub request: TrackRequest,
    /// The clock reading, in milliseconds, at which playback started.
    pub started_ms: u64,
}

/// The mathematical value of a [`Playing`].
pub struct PlayingView {
    pub request: RequestView,
    pub started_ms: u64,
}

impl View for Playing {
    type V = PlayingView;

    open spec fn view(&self) -> PlayingView {
        PlayingView { request: self.request@, started_ms: self.started_ms }
    }
}

/// Where a guild's voice connection stands.
#[derive(Clone, Copy, Debug, PartialEq, Eq, Structural)]
pub enum ConnectionState {
    Disconnected,
    Connecting,
    Connected,
}

/// The mathematical value of a [`GuildVoiceSession`].
pub struct SessionView {
    pub guild_id: u64,
    pub state: ConnectionState,
    pub voice_channel_id: Option<u64>,
    pub muted: bool,
    pub deafened: bool,
    /// The tracks that wait, the next to play first.
    pub queue: Seq<RequestView>,
    pub current_track: Option<PlayingView>,
}

/// The view of every request in a list.
pub open spec fn request_views(queue: Seq<TrackRequest>) -> Seq<RequestView> {
    queue.map_values(|r: TrackRequest| r@)
}

/// The view of the track that plays, if any.
pub open spec fn playing_view(current: Option<Playing>) -> Option<PlayingView> {
    match current {
        Some(p) => Some(p@),
        None => None,
    }
}

/// What holds of every session:
/// - it has a channel exactly when it is connected;
/// - unless connected it is neither muted nor deafened, and plays nothing;
/// - while nothing plays, nothing waits.
pub open spec fn session_wf(s: SessionView) -> bool {
    &&& s.state == ConnectionState::Connected <==> s.voice_channel_id is Some
    &&& s.state != ConnectionState::Connected ==> !s.muted && !s.deafened && s.current_track
        is None
    &&& s.current_track is None ==> s.queue.len() == 0
}

/// The session a guild has right after it first joined `channel`.
pub open spec fn fresh_session(guild_id: u64, channel: u64) -> SessionView {
    SessionView {
        guild_id,
        state: ConnectionState::Connected,
        voice_channel_id: Some(channel),
        muted: false,
        deafened: false,
        queue: Seq::empty(),
        current_track: None,
    }
}

/// `s` once the connection has moved to `channel`: nothing else changes.
pub open spec fn retargeted(s: SessionView, channel: u64) -> SessionView {
    SessionView { state: ConnectionState::Connected, voice_channel_id: Some(channel), ..s }
}

/// The value of one flag of `s`.
pub open spec fn flag_of(s: SessionView, flag: VoiceFlag) -> bool {
    match flag {
        VoiceFlag::Mute => s.muted,
        VoiceFlag::Deafen => s.deafened,
    }
}

/// `s` with one flag set to `on`: the other flag and all else stay.
pub open spec fn with_flag(s: SessionView, flag: VoiceFlag, on: bool) -> SessionView {
    match flag {
        VoiceFlag::Mute => SessionView { muted: on, ..s },
        VoiceFlag::Deafen => SessionView { deafened: on, ..s },
    }
}

/// `s` once `request` has come in at clock reading `now_ms`: where nothing
/// plays it plays at once and nothing waits; where something plays it goes
/// to the tail of the queue and what plays is untouched.
pub open spec fn enqueued(s: SessionView, request: RequestView, now_ms: u64) -> SessionView {
    if s.current_track is None {
        SessionView { current_track: Some(PlayingView { request, started_ms: now_ms }), ..s }
    } else {
        SessionView { queue: s.queue.push(request), ..s }
    }
}

/// `s` once what plays has been skipped at clock reading `now_ms`: the head
/// of the queue plays, or nothing where nothing waits.
pub open spec fn skipped(s: SessionView, now_ms: u64) -> SessionView {
    if s.queue.len() > 0 {
        SessionView {
            current_track: Some(PlayingView { request: s.queue.first(), started_ms: now_ms }),
            queue: s.queue.drop_first(),
            ..s
        }
    } else {
        SessionView { current_track: None, ..s }
    }
}

/// `s` with nothing playing and nothing waiting.
pub open spec fn stopped(s: SessionView) -> SessionView {
    SessionView { current_track: None, queue: Seq::empty(), ..s }
}

/// How long a track that started at `started_ms` has played at `now_ms`;
/// zero where the clock reads less than when it started.
pub open spec fn elapsed(started_ms: u64, now_ms: u64) -> nat {
    if now_ms >= started_ms {
        (now_ms - started_ms) as nat
    } else {
        0
    }
}

/// The voice session of one guild.
pub struct GuildVoiceSession {
    guild_id: u64,
    state: ConnectionState,
    voice_channel_id: Option<u64>,
    muted: bool,
    deafened: bool,
    queue: Vec<TrackRequest>,
    current_track: Option<Playing>,
}

impl View for GuildVoiceSession {
    type V = SessionView;

    closed spec fn view(&self) -> SessionView {
        SessionView {
            guild_id: self.guild_id,
            state: self.state,
            voice_channel_id: self.voice_channel_id,
            muted: self.muted,
            deafened: self.deafened,
            queue: request_views(self.queue@),
            current_track: playing_view(self.current_track),
        }
    }
}

impl GuildVoiceSession {
    /// The session of a guild that has just joined `channel`.
    pub fn connected(guild_id: u64, channel: u64) -> (s: Self)
        ensures
            s@ == fresh_session(guild_id, channel),
    {
        let s = GuildVoiceSession {
            guild_id,
            state: ConnectionState::Connected,
            voice_channel_id: Some(channel),
            muted: false,
            deafened: false,
            queue: Vec::new(),
            current_track: None,
        };
        assert(s@.queue =~= Seq::empty());
        s
    }

    /// Moves the connection to `channel`.
    pub fn retarget(&mut self, channel: u64)
        ensures
            final(self)@ == retargeted(old(self)@, channel),
    {
        self.state = ConnectionState::Connected;
        self.voice_channel_id = Some(channel);
    }

    /// Sets one flag.
    pub fn set_flag(&mut self, flag: VoiceFlag, on: bool)
        ensures
            final(self)@ == with_flag(old(self)@, flag, on),
    {
        match flag {
            VoiceFlag::Mute => {
                self.muted = on;
            },
            VoiceFlag::Deafen => {
                self.deafened = on;
            },
        }
    }

    /// Takes a request in: it plays at once where nothing plays, and waits
    /// at the tail of the queue otherwise. Returns whether it plays at once.
    pub fn enqueue(&mut self, request: TrackRequest, now_ms: u64) -> (started: bool)
        ensures
            final(self)@ == enqueued(old(self)@, request@, now_ms),
            started == (old(self)@.current_track is None),
    {
        if self.current_track.is_none() {
            self.current_track = Some(Playing { request, started_ms: now_ms });
            true
        } else {
            self.queue.push(request);
            assert(self@.queue =~= old(self)@.queue.push(request@));
            false
        }
    }

    /// Skips what plays: the head of the queue plays next, or nothing.
    pub fn skip(&mut self, now_ms: u64)
        ensures
            final(self)@ == skipped(old(self)@, now_ms),
    {
        if self.queue.len() > 0 {
            let next = self.queue.remove(0);
            assert(self@.queue =~= old(self)@.queue.drop_first());
            self.current_track = Some(Playing { request: next, started_ms: now_ms });
        } else {
            self.current_track = None;
        }
    }

    /// Drops what plays and what waits.
    pub fn stop(&mut self)
        ensures
            final(self)@ == stopped(old(self)@),
    {
        self.current_track = None;
        self.queue.clear();
        assert(self@.queue =~= Seq::empty());
    }

    /// The guild this session belongs to.
    pub fn guild_id(&self) -> (r: u64)
        ensures
            r == self@.guild_id,
    {
        self.guild_id
    }

    /// Where the connection stands.
    pub fn state(&self) -> (r: ConnectionState)
        ensures
            r == self@.state,
    {
        self.state
    }

    /// The channel the session is connected to.
    pub fn voice_channel_id(&self) -> (r: Option<u64>)
        ensures
            r == self@.voice_channel_id,
    {
        self.voice_channel_id
    }

    /// The value of one flag.
    pub fn flag(&self, flag: VoiceFlag) -> (r: bool)
        ensures
            r == flag_of(self@, flag),
    {
        match flag {
            VoiceFlag::Mute => self.muted,
            VoiceFlag::Deafen => self.deafened,
        }
    }

    /// The track that plays, if any.
    pub fn current_track(&self) -> (r: Option<&Playing>)
        ensures
            match r {
                Some(playing) => self@.current_track == Some(playing@),
                None => self@.current_track is None,
            },
    {
        self.current_track.as_ref()
    }

    /// The tracks that wait, the next to play first.
    pub fn queue(&self) -> (r: &Vec<TrackRequest>)
        ensures
            request_views(r@) == self@.queue,
    {
        &self.queue
    }
}

/// Every step a session can take keeps it well formed.
pub proof fn lemma_steps_keep_wf(
    s: SessionView,
    channel: u64,
    flag: VoiceFlag,
    on: bool,
    request: RequestView,
    now_ms: u64,
)
    requires
        session_wf(s),
        s.state == ConnectionState::Connected,
    ensures
        session_wf(fresh_session(s.guild_id, channel)),
        session_wf(retargeted(s, channel)),
        session_wf(with_flag(s, flag, on)),
        session_wf(enqueued(s, request, now_ms)),
        session_wf(skipped(s, now_ms)),
        session_wf(stopped(s)),
{
}

} // verus!
