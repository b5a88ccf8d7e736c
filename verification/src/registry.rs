//! The voice session registry: for each guild at most one session, found by
//! the guild's identifier.
//!
//! A guild has an entry from the moment a join succeeds until it leaves.
//! Every operation but [`VoiceRegistry::connect`] treats a guild without an
//! entry as not connected and never makes an entry for it.

use std::collections::HashMap;
use vstd::prelude::*;

use crate::errors::{BotError, VoiceFlag};
use crate::session::{
    enqueued, flag_of, fresh_session, retargeted, session_wf, skipped, stopped, with_flag,
    ConnectionState, GuildVoiceSession, SessionView, TrackRequest,
};

verus! {

/// The mathematical value of a registry: the sessions by guild.
pub type RegistryView = Map<u64, SessionView>;

/// What holds of every registry: each entry is a well-formed, connected
/// session of the guild it is filed under.
pub open spec fn registry_wf(m: RegistryView) -> bool {
    forall|g: u64| #[trigger]
        m.contains_key(g) ==> m[g].guild_id == g && m[g].state == ConnectionState::Connected
            && session_wf(m[g])
}

/// Where the voice connection of guild `g` stands.
pub open spec fn state_of(m: RegistryView, g: u64) -> ConnectionState {
    if m.contains_key(g) {
        ConnectionState::Connected
    } else {
        ConnectionState::Disconnected
    }
}

/// `m` once guild `g` has joined `channel`: a guild without a session gets a
/// fresh one; a guild with a session keeps it, moved to `channel`.
pub open spec fn connected(m: RegistryView, g: u64, channel: u64) -> RegistryView {
    if m.contains_key(g) {
        m.insert(g, retargeted(m[g], channel))
    } else {
        m.insert(g, fresh_session(g, channel))
    }
}

/// Whether a flag of guild `g` may be sent to the transport: not where the
/// guild has no session, and not where the flag already is `on`.
pub open spec fn flag_decision(m: RegistryView, g: u64, flag: VoiceFlag, on: bool) -> Result<
    (),
    BotError,
> {
    if !m.contains_key(g) {
        Err(BotError::NotConnected)
    } else if flag_of(m[g], flag) == on {
        Err(BotError::AlreadyInState(flag, on))
    } else {
        Ok(())
    }
}

/// What became of a request that was taken in.
#[derive(Clone, Copy, Debug, PartialEq, Eq, Structural)]
pub enum Enqueued {
    /// Nothing played: the track plays now.
    NowPlaying,
    /// Something played: the track waits, as the `position`-th of the queue
    /// (the next to play is the first).
    Queued { position: usize },
}

/// What a skip did.
#[derive(Clone, Copy, Debug, PartialEq, Eq, Structural)]
pub enum Skipped {
    /// Nothing played, so nothing changed.
    Idle,
    /// What played was dropped and nothing waited.
    Stopped,
    /// What played was dropped and the head of the queue plays.
    Advanced,
}

/// What a skip of guild `g` reports.
pub open spec fn skip_report(s: SessionView) -> Skipped {
    if s.current_track is None {
        Skipped::Idle
    } else if s.queue.len() == 0 {
        Skipped::Stopped
    } else {
        Skipped::Advanced
    }
}

/// The registry of voice sessions.
pub struct VoiceRegistry {
    sessions: HashMap<u64, GuildVoiceSession>,
}

impl View for VoiceRegistry {
    type V = RegistryView;

    closed spec fn view(&self) -> RegistryView {
        Map::new(|g: u64| self.sessions@.contains_key(g), |g: u64| self.sessions@[g]@)
    }
}

impl VoiceRegistry {
    /// Whether the registry is well formed.
    pub open spec fn wf(&self) -> bool {
        registry_wf(self@)
    }

    /// A registry without sessions.
    pub fn new() -> (r: Self)
        ensures
            r@ == Map::<u64, SessionView>::empty(),
            r.wf(),
    {
        VoiceRegistry { sessions: HashMap::new() }
    }

    /// Where the voice connection of `guild` stands.
    pub fn state(&self, guild: u64) -> (r: ConnectionState)
        ensures
            r == state_of(self@, guild),
    {
        broadcast use vstd::std_specs::hash::group_hash_axioms;

        if self.sessions.contains_key(&guild) {
            ConnectionState::Connected
        } else {
            ConnectionState::Disconnected
        }
    }

    /// The session of `guild`, if it has one.
    pub fn session(&self, guild: u64) -> (r: Option<&GuildVoiceSession>)
        ensures
            match r {
                Some(s) => self@.contains_key(guild) && s@ == self@[guild],
                None => !self@.contains_key(guild),
            },
    {
        broadcast use vstd::std_specs::hash::group_hash_axioms;

        self.sessions.get(&guild)
    }

    /// Records that `guild` has joined `channel`.
    pub fn connect(&mut self, guild: u64, channel: u64)
        requires
            old(self).wf(),
        ensures
            final(self).wf(),
            final(self)@ == connected(old(self)@, guild, channel),
    {
        broadcast use vstd::std_specs::hash::group_hash_axioms;

        let session = match self.sessions.remove(&guild) {
            Some(mut session) => {
                session.retarget(channel);
                session
            },
            None => GuildVoiceSession::connected(guild, channel),
        };
        self.sessions.insert(guild, session);
        assert(self@ =~= connected(old(self)@, guild, channel));
    }

    /// Removes the session of `guild`.
    ///
    /// Fails with [`BotError::NotConnected`], changing nothing, where the
    /// guild has none.
    pub fn disconnect(&mut self, guild: u64) -> (r: Result<(), BotError>)
        requires
            old(self).wf(),
        ensures
            final(self).wf(),
            match r {
                Ok(()) => old(self)@.contains_key(guild) && final(self)@ == old(self)@.remove(
                    guild,
                ),
                Err(e) => e == BotError::NotConnected && !old(self)@.contains_key(guild)
                    && final(self)@ == old(self)@,
            },
    {
        broadcast use vstd::std_specs::hash::group_hash_axioms;

        match self.sessions.remove(&guild) {
            Some(_) => {
                assert(self@ =~= old(self)@.remove(guild));
                Ok(())
            },
            None => {
                assert(self@ =~= old(self)@);
                Err(BotError::NotConnected)
            },
        }
    }

    /// Decides whether setting a flag of `guild` to `on` is to be sent to
    /// the transport.
    pub fn check_flag(&self, guild: u64, flag: VoiceFlag, on: bool) -> (r: Result<(), BotError>)
        ensures
            r == flag_decision(self@, guild, flag, on),
    {
        match self.session(guild) {
            None => Err(BotError::NotConnected),
            Some(session) => if session.flag(flag) == on {
                Err(BotError::AlreadyInState(flag, on))
            } else {
                Ok(())
            },
        }
    }

    /// Records that the transport has set a flag of `guild` to `on`.
    ///
    /// Fails with [`BotError::NotConnected`], changing nothing, where the
    /// guild has no session.
    pub fn set_flag(&mut self, guild: u64, flag: VoiceFlag, on: bool) -> (r: Result<(), BotError>)
        requires
            old(self).wf(),
        ensures
            final(self).wf(),
            match r {
                Ok(()) => old(self)@.contains_key(guild) && final(self)@ == old(self)@.insert(
                    guild,
                    with_flag(old(self)@[guild], flag, on),
                ),
                Err(e) => e == BotError::NotConnected && !old(self)@.contains_key(guild)
                    && final(self)@ == old(self)@,
            },
    {
        broadcast use vstd::std_specs::hash::group_hash_axioms;

        match self.sessions.remove(&guild) {
            Some(mut session) => {
                session.set_flag(flag, on);
                self.sessions.insert(guild, session);
                assert(self@ =~= old(self)@.insert(guild, with_flag(old(self)@[guild], flag, on)));
                Ok(())
            },
            None => {
                assert(self@ =~= old(self)@);
                Err(BotError::NotConnected)
            },
        }
    }

    /// Takes a request for `guild` in at clock reading `now_ms`: it plays at
    /// once where nothing plays, and waits at the tail of the queue
    /// otherwise.
    ///
    /// Fails with [`BotError::NotConnected`], changing nothing, where the
    /// guild has no session.
    pub fn enqueue(&mut self, guild: u64, request: TrackRequest, now_ms: u64) -> (r: Result<
        Enqueued,
        BotError,
    >)
        requires
            old(self).wf(),
        ensures
            final(self).wf(),
            match r {
                Ok(outcome) => {
                    &&& old(self)@.contains_key(guild)
                    &&& final(self)@ == old(self)@.insert(
                        guild,
                        enqueued(old(self)@[guild], request@, now_ms),
                    )
                    &&& match outcome {
                        Enqueued::NowPlaying => old(self)@[guild].current_track is None,
                        Enqueued::Queued { position } => old(self)@[guild].current_track is Some
                            && position == old(self)@[guild].queue.len() + 1,
                    }
                },
                Err(e) => e == BotError::NotConnected && !old(self)@.contains_key(guild)
                    && final(self)@ == old(self)@,
            },
    {
        broadcast use vstd::std_specs::hash::group_hash_axioms;

        match self.sessions.remove(&guild) {
            Some(mut session) => {
                let started = session.enqueue(request, now_ms);
                let position = session.queue().len();
                assert(position == session@.queue.len());
                self.sessions.insert(guild, session);
                assert(self@ =~= old(self)@.insert(
                    guild,
                    enqueued(old(self)@[guild], request@, now_ms),
                ));
                if started {
                    Ok(Enqueued::NowPlaying)
                } else {
                    Ok(Enqueued::Queued { position })
                }
            },
            None => {
                assert(self@ =~= old(self)@);
                Err(BotError::NotConnected)
            },
        }
    }

    /// Skips what plays in `guild` at clock reading `now_ms`: the head of
    /// the queue plays next, or nothing where nothing waits.
    ///
    /// Fails with [`BotError::NotConnected`], changing nothing, where the
    /// guild has no session.
    pub fn skip(&mut self, guild: u64, now_ms: u64) -> (r: Result<Skipped, BotError>)
        requires
            old(self).wf(),
        ensures
            final(self).wf(),
            match r {
                Ok(report) => {
                    &&& old(self)@.contains_key(guild)
                    &&& final(self)@ == old(self)@.insert(
                        guild,
                        skipped(old(self)@[guild], now_ms),
                    )
                    &&& report == skip_report(old(self)@[guild])
                },
                Err(e) => e == BotError::NotConnected && !old(self)@.contains_key(guild)
                    && final(self)@ == old(self)@,
            },
    {
        broadcast use vstd::std_specs::hash::group_hash_axioms;

        match self.sessions.remove(&guild) {
            Some(mut session) => {
                let report = if session.current_track().is_none() {
                    Skipped::Idle
                } else if session.queue().len() == 0 {
                    Skipped::Stopped
                } else {
                    Skipped::Advanced
                };
                session.skip(now_ms);
                self.sessions.insert(guild, session);
                assert(self@ =~= old(self)@.insert(guild, skipped(old(self)@[guild], now_ms)));
                Ok(report)
            },
            None => {
                assert(self@ =~= old(self)@);
                Err(BotError::NotConnected)
            },
        }
    }

    /// Drops what plays and what waits in `guild`.
    ///
    /// Fails with [`BotError::NotConnected`], changing nothing, where the
    /// guild has no session.
    pub fn stop(&mut self, guild: u64) -> (r: Result<(), BotError>)
        requires
            old(self).wf(),
        ensures
            final(self).wf(),
            match r {
                Ok(()) => old(self)@.contains_key(guild) && final(self)@ == old(self)@.insert(
                    guild,
                    stopped(old(self)@[guild]),
                ),
                Err(e) => e == BotError::NotConnected && !old(self)@.contains_key(guild)
                    && final(self)@ == old(self)@,
            },
    {
        broadcast use vstd::std_specs::hash::group_hash_axioms;

        match self.sessions.remove(&guild) {
            Some(mut session) => {
                session.stop();
                self.sessions.insert(guild, session);
                assert(self@ =~= old(self)@.insert(guild, stopped(old(self)@[guild])));
                Ok(())
            },
            None => {
                assert(self@ =~= old(self)@);
                Err(BotError::NotConnected)
            },
        }
    }
}

} // verus!
