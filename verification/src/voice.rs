//! The voice commands: join, leave, mute, deafen, play, skip and stop.
//!
//! A command that needs the voice transport or the audio resolver runs in
//! two parts. The first part looks at the registry and either refuses the
//! command or names the one call to make. The second part takes what the
//! call brought back and only then changes the registry: a call that failed
//! leaves no trace.

use vstd::prelude::*;
use vstd::string::*;

use crate::args::{first_argument, first_of, join_arguments, query_of};
use crate::errors::{message, message_with, BotError, VoiceFlag};
use crate::presence::Presence;
use crate::registry::{
    connected, flag_decision, skip_report, RegistryView, Skipped, VoiceRegistry,
};
use crate::reply::{
    effect_views, field, Effect, EffectView, Field, FieldView, RichContent, RichView,
};
use crate::router::Command;
use crate::session::{
    elapsed, enqueued, skipped, stopped, with_flag, Playing, PlayingView, RequestView,
    SessionView, Track, TrackRequest, TrackView,
};
use crate::step::{
    refuse, refused, say, say_text, Request, RequestCall, Source, SourceView, Step, StepView,
};
use crate::text::{clock, clock_string, decimal, decimal_string, views};

verus! {

/// The registry and the effects a command ends with.
pub struct Change {
    pub registry: RegistryView,
    pub effects: Seq<EffectView>,
}

/// The registry, the presence text and the effects a command ends with,
/// for the commands that set the presence.
pub struct Turn {
    pub registry: RegistryView,
    pub presence: Seq<char>,
    pub effects: Seq<EffectView>,
}

/// The view of what the voice transport answered.
pub open spec fn transport_view(outcome: Result<(), String>) -> Result<(), Seq<char>> {
    match outcome {
        Ok(()) => Ok(()),
        Err(report) => Err(report@),
    }
}

/// The view of what the audio resolver answered.
pub open spec fn resolution_view(outcome: Result<Track, String>) -> Result<TrackView, Seq<char>> {
    match outcome {
        Ok(track) => Ok(track@),
        Err(report) => Err(report@),
    }
}

/// The view of an optional source.
pub open spec fn source_view(source: Option<Source>) -> Option<SourceView> {
    match source {
        Some(s) => Some(s@),
        None => None,
    }
}

/// What is said once a flag has been set.
pub open spec fn flag_text(flag: VoiceFlag, on: bool) -> Seq<char> {
    match (flag, on) {
        (VoiceFlag::Mute, true) => "Muted"@,
        (VoiceFlag::Mute, false) => "Unmuted"@,
        (VoiceFlag::Deafen, true) => "Deafened"@,
        (VoiceFlag::Deafen, false) => "Undeafened"@,
    }
}

/// What is said once the bot has joined.
pub open spec fn joined_text() -> Seq<char> {
    "Joined the voice channel"@
}

/// What is said once the bot has left.
pub open spec fn left_text() -> Seq<char> {
    "Left the voice channel"@
}

/// What is said once playback has been stopped.
pub open spec fn stopped_text() -> Seq<char> {
    "Stopped playback and cleared the queue"@
}

/// What is said to a skip while nothing plays.
pub open spec fn idle_text() -> Seq<char> {
    "Nothing is playing"@
}

/// What is said once the last track has been skipped.
pub open spec fn drained_text() -> Seq<char> {
    "Skipped. Nothing is left to play"@
}

/// A named value.
pub open spec fn named(name: Seq<char>, value: Seq<char>) -> FieldView {
    FieldView { name, value }
}

/// The thumbnail of a track, where it has one.
pub open spec fn thumbnail_of(track: TrackView) -> Option<Seq<char>> {
    if track.thumbnail.len() == 0 {
        None
    } else {
        Some(track.thumbnail)
    }
}

/// What is shown of every track asked for: artist, length and who asked.
pub open spec fn request_fields(request: RequestView) -> Seq<FieldView> {
    seq![
        named("Artist"@, request.track.artist),
        named("Duration"@, clock(request.track.duration_ms as nat)),
        named("Requested by"@, request.requester),
    ]
}

/// The message for a track that plays: titled "Now Playing", described by
/// the track's title, with how long it has played.
pub open spec fn now_playing(request: RequestView, elapsed_ms: nat) -> RichView {
    RichView {
        title: "Now Playing"@,
        description: request.track.title,
        thumbnail: thumbnail_of(request.track),
        fields: request_fields(request).push(named("Elapsed"@, clock(elapsed_ms))),
    }
}

/// The message for a track that waits: titled "Queued", described by the
/// track's title, with its place in the queue, the title of what plays and
/// how long that has played at clock reading `now_ms`.
pub open spec fn queued(
    request: RequestView,
    position: nat,
    current: PlayingView,
    now_ms: u64,
) -> RichView {
    RichView {
        title: "Queued"@,
        description: request.track.title,
        thumbnail: thumbnail_of(request.track),
        fields: request_fields(request) + seq![
            named("Position in queue"@, decimal(position)),
            named("Now Playing"@, current.request.track.title),
            named("Elapsed"@, clock(elapsed(current.started_ms, now_ms))),
        ],
    }
}

/// Join: refused with `NotInVoiceChannel` unless the message came from a
/// guild and its author is in a voice channel there; else the transport is
/// asked to join that channel.
pub open spec fn join_step(guild: Option<u64>, author_channel: Option<u64>) -> StepView {
    match (guild, author_channel) {
        (Some(g), Some(channel)) => StepView::Call(RequestCall::JoinChannel { guild: g, channel }),
        _ => refused(BotError::NotInVoiceChannel),
    }
}

/// Leave: refused with `NotConnected` where the guild has no session; else
/// the transport is asked to leave.
pub open spec fn leave_step(m: RegistryView, guild: Option<u64>) -> StepView {
    match guild {
        Some(g) => if m.contains_key(g) {
            StepView::Call(RequestCall::LeaveChannel { guild: g })
        } else {
            refused(BotError::NotConnected)
        },
        None => refused(BotError::NotConnected),
    }
}

/// Mute and deafen: refused with `NotConnected` where the guild has no
/// session and with `AlreadyInState` where the flag already is `on`; only
/// else is the transport asked.
pub open spec fn flag_step(m: RegistryView, guild: Option<u64>, flag: VoiceFlag, on: bool) -> StepView {
    match guild {
        Some(g) => match flag_decision(m, g, flag, on) {
            Ok(()) => StepView::Call(RequestCall::SetFlag { guild: g, flag, on }),
            Err(e) => refused(e),
        },
        None => refused(BotError::NotConnected),
    }
}

/// What a play command asks the resolver for: `play` its first argument as
/// an address, the two search commands all their arguments as words.
/// Nothing where there is no argument.
pub open spec fn play_source(command: Command, arguments: Seq<Seq<char>>) -> Option<SourceView> {
    match command {
        Command::Play => match first_of(arguments) {
            Some(url) => Some(SourceView::Url(url)),
            None => None,
        },
        Command::SearchAndPlay => match query_of(arguments) {
            Some(words) => Some(SourceView::Search(words)),
            None => None,
        },
        Command::SearchAndPlayLoop => match query_of(arguments) {
            Some(words) => Some(SourceView::SearchLoop(words)),
            None => None,
        },
        _ => None,
    }
}

/// Play: refused with `NotConnected` where the guild has no session and
/// with `InvalidArgument` where there is nothing to resolve; else the
/// resolver is asked.
pub open spec fn play_step(
    m: RegistryView,
    guild: Option<u64>,
    source: Option<SourceView>,
    requester: Seq<char>,
) -> StepView {
    match guild {
        Some(g) => if !m.contains_key(g) {
            refused(BotError::NotConnected)
        } else {
            match source {
                Some(s) => StepView::Call(RequestCall::Resolve { guild: g, source: s, requester }),
                None => refused(BotError::InvalidArgument),
            }
        },
        None => refused(BotError::NotConnected),
    }
}

/// Stop. Where the guild has no session: `NotConnected`, and nothing
/// changes. Else what plays and what waits is dropped, playback is halted
/// and the presence goes back to `default_activity`.
pub open spec fn stop_turn(
    m: RegistryView,
    presence: Seq<char>,
    guild: Option<u64>,
    default_activity: Seq<char>,
) -> Turn {
    match guild {
        Some(g) if m.contains_key(g) => Turn {
            registry: m.insert(g, stopped(m[g])),
            presence: default_activity,
            effects: seq![
                EffectView::HaltPlayback { guild: g },
                EffectView::SetPresence(default_activity),
                EffectView::Say(stopped_text()),
            ],
        },
        _ => Turn { registry: m, presence, effects: say(message(BotError::NotConnected)) },
    }
}

/// The effects of a skip in a session `s` of guild `g`.
pub open spec fn skip_effects(g: u64, s: SessionView) -> Seq<EffectView> {
    match skip_report(s) {
        Skipped::Idle => say(idle_text()),
        Skipped::Stopped => seq![
            EffectView::HaltPlayback { guild: g },
            EffectView::Say(drained_text()),
        ],
        Skipped::Advanced => seq![
            EffectView::StartPlayback {
                guild: g,
                stream: s.queue.first().track.stream,
                looped: s.queue.first().looped,
            },
            EffectView::SayRich(now_playing(s.queue.first(), 0)),
        ],
    }
}

/// Skip. Where the guild has no session: `NotConnected`, and nothing
/// changes. Where nothing plays, nothing changes either. Else the head of
/// the queue plays, or playback halts where nothing waits.
pub open spec fn skip_change(m: RegistryView, guild: Option<u64>, now_ms: u64) -> Change {
    match guild {
        Some(g) if m.contains_key(g) => Change {
            registry: m.insert(g, skipped(m[g], now_ms)),
            effects: skip_effects(g, m[g]),
        },
        _ => Change { registry: m, effects: say(message(BotError::NotConnected)) },
    }
}

/// The end of a join. Only where the transport joined does the guild get
/// its session, or its session the new channel; where it refused, the
/// registry stays as it was and `TransportCommandFailed` is reported.
pub open spec fn join_change(
    m: RegistryView,
    g: u64,
    channel: u64,
    outcome: Result<(), Seq<char>>,
) -> Change {
    match outcome {
        Ok(()) => Change { registry: connected(m, g, channel), effects: say(joined_text()) },
        Err(report) => Change {
            registry: m,
            effects: say(message_with(BotError::TransportCommandFailed, report)),
        },
    }
}

/// The end of a leave. Where the transport left, the guild's session is
/// removed and the presence goes back to `default_activity`; where it
/// refused, nothing changes and `TransportCommandFailed` is reported. A
/// guild that has lost its session in the meantime gets `NotConnected`, and
/// nothing changes either.
pub open spec fn leave_turn(
    m: RegistryView,
    presence: Seq<char>,
    g: u64,
    default_activity: Seq<char>,
    outcome: Result<(), Seq<char>>,
) -> Turn {
    match outcome {
        Ok(()) => if m.contains_key(g) {
            Turn {
                registry: m.remove(g),
                presence: default_activity,
                effects: seq![
                    EffectView::SetPresence(default_activity),
                    EffectView::Say(left_text()),
                ],
            }
        } else {
            Turn { registry: m, presence, effects: say(message(BotError::NotConnected)) }
        },
        Err(report) => Turn {
            registry: m,
            presence,
            effects: say(message_with(BotError::TransportCommandFailed, report)),
        },
    }
}

/// The end of a mute or deafen. Only where the transport confirmed is the
/// flag set; where it refused, nothing changes and
/// `TransportCommandFailed` is reported. A guild that has lost its session
/// in the meantime gets `NotConnected`.
pub open spec fn flag_change(
    m: RegistryView,
    g: u64,
    flag: VoiceFlag,
    on: bool,
    outcome: Result<(), Seq<char>>,
) -> Change {
    match outcome {
        Ok(()) => if m.contains_key(g) {
            Change {
                registry: m.insert(g, with_flag(m[g], flag, on)),
                effects: say(flag_text(flag, on)),
            }
        } else {
            Change { registry: m, effects: say(message(BotError::NotConnected)) }
        },
        Err(report) => Change {
            registry: m,
            effects: say(message_with(BotError::TransportCommandFailed, report)),
        },
    }
}

/// The effects of taking `request` in, in a session `s` of guild `g`.
pub open spec fn enqueue_effects(
    g: u64,
    s: SessionView,
    request: RequestView,
    now_ms: u64,
) -> Seq<EffectView> {
    match s.current_track {
        None => seq![
            EffectView::StartPlayback {
                guild: g,
                stream: request.track.stream,
                looped: request.looped,
            },
            EffectView::SayRich(now_playing(request, 0)),
        ],
        Some(current) => seq![
            EffectView::SayRich(queued(request, s.queue.len() + 1, current, now_ms)),
        ],
    }
}

/// The end of a play. Where the resolver failed, the queue stays as it was
/// and `SourceResolutionFailed` is reported. A guild that has lost its
/// session in the meantime gets `NotConnected`. Else the track plays at once
/// where nothing plays, and waits at the tail of the queue where something
/// does.
pub open spec fn resolve_change(
    m: RegistryView,
    g: u64,
    looped: bool,
    requester: Seq<char>,
    outcome: Result<TrackView, Seq<char>>,
    now_ms: u64,
) -> Change {
    match outcome {
        Err(report) => Change {
            registry: m,
            effects: say(message_with(BotError::SourceResolutionFailed, report)),
        },
        Ok(track) => if m.contains_key(g) {
            let request = RequestView { track, requester, looped };
            Change {
                registry: m.insert(g, enqueued(m[g], request, now_ms)),
                effects: enqueue_effects(g, m[g], request, now_ms),
            }
        } else {
            Change { registry: m, effects: say(message(BotError::NotConnected)) }
        },
    }
}

/// Writes what is said once a flag has been set.
pub fn compose_flag_text(flag: VoiceFlag, on: bool) -> (r: String)
    ensures
        r@ == flag_text(flag, on),
{
    let text = match (flag, on) {
        (VoiceFlag::Mute, true) => "Muted",
        (VoiceFlag::Mute, false) => "Unmuted",
        (VoiceFlag::Deafen, true) => "Deafened",
        (VoiceFlag::Deafen, false) => "Undeafened",
    };
    String::from_str(text)
}

/// Starts the message about a track: title, description, thumbnail and the
/// values shown of every track.
fn compose_track_message(title: &str, request: &TrackRequest) -> (r: RichContent)
    ensures
        r@ == (RichView {
            title: title@,
            description: request@.track.title,
            thumbnail: thumbnail_of(request@.track),
            fields: request_fields(request@),
        }),
{
    let thumbnail = if request.track.thumbnail.as_str().unicode_len() == 0 {
        None
    } else {
        Some(request.track.thumbnail.clone())
    };
    let mut fields: Vec<Field> = Vec::new();
    fields.push(field("Artist", request.track.artist.clone()));
    fields.push(field("Duration", clock_string(request.track.duration_ms)));
    fields.push(field("Requested by", request.requester.clone()));
    let r = RichContent {
        title: String::from_str(title),
        description: request.track.title.clone(),
        thumbnail,
        fields,
    };
    assert(r@.fields =~= request_fields(request@));
    r
}

/// Composes the message for a track that plays.
pub fn compose_now_playing(request: &TrackRequest, elapsed_ms: u64) -> (r: RichContent)
    ensures
        r@ == now_playing(request@, elapsed_ms as nat),
{
    let mut r = compose_track_message("Now Playing", request);
    r.fields.push(field("Elapsed", clock_string(elapsed_ms)));
    assert(r@.fields =~= now_playing(request@, elapsed_ms as nat).fields);
    r
}

/// Composes the message for a track that waits as the `position`-th of the
/// queue behind `current`.
pub fn compose_queued(
    request: &TrackRequest,
    position: u128,
    current: &Playing,
    now_ms: u64,
) -> (r: RichContent)
    ensures
        r@ == queued(request@, position as nat, current@, now_ms),
{
    let played: u64 = if now_ms >= current.started_ms {
        now_ms - current.started_ms
    } else {
        0
    };
    let mut r = compose_track_message("Queued", request);
    r.fields.push(field("Position in queue", decimal_string(position)));
    r.fields.push(field("Now Playing", current.request.track.title.clone()));
    r.fields.push(field("Elapsed", clock_string(played)));
    assert(r@.fields =~= queued(request@, position as nat, current@, now_ms).fields);
    r
}

/// The first part of a join.
pub fn plan_join(guild: Option<u64>, author_channel: Option<u64>) -> (step: Step)
    ensures
        step@ == join_step(guild, author_channel),
{
    match (guild, author_channel) {
        (Some(g), Some(channel)) => Step::Call(Request::JoinChannel { guild: g, channel }),
        _ => refuse(BotError::NotInVoiceChannel),
    }
}

/// The first part of a leave.
pub fn plan_leave(registry: &VoiceRegistry, guild: Option<u64>) -> (step: Step)
    ensures
        step@ == leave_step(registry@, guild),
{
    match guild {
        Some(g) => match registry.session(g) {
            Some(_) => Step::Call(Request::LeaveChannel { guild: g }),
            None => refuse(BotError::NotConnected),
        },
        None => refuse(BotError::NotConnected),
    }
}

/// The first part of a mute, unmute, deafen or undeafen.
pub fn plan_flag(registry: &VoiceRegistry, guild: Option<u64>, flag: VoiceFlag, on: bool) -> (step:
    Step)
    ensures
        step@ == flag_step(registry@, guild, flag, on),
{
    match guild {
        Some(g) => match registry.check_flag(g, flag, on) {
            Ok(()) => Step::Call(Request::SetFlag { guild: g, flag, on }),
            Err(e) => refuse(e),
        },
        None => refuse(BotError::NotConnected),
    }
}

/// Picks what a play command asks the resolver for.
pub fn pick_source(command: Command, arguments: &Vec<String>) -> (source: Option<Source>)
    ensures
        source_view(source) == play_source(command, views(arguments@)),
{
    match command {
        Command::Play => match first_argument(arguments) {
            Some(url) => Some(Source::Url(url)),
            None => None,
        },
        Command::SearchAndPlay => match join_arguments(arguments) {
            Some(words) => Some(Source::Search(words)),
            None => None,
        },
        Command::SearchAndPlayLoop => match join_arguments(arguments) {
            Some(words) => Some(Source::SearchLoop(words)),
            None => None,
        },
        _ => None,
    }
}

/// The first part of a play.
pub fn plan_play(
    registry: &VoiceRegistry,
    guild: Option<u64>,
    source: Option<Source>,
    requester: &str,
) -> (step: Step)
    ensures
        step@ == play_step(registry@, guild, source_view(source), requester@),
{
    match guild {
        Some(g) => match registry.session(g) {
            None => refuse(BotError::NotConnected),
            Some(_) => match source {
                Some(s) => Step::Call(
                    Request::Resolve { guild: g, source: s, requester: String::from_str(requester) },
                ),
                None => refuse(BotError::InvalidArgument),
            },
        },
        None => refuse(BotError::NotConnected),
    }
}

/// Stop.
pub fn stop(
    registry: &mut VoiceRegistry,
    presence: &mut Presence,
    guild: Option<u64>,
    default_activity: &str,
) -> (effects: Vec<Effect>)
    requires
        old(registry).wf(),
    ensures
        final(registry).wf(),
        (Turn {
            registry: final(registry)@,
            presence: final(presence)@,
            effects: effect_views(effects@),
        }) == stop_turn(old(registry)@, old(presence)@, guild, default_activity@),
{
    let stopped = match guild {
        Some(g) => match registry.stop(g) {
            Ok(()) => Some(g),
            Err(_) => None,
        },
        None => None,
    };
    match stopped {
        Some(g) => {
            let mut effects: Vec<Effect> = Vec::new();
            effects.push(Effect::HaltPlayback { guild: g });
            effects.push(presence.set(default_activity));
            effects.push(Effect::Say(String::from_str("Stopped playback and cleared the queue")));
            assert(effect_views(effects@) =~= stop_turn(
                old(registry)@,
                old(presence)@,
                guild,
                default_activity@,
            ).effects);
            effects
        },
        None => say_text(BotError::NotConnected.message()),
    }
}

/// Skip.
pub fn skip(registry: &mut VoiceRegistry, guild: Option<u64>, now_ms: u64) -> (effects: Vec<Effect>)
    requires
        old(registry).wf(),
    ensures
        final(registry).wf(),
        (Change { registry: final(registry)@, effects: effect_views(effects@) }) == skip_change(
            old(registry)@,
            guild,
            now_ms,
        ),
{
    let g = match guild {
        Some(g) => g,
        None => {
            return say_text(BotError::NotConnected.message());
        },
    };
    match registry.skip(g, now_ms) {
        Err(_) => say_text(BotError::NotConnected.message()),
        Ok(Skipped::Idle) => say_text(String::from_str("Nothing is playing")),
        Ok(Skipped::Stopped) => {
            let mut effects: Vec<Effect> = Vec::new();
            effects.push(Effect::HaltPlayback { guild: g });
            effects.push(Effect::Say(String::from_str("Skipped. Nothing is left to play")));
            assert(effect_views(effects@) =~= skip_effects(g, old(registry)@[g]));
            effects
        },
        Ok(Skipped::Advanced) => {
            let mut effects: Vec<Effect> = Vec::new();
            match registry.session(g) {
                Some(session) => match session.current_track() {
                    Some(playing) => {
                        effects.push(
                            Effect::StartPlayback {
                                guild: g,
                                stream: playing.request.track.stream,
                                looped: playing.request.looped,
                            },
                        );
                        effects.push(Effect::SayRich(compose_now_playing(&playing.request, 0)));
                    },
                    None => {},
                },
                None => {},
            }
            assert(effect_views(effects@) =~= skip_effects(g, old(registry)@[g]));
            effects
        },
    }
}

/// The second part of a join: `outcome` is what the transport answered to
/// the request to join `channel` of `guild`.
pub fn finish_join(
    registry: &mut VoiceRegistry,
    guild: u64,
    channel: u64,
    outcome: &Result<(), String>,
) -> (effects: Vec<Effect>)
    requires
        old(registry).wf(),
    ensures
        final(registry).wf(),
        (Change { registry: final(registry)@, effects: effect_views(effects@) }) == join_change(
            old(registry)@,
            guild,
            channel,
            transport_view(*outcome),
        ),
{
    match outcome {
        Ok(()) => {
            registry.connect(guild, channel);
            say_text(String::from_str("Joined the voice channel"))
        },
        Err(report) => say_text(BotError::TransportCommandFailed.message_with(report.as_str())),
    }
}

/// The second part of a leave: `outcome` is what the transport answered to
/// the request to leave `guild`.
pub fn finish_leave(
    registry: &mut VoiceRegistry,
    presence: &mut Presence,
    guild: u64,
    default_activity: &str,
    outcome: &Result<(), String>,
) -> (effects: Vec<Effect>)
    requires
        old(registry).wf(),
    ensures
        final(registry).wf(),
        (Turn {
            registry: final(registry)@,
            presence: final(presence)@,
            effects: effect_views(effects@),
        }) == leave_turn(
            old(registry)@,
            old(presence)@,
            guild,
            default_activity@,
            transport_view(*outcome),
        ),
{
    match outcome {
        Ok(()) => match registry.disconnect(guild) {
            Ok(()) => {
                let mut effects: Vec<Effect> = Vec::new();
                effects.push(presence.set(default_activity));
                effects.push(Effect::Say(String::from_str("Left the voice channel")));
                assert(effect_views(effects@) =~= seq![
                    EffectView::SetPresence(default_activity@),
                    EffectView::Say(left_text()),
                ]);
                effects
            },
            Err(e) => say_text(e.message()),
        },
        Err(report) => say_text(BotError::TransportCommandFailed.message_with(report.as_str())),
    }
}

/// The second part of a mute, unmute, deafen or undeafen: `outcome` is what
/// the transport answered to the request to set `flag` of `guild` to `on`.
pub fn finish_flag(
    registry: &mut VoiceRegistry,
    guild: u64,
    flag: VoiceFlag,
    on: bool,
    outcome: &Result<(), String>,
) -> (effects: Vec<Effect>)
    requires
        old(registry).wf(),
    ensures
        final(registry).wf(),
        (Change { registry: final(registry)@, effects: effect_views(effects@) }) == flag_change(
            old(registry)@,
            guild,
            flag,
            on,
            transport_view(*outcome),
        ),
{
    match outcome {
        Ok(()) => match registry.set_flag(guild, flag, on) {
            Ok(()) => say_text(compose_flag_text(flag, on)),
            Err(e) => say_text(e.message()),
        },
        Err(report) => say_text(BotError::TransportCommandFailed.message_with(report.as_str())),
    }
}

/// The second part of a play: `outcome` is what the resolver answered, and
/// `now_ms` the clock reading at which it did.
pub fn finish_resolve(
    registry: &mut VoiceRegistry,
    guild: u64,
    looped: bool,
    requester: String,
    outcome: Result<Track, String>,
    now_ms: u64,
) -> (effects: Vec<Effect>)
    requires
        old(registry).wf(),
    ensures
        final(registry).wf(),
        (Change { registry: final(registry)@, effects: effect_views(effects@) })
            == resolve_change(
            old(registry)@,
            guild,
            looped,
            requester@,
            resolution_view(outcome),
            now_ms,
        ),
{
    let track = match outcome {
        Ok(track) => track,
        Err(report) => {
            return say_text(BotError::SourceResolutionFailed.message_with(report.as_str()));
        },
    };
    let request = TrackRequest { track, requester, looped };
    let mut effects: Vec<Effect> = Vec::new();
    match registry.session(guild) {
        None => {
            return say_text(BotError::NotConnected.message());
        },
        Some(session) => match session.current_track() {
            None => {
                effects.push(
                    Effect::StartPlayback { guild, stream: request.track.stream, looped },
                );
                effects.push(Effect::SayRich(compose_now_playing(&request, 0)));
            },
            Some(current) => {
                let position: u128 = session.queue().len() as u128 + 1;
                effects.push(Effect::SayRich(compose_queued(&request, position, current, now_ms)));
            },
        },
    }
    assert(effect_views(effects@) =~= enqueue_effects(
        guild,
        old(registry)@[guild],
        request@,
        now_ms,
    ));
    let _ = registry.enqueue(guild, request, now_ms);
    effects
}

} // verus!
