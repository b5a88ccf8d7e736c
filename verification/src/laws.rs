//! What holds of the bot whatever the messages and whatever the
//! collaborators answer, proved of the models the functions are specified
//! by.

use vstd::prelude::*;

use crate::bot::{after_change, run_model, BotView, InvocationView};
use crate::card::{card_effects, CardCommand};
use crate::errors::{message, message_with, BotError, VoiceFlag};
use crate::registry::{registry_wf, state_of, RegistryView};
use crate::reply::EffectView;
use crate::router::Command;
use crate::session::{
    enqueued, flag_of, ConnectionState, PlayingView, RequestView, TrackView,
};
use crate::step::{say, tidied, RequestCall, StepView};
use crate::voice::{
    flag_change, flag_text, join_change, leave_turn, resolve_change, stop_turn, Change, Turn,
};

verus! {

/// A guild has at most one session: two entries of a well-formed registry
/// that belong to the same guild are one and the same entry.
pub proof fn lemma_one_session_per_guild(m: RegistryView, a: u64, b: u64)
    requires
        registry_wf(m),
        m.contains_key(a),
        m.contains_key(b),
        m[a].guild_id == m[b].guild_id,
    ensures
        a == b,
{
}

/// Every change the voice commands make to a well-formed registry gives a
/// well-formed registry, whatever the collaborators answered.
pub proof fn lemma_changes_keep_wf(
    m: RegistryView,
    g: u64,
    channel: u64,
    flag: VoiceFlag,
    on: bool,
    looped: bool,
    requester: Seq<char>,
    transport: Result<(), Seq<char>>,
    resolved: Result<TrackView, Seq<char>>,
    presence: Seq<char>,
    now_ms: u64,
)
    requires
        registry_wf(m),
    ensures
        registry_wf(join_change(m, g, channel, transport).registry),
        registry_wf(leave_turn(m, presence, g, presence, transport).registry),
        registry_wf(flag_change(m, g, flag, on, transport).registry),
        registry_wf(resolve_change(m, g, looped, requester, resolved, now_ms).registry),
        registry_wf(stop_turn(m, presence, Some(g), presence).registry),
{
}

/// A join by a user who is in no voice channel of the guild is refused
/// with `NotInVoiceChannel`, asks for no call, and leaves the bot, its
/// registry included, and the presence exactly as they were.
pub proof fn lemma_join_outside_voice(
    bot: BotView,
    presence: Seq<char>,
    arguments: Seq<Seq<char>>,
    inv: InvocationView,
    now_ms: u64,
)
    requires
        inv.author_channel is None,
    ensures
        run_model(bot, presence, Command::Join, arguments, inv, now_ms) == (
            bot,
            presence,
            StepView::Done(tidied(say(message(BotError::NotInVoiceChannel)), bot.tidy)),
        ),
{
}

/// The command that sets `flag` to `on`.
pub open spec fn command_for(flag: VoiceFlag, on: bool) -> Command {
    match (flag, on) {
        (VoiceFlag::Mute, true) => Command::Mute,
        (VoiceFlag::Mute, false) => Command::Unmute,
        (VoiceFlag::Deafen, true) => Command::Deafen,
        (VoiceFlag::Deafen, false) => Command::Undeafen,
    }
}

/// Setting a flag twice in a row. In a guild with a session whose flag is
/// not yet `on`:
/// - the first command asks the transport to set it;
/// - once the transport has confirmed, the flag is `on` and the success is
///   said;
/// - the same command again is answered with "already in that state" and
///   asks for no call.
pub proof fn lemma_flag_twice(
    bot: BotView,
    presence: Seq<char>,
    g: u64,
    flag: VoiceFlag,
    on: bool,
    arguments: Seq<Seq<char>>,
    inv: InvocationView,
    now_ms: u64,
)
    requires
        registry_wf(bot.registry),
        inv.guild == Some(g),
        bot.registry.contains_key(g),
        flag_of(bot.registry[g], flag) != on,
    ensures
        run_model(bot, presence, command_for(flag, on), arguments, inv, now_ms) == (
            bot,
            presence,
            StepView::Call(RequestCall::SetFlag { guild: g, flag, on }),
        ),
        ({
            let (then, effects) = after_change(
                bot,
                flag_change(bot.registry, g, flag, on, Ok(())),
            );
            &&& flag_of(then.registry[g], flag) == on
            &&& effects == tidied(say(flag_text(flag, on)), bot.tidy)
            &&& run_model(then, presence, command_for(flag, on), arguments, inv, now_ms) == (
                then,
                presence,
                StepView::Done(
                    tidied(say(message(BotError::AlreadyInState(flag, on))), bot.tidy),
                ),
            )
        }),
{
}

/// A flag the transport refused to set stays as it was.
pub proof fn lemma_refused_flag_changes_nothing(
    m: RegistryView,
    g: u64,
    flag: VoiceFlag,
    on: bool,
    report: Seq<char>,
)
    ensures
        flag_change(m, g, flag, on, Err(report)) == (Change {
            registry: m,
            effects: say(message_with(BotError::TransportCommandFailed, report)),
        }),
{
}

/// Taking a track in. In a guild with a session:
/// - where nothing plays, the track plays at once and the queue stays
///   empty;
/// - where something plays, the track goes to the tail of the queue and
///   what plays is untouched.
/// Flags, channel and every other guild stay as they were.
pub proof fn lemma_enqueue(
    m: RegistryView,
    g: u64,
    looped: bool,
    requester: Seq<char>,
    track: TrackView,
    now_ms: u64,
)
    requires
        registry_wf(m),
        m.contains_key(g),
    ensures
        ({
            let request = RequestView { track, requester, looped };
            let then = resolve_change(m, g, looped, requester, Ok(track), now_ms).registry;
            &&& then.dom() == m.dom()
            &&& forall|other: u64| other != g && m.contains_key(other) ==> then[other] == m[other]
            &&& then[g] == enqueued(m[g], request, now_ms)
            &&& m[g].current_track is None ==> {
                &&& then[g].current_track == Some(PlayingView { request, started_ms: now_ms })
                &&& then[g].queue.len() == 0
            }
            &&& m[g].current_track is Some ==> {
                &&& then[g].current_track == m[g].current_track
                &&& then[g].queue == m[g].queue.push(request)
            }
        }),
{
}

/// A source the resolver could not resolve leaves the registry as it was
/// and is reported as `SourceResolutionFailed`.
pub proof fn lemma_failed_resolution_changes_nothing(
    m: RegistryView,
    g: u64,
    looped: bool,
    requester: Seq<char>,
    report: Seq<char>,
    now_ms: u64,
)
    ensures
        resolve_change(m, g, looped, requester, Err(report), now_ms) == (Change {
            registry: m,
            effects: say(message_with(BotError::SourceResolutionFailed, report)),
        }),
{
}

/// Stop. In a guild with a session nothing plays and nothing waits
/// afterwards, whatever did before; in a guild without one the command
/// fails with `NotConnected` and nothing changes.
pub proof fn lemma_stop(
    m: RegistryView,
    presence: Seq<char>,
    g: u64,
    default_activity: Seq<char>,
)
    requires
        registry_wf(m),
    ensures
        ({
            let turn = stop_turn(m, presence, Some(g), default_activity);
            &&& m.contains_key(g) ==> {
                &&& turn.registry.contains_key(g)
                &&& turn.registry[g].current_track is None
                &&& turn.registry[g].queue.len() == 0
                &&& turn.presence == default_activity
            }
            &&& !m.contains_key(g) ==> {
                &&& turn.registry == m
                &&& turn.presence == presence
                &&& turn.effects == say(message(BotError::NotConnected))
            }
        }),
{
}

/// A card lookup that failed is answered with exactly one message, the
/// card service's own report, whatever the command and however long it
/// took.
pub proof fn lemma_failed_lookup_one_message(
    command: CardCommand,
    report: Seq<char>,
    elapsed_ms: nat,
)
    ensures
        card_effects(command, Err(report), elapsed_ms) == seq![EffectView::Say(report)],
{
}

/// A leave confirmed for a guild that has no session fails with
/// `NotConnected` and changes neither the registry nor the presence.
pub proof fn lemma_leave_without_session(
    m: RegistryView,
    presence: Seq<char>,
    default_activity: Seq<char>,
    g: u64,
)
    requires
        !m.contains_key(g),
    ensures
        leave_turn(m, presence, g, default_activity, Ok(())) == (Turn {
            registry: m,
            presence,
            effects: say(message(BotError::NotConnected)),
        }),
{
}

/// Join, then leave. Once a guild has joined and left, it has no session
/// and every other guild is as it was; where the guild had no session
/// before the join, the registry is exactly what it was before the join.
pub proof fn lemma_join_then_leave(
    m: RegistryView,
    presence: Seq<char>,
    default_activity: Seq<char>,
    g: u64,
    channel: u64,
)
    requires
        registry_wf(m),
    ensures
        ({
            let joined = join_change(m, g, channel, Ok(())).registry;
            let left = leave_turn(joined, presence, g, default_activity, Ok(())).registry;
            &&& state_of(joined, g) == ConnectionState::Connected
            &&& joined[g].voice_channel_id == Some(channel)
            &&& state_of(left, g) == ConnectionState::Disconnected
            &&& left == m.remove(g)
            &&& !m.contains_key(g) ==> left == m
        }),
{
}

} // verus!
