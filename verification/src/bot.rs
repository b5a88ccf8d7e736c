//! One bot: its router and its voice session registry.
//!
//! The surrounding program hands every incoming message to
//! [`Bot::begin`]. It passes over the message, carries out the effects of an
//! answer, or makes the call asked for and hands what came back to the
//! `finish_*` function of that call, whose effects it then carries out.
//!
//! The presence text is one value for the whole process and no part of a
//! bot: the functions that set it take its holder as an argument. A program
//! may so keep one bot for each guild, each behind a lock of its own, and
//! one holder for all of them.

use vstd::prelude::*;
use vstd::string::*;

use crate::args::{join_arguments, lex_arguments, query_of, raw_arguments};
use crate::card::{
    card_effects, card_step, compose_card_reply, lookup_view, plan_card, CardCommand, CardRecord,
};
use crate::errors::VoiceFlag;
use crate::help::{aliases_text, compose_aliases, compose_help, help_text};
use crate::lands::{compose_lands_reply, lands_effects};
use crate::presence::{card_activity, Presence};
use crate::registry::{RegistryView, VoiceRegistry};
use crate::reply::{effect_views, Effect, EffectView};
use crate::router::{entry_views, route, Command, CommandEntry, EntryView, Routed, RoutedView, Router};
use crate::session::Track;
use crate::step::{close_step, closed_step, say, say_text, tidied, tidy_up, Step, StepView};
use crate::tables::{card_lines, card_table, default_prefixes, prefix_texts, voice_lines, voice_table};
use crate::text::views;
use crate::voice::{
    finish_flag, finish_join, finish_leave, finish_resolve, flag_change, flag_step, join_change,
    join_step, leave_step, leave_turn, pick_source, plan_flag, plan_join, plan_leave, plan_play,
    play_source, play_step, resolution_view, resolve_change, skip, skip_change, stop, stop_turn,
    transport_view, Change, Turn,
};

verus! {

/// What the gateway tells of one incoming message.
#[derive(Clone, Debug, PartialEq, Eq)]
pub struct Invocation {
    /// The text of the message.
    pub text: String,
    /// The guild the message came from; `None` for a direct message.
    pub guild: Option<u64>,
    /// The display name of the author.
    pub author: String,
    /// The voice channel of that guild the author is in, if any.
    pub author_channel: Option<u64>,
    /// Whether the author is a bot.
    pub from_bot: bool,
    /// Whether the message came in through a webhook.
    pub from_webhook: bool,
}

/// The mathematical value of an [`Invocation`].
pub struct InvocationView {
    pub text: Seq<char>,
    pub guild: Option<u64>,
    pub author: Seq<char>,
    pub author_channel: Option<u64>,
    pub from_bot: bool,
    pub from_webhook: bool,
}

impl View for Invocation {
    type V = InvocationView;

    open spec fn view(&self) -> InvocationView {
        InvocationView {
            text: self.text@,
            guild: self.guild,
            author: self.author@,
            author_channel: self.author_channel,
            from_bot: self.from_bot,
            from_webhook: self.from_webhook,
        }
    }
}

/// One bot.
pub struct Bot {
    pub router: Router,
    pub registry: VoiceRegistry,
    /// The activity text shown at startup and restored by leave and stop.
    pub default_activity: String,
    /// Whether the message that triggered a command is deleted once the
    /// command is answered.
    pub tidy: bool,
}

/// The mathematical value of a [`Bot`].
pub struct BotView {
    pub prefixes: Seq<Seq<char>>,
    pub table: Seq<EntryView>,
    pub registry: RegistryView,
    pub default_activity: Seq<char>,
    pub tidy: bool,
}

impl View for Bot {
    type V = BotView;

    open spec fn view(&self) -> BotView {
        BotView {
            prefixes: views(self.router.prefixes@),
            table: entry_views(self.router.table@),
            registry: self.registry@,
            default_activity: self.default_activity@,
            tidy: self.tidy,
        }
    }
}

/// A bot that has just been set up: no session.
pub open spec fn fresh_bot(
    prefixes: Seq<Seq<char>>,
    table: Seq<EntryView>,
    default_activity: Seq<char>,
    tidy: bool,
) -> BotView {
    BotView { prefixes, table, registry: Map::empty(), default_activity, tidy }
}

/// The bot with the registry of `change`, and the effects of `change`
/// tidied.
pub open spec fn after_change(bot: BotView, change: Change) -> (BotView, Seq<EffectView>) {
    (BotView { registry: change.registry, ..bot }, tidied(change.effects, bot.tidy))
}

/// The bot with the registry of `turn`, the presence of `turn`, and the
/// effects of `turn` tidied.
pub open spec fn after_turn(bot: BotView, turn: Turn) -> (BotView, Seq<char>, Seq<EffectView>) {
    (BotView { registry: turn.registry, ..bot }, turn.presence, tidied(turn.effects, bot.tidy))
}

/// The bot and the presence as they were, with the step a command gave.
pub open spec fn unchanged(bot: BotView, presence: Seq<char>, step: StepView) -> (
    BotView,
    Seq<char>,
    StepView,
) {
    (bot, presence, step)
}

/// The flag and the value a command sets, for the four commands that set
/// one.
pub open spec fn flag_command(command: Command) -> Option<(VoiceFlag, bool)> {
    match command {
        Command::Mute => Some((VoiceFlag::Mute, true)),
        Command::Unmute => Some((VoiceFlag::Mute, false)),
        Command::Deafen => Some((VoiceFlag::Deafen, true)),
        Command::Undeafen => Some((VoiceFlag::Deafen, false)),
        _ => None,
    }
}

/// What running `command` on `arguments` does to the bot and to the
/// presence, and the step it gives.
///
/// Stop and skip change the registry at once, and stop sets the presence.
/// Every other command leaves both as they are: it answers from what it
/// sees or names the call to make. An answer ends with the deletion of the
/// triggering message where the bot is tidy.
pub open spec fn run_model(
    bot: BotView,
    presence: Seq<char>,
    command: Command,
    arguments: Seq<Seq<char>>,
    inv: InvocationView,
    now_ms: u64,
) -> (BotView, Seq<char>, StepView) {
    match command {
        Command::Card => unchanged(
            bot,
            presence,
            closed_step(card_step(CardCommand::Card, query_of(arguments)), bot.tidy),
        ),
        Command::DoubleCard => unchanged(
            bot,
            presence,
            closed_step(card_step(CardCommand::DoubleCard, query_of(arguments)), bot.tidy),
        ),
        Command::RandomSearch => unchanged(
            bot,
            presence,
            closed_step(card_step(CardCommand::RandomSearch, query_of(arguments)), bot.tidy),
        ),
        Command::BlackWhiteLands => unchanged(
            bot,
            presence,
            StepView::Done(tidied(lands_effects(), bot.tidy)),
        ),
        Command::Join => unchanged(
            bot,
            presence,
            closed_step(join_step(inv.guild, inv.author_channel), bot.tidy),
        ),
        Command::Leave => unchanged(
            bot,
            presence,
            closed_step(leave_step(bot.registry, inv.guild), bot.tidy),
        ),
        Command::Mute | Command::Unmute | Command::Deafen | Command::Undeafen => {
            let (flag, on) = flag_command(command).unwrap();
            unchanged(
                bot,
                presence,
                closed_step(flag_step(bot.registry, inv.guild, flag, on), bot.tidy),
            )
        },
        Command::Play | Command::SearchAndPlay | Command::SearchAndPlayLoop => unchanged(
            bot,
            presence,
            closed_step(
                play_step(bot.registry, inv.guild, play_source(command, arguments), inv.author),
                bot.tidy,
            ),
        ),
        Command::Stop => {
            let (next, shown, effects) = after_turn(
                bot,
                stop_turn(bot.registry, presence, inv.guild, bot.default_activity),
            );
            (next, shown, StepView::Done(effects))
        },
        Command::Skip => {
            let (next, effects) = after_change(bot, skip_change(bot.registry, inv.guild, now_ms));
            (next, presence, StepView::Done(effects))
        },
        Command::Help => unchanged(
            bot,
            presence,
            StepView::Done(tidied(say(help_text(bot.table)), bot.tidy)),
        ),
        Command::Aliases => unchanged(
            bot,
            presence,
            StepView::Done(tidied(say(aliases_text(bot.table)), bot.tidy)),
        ),
    }
}

/// What a message does to the bot and to the presence, and the step it
/// gives. A message written by a bot or sent through a webhook, and a
/// message the router does not run, change nothing and are passed over; one
/// the router runs is run on the arguments lexed from its argument text.
pub open spec fn begin_model(
    bot: BotView,
    presence: Seq<char>,
    inv: InvocationView,
    now_ms: u64,
) -> (BotView, Seq<char>, StepView) {
    if inv.from_bot || inv.from_webhook {
        (bot, presence, StepView::Ignore)
    } else {
        match route(bot.prefixes, bot.table, inv.text, inv.guild is Some) {
            RoutedView::Run { command, args } => run_model(
                bot,
                presence,
                command,
                raw_arguments(args),
                inv,
                now_ms,
            ),
            _ => (bot, presence, StepView::Ignore),
        }
    }
}

impl Bot {
    /// Whether the bot is well formed: its registry is.
    pub open spec fn wf(&self) -> bool {
        self.registry.wf()
    }

    /// Sets a bot up.
    pub fn new(
        prefixes: Vec<String>,
        table: Vec<CommandEntry>,
        default_activity: &str,
        tidy: bool,
    ) -> (bot: Bot)
        ensures
            bot.wf(),
            bot@ == fresh_bot(views(prefixes@), entry_views(table@), default_activity@, tidy),
    {
        Bot {
            router: Router::new(prefixes, table),
            registry: VoiceRegistry::new(),
            default_activity: String::from_str(default_activity),
            tidy,
        }
    }

    /// The card bot: the default prefixes, the card commands, tidy.
    pub fn card_bot() -> (bot: Bot)
        ensures
            bot.wf(),
            bot@ == fresh_bot(prefix_texts(), card_lines(), card_activity(), true),
    {
        Bot::new(default_prefixes(), card_table(), "Pondering Scryfall..", true)
    }

    /// The voice bot: the default prefixes, the voice commands, tidy.
    pub fn voice_bot(default_activity: &str) -> (bot: Bot)
        ensures
            bot.wf(),
            bot@ == fresh_bot(prefix_texts(), voice_lines(), default_activity@, true),
    {
        Bot::new(default_prefixes(), voice_table(), default_activity, true)
    }

    /// A holder of the presence text that shows this bot's default
    /// activity.
    pub fn fresh_presence(&self) -> (presence: Presence)
        ensures
            presence@ == self@.default_activity,
    {
        Presence::new(self.default_activity.as_str())
    }

    /// What to do once the gateway is ready: show the default activity.
    pub fn on_ready(&self, presence: &mut Presence) -> (effects: Vec<Effect>)
        ensures
            final(presence)@ == self@.default_activity,
            effect_views(effects@) == seq![EffectView::SetPresence(self@.default_activity)],
    {
        let mut effects: Vec<Effect> = Vec::new();
        effects.push(presence.set(self.default_activity.as_str()));
        effects
    }

    /// Runs `command` on arguments that have been lexed already.
    pub fn run_with(
        &mut self,
        presence: &mut Presence,
        command: Command,
        arguments: &Vec<String>,
        inv: &Invocation,
        now_ms: u64,
    ) -> (step: Step)
        requires
            old(self).wf(),
        ensures
            final(self).wf(),
            (final(self)@, final(presence)@, step@) == run_model(
                old(self)@,
                old(presence)@,
                command,
                views(arguments@),
                inv@,
                now_ms,
            ),
    {
        let tidy = self.tidy;
        match command {
            Command::Card => close_step(
                plan_card(CardCommand::Card, join_arguments(arguments)),
                tidy,
            ),
            Command::DoubleCard => close_step(
                plan_card(CardCommand::DoubleCard, join_arguments(arguments)),
                tidy,
            ),
            Command::RandomSearch => close_step(
                plan_card(CardCommand::RandomSearch, join_arguments(arguments)),
                tidy,
            ),
            Command::BlackWhiteLands => Step::Done(tidy_up(compose_lands_reply(), tidy)),
            Command::Join => close_step(plan_join(inv.guild, inv.author_channel), tidy),
            Command::Leave => close_step(plan_leave(&self.registry, inv.guild), tidy),
            Command::Mute => close_step(
                plan_flag(&self.registry, inv.guild, VoiceFlag::Mute, true),
                tidy,
            ),
            Command::Unmute => close_step(
                plan_flag(&self.registry, inv.guild, VoiceFlag::Mute, false),
                tidy,
            ),
            Command::Deafen => close_step(
                plan_flag(&self.registry, inv.guild, VoiceFlag::Deafen, true),
                tidy,
            ),
            Command::Undeafen => close_step(
                plan_flag(&self.registry, inv.guild, VoiceFlag::Deafen, false),
                tidy,
            ),
            Command::Play | Command::SearchAndPlay | Command::SearchAndPlayLoop => close_step(
                plan_play(
                    &self.registry,
                    inv.guild,
                    pick_source(command, arguments),
                    inv.author.as_str(),
                ),
                tidy,
            ),
            Command::Stop => {
                let effects = stop(
                    &mut self.registry,
                    presence,
                    inv.guild,
                    self.default_activity.as_str(),
                );
                Step::Done(tidy_up(effects, tidy))
            },
            Command::Skip => {
                let effects = skip(&mut self.registry, inv.guild, now_ms);
                Step::Done(tidy_up(effects, tidy))
            },
            Command::Help => Step::Done(tidy_up(say_text(compose_help(&self.router.table)), tidy)),
            Command::Aliases => Step::Done(
                tidy_up(say_text(compose_aliases(&self.router.table)), tidy),
            ),
        }
    }

    /// Takes one incoming message, at clock reading `now_ms`.
    pub fn begin(&mut self, presence: &mut Presence, inv: &Invocation, now_ms: u64) -> (step: Step)
        requires
            old(self).wf(),
        ensures
            final(self).wf(),
            (final(self)@, final(presence)@, step@) == begin_model(
                old(self)@,
                old(presence)@,
                inv@,
                now_ms,
            ),
    {
        if inv.from_bot || inv.from_webhook {
            return Step::Ignore;
        }
        match self.router.route(inv.text.as_str(), inv.guild.is_some()) {
            Routed::Run { command, args } => {
                let arguments = lex_arguments(args.as_str());
                self.run_with(presence, command, &arguments, inv, now_ms)
            },
            _ => Step::Ignore,
        }
    }

    /// Finishes a card command: `lookup` is what the card service answered
    /// and `elapsed_ms` how long it took to.
    pub fn finish_card(
        &self,
        command: CardCommand,
        lookup: &Result<CardRecord, String>,
        elapsed_ms: u128,
    ) -> (effects: Vec<Effect>)
        ensures
            effect_views(effects@) == tidied(
                card_effects(command, lookup_view(*lookup), elapsed_ms as nat),
                self@.tidy,
            ),
    {
        tidy_up(compose_card_reply(command, lookup, elapsed_ms), self.tidy)
    }

    /// Finishes a join: `outcome` is what the transport answered to the
    /// request to join `channel` of `guild`.
    pub fn finish_join(&mut self, guild: u64, channel: u64, outcome: &Result<(), String>) -> (effects:
        Vec<Effect>)
        requires
            old(self).wf(),
        ensures
            final(self).wf(),
            (final(self)@, effect_views(effects@)) == after_change(
                old(self)@,
                join_change(old(self)@.registry, guild, channel, transport_view(*outcome)),
            ),
    {
        let effects = finish_join(&mut self.registry, guild, channel, outcome);
        tidy_up(effects, self.tidy)
    }

    /// Finishes a leave: `outcome` is what the transport answered to the
    /// request to leave `guild`.
    pub fn finish_leave(
        &mut self,
        presence: &mut Presence,
        guild: u64,
        outcome: &Result<(), String>,
    ) -> (effects: Vec<Effect>)
        requires
            old(self).wf(),
        ensures
            final(self).wf(),
            (final(self)@, final(presence)@, effect_views(effects@)) == after_turn(
                old(self)@,
                leave_turn(
                    old(self)@.registry,
                    old(presence)@,
                    guild,
                    old(self)@.default_activity,
                    transport_view(*outcome),
                ),
            ),
    {
        let effects = finish_leave(
            &mut self.registry,
            presence,
            guild,
            self.default_activity.as_str(),
            outcome,
        );
        tidy_up(effects, self.tidy)
    }

    /// Finishes a mute, unmute, deafen or undeafen: `outcome` is what the
    /// transport answered to the request to set `flag` of `guild` to `on`.
    pub fn finish_flag(
        &mut self,
        guild: u64,
        flag: VoiceFlag,
        on: bool,
        outcome: &Result<(), String>,
    ) -> (effects: Vec<Effect>)
        requires
            old(self).wf(),
        ensures
            final(self).wf(),
            (final(self)@, effect_views(effects@)) == after_change(
                old(self)@,
                flag_change(old(self)@.registry, guild, flag, on, transport_view(*outcome)),
            ),
    {
        let effects = finish_flag(&mut self.registry, guild, flag, on, outcome);
        tidy_up(effects, self.tidy)
    }

    /// Finishes a play: `outcome` is what the resolver answered, at clock
    /// reading `now_ms`, to the request made for `requester`; `looped` tells
    /// whether the track is to start over each time it ends.
    pub fn finish_resolve(
        &mut self,
        guild: u64,
        looped: bool,
        requester: String,
        outcome: Result<Track, String>,
        now_ms: u64,
    ) -> (effects: Vec<Effect>)
        requires
            old(self).wf(),
        ensures
            final(self).wf(),
            (final(self)@, effect_views(effects@)) == after_change(
                old(self)@,
                resolve_change(
                    old(self)@.registry,
                    guild,
                    looped,
                    requester@,
                    resolution_view(outcome),
                    now_ms,
                ),
            ),
    {
        let effects = finish_resolve(&mut self.registry, guild, looped, requester, outcome, now_ms);
        tidy_up(effects, self.tidy)
    }
}

} // verus!
