//! What a handler decides on first: to pass a message over, to answer at
//! once, or to have one call made to a collaborator.

use vstd::prelude::*;
use vstd::string::*;

use crate::card::CardCommand;
use crate::errors::{message, BotError, VoiceFlag};
use crate::reply::{effect_views, Effect, EffectView};

verus! {

/// What the audio resolver is asked to resolve.
#[derive(Clone, Debug, PartialEq, Eq)]
pub enum Source {
    /// The address of one audio source.
    Url(String),
    /// Words to search a source for.
    Search(String),
    /// Words to search a source for; the track found starts over each time
    /// it ends.
    SearchLoop(String),
}

/// The mathematical value of a [`Source`].
pub enum SourceView {
    Url(Seq<char>),
    Search(Seq<char>),
    SearchLoop(Seq<char>),
}

impl View for Source {
    type V = SourceView;

    open spec fn view(&self) -> SourceView {
        match *self {
            Source::Url(url) => SourceView::Url(url@),
            Source::Search(words) => SourceView::Search(words@),
            Source::SearchLoop(words) => SourceView::SearchLoop(words@),
        }
    }
}

/// Whether a track resolved from `source` starts over each time it ends.
pub open spec fn loops(source: SourceView) -> bool {
    source is SearchLoop
}

impl Source {
    /// Tells whether a track resolved from this source starts over each
    /// time it ends.
    pub fn loops(&self) -> (r: bool)
        ensures
            r == loops(self@),
    {
        match self {
            Source::SearchLoop(_) => true,
            _ => false,
        }
    }
}

/// The one call a handler has the surrounding program make.
#[derive(Clone, Debug, PartialEq, Eq)]
pub enum Request {
    /// Ask the card service for the card with this approximate name.
    FetchCard { command: CardCommand, name: String },
    /// Ask the card service for any card.
    FetchRandomCard,
    /// Ask the voice transport to join a channel of a guild.
    JoinChannel { guild: u64, channel: u64 },
    /// Ask the voice transport to leave the channel of a guild.
    LeaveChannel { guild: u64 },
    /// Ask the voice transport to set a flag.
    SetFlag { guild: u64, flag: VoiceFlag, on: bool },
    /// Ask the audio resolver for a playable stream.
    Resolve { guild: u64, source: Source, requester: String },
}

/// The mathematical value of a [`Request`].
pub enum RequestCall {
    FetchCard { command: CardCommand, name: Seq<char> },
    FetchRandomCard,
    JoinChannel { guild: u64, channel: u64 },
    LeaveChannel { guild: u64 },
    SetFlag { guild: u64, flag: VoiceFlag, on: bool },
    Resolve { guild: u64, source: SourceView, requester: Seq<char> },
}

impl View for Request {
    type V = RequestCall;

    open spec fn view(&self) -> RequestCall {
        match *self {
            Request::FetchCard { command, name } => RequestCall::FetchCard { command, name: name@ },
            Request::FetchRandomCard => RequestCall::FetchRandomCard,
            Request::JoinChannel { guild, channel } => RequestCall::JoinChannel { guild, channel },
            Request::LeaveChannel { guild } => RequestCall::LeaveChannel { guild },
            Request::SetFlag { guild, flag, on } => RequestCall::SetFlag { guild, flag, on },
            Request::Resolve { guild, source, requester } => RequestCall::Resolve {
                guild,
                source: source@,
                requester: requester@,
            },
        }
    }
}

/// What a handler decided on.
#[derive(Clone, Debug, PartialEq, Eq)]
pub enum Step {
    /// The message is no command for this bot: do nothing, say nothing.
    Ignore,
    /// The command is answered: carry these effects out, in order.
    Done(Vec<Effect>),
    /// Make this call, then hand what came back to the function that
    /// finishes the command.
    Call(Request),
}

/// The mathematical value of a [`Step`].
pub enum StepView {
    Ignore,
    Done(Seq<EffectView>),
    Call(RequestCall),
}

impl View for Step {
    type V = StepView;

    open spec fn view(&self) -> StepView {
        match *self {
            Step::Ignore => StepView::Ignore,
            Step::Done(effects) => StepView::Done(effect_views(effects@)),
            Step::Call(request) => StepView::Call(request@),
        }
    }
}

/// The single message `text`.
pub open spec fn say(text: Seq<char>) -> Seq<EffectView> {
    seq![EffectView::Say(text)]
}

/// The answer to a command that is refused: the text of the failure, and no
/// call.
pub open spec fn refused(e: BotError) -> StepView {
    StepView::Done(say(message(e)))
}

/// `effects`, followed by the deletion of the triggering message where the
/// bot is set up to keep channels tidy.
pub open spec fn tidied(effects: Seq<EffectView>, tidy: bool) -> Seq<EffectView> {
    if tidy {
        effects.push(EffectView::DeleteTrigger)
    } else {
        effects
    }
}

/// `step`, its effects tidied where it is an answer.
pub open spec fn closed_step(step: StepView, tidy: bool) -> StepView {
    match step {
        StepView::Done(effects) => StepView::Done(tidied(effects, tidy)),
        _ => step,
    }
}

/// The single message `text`.
pub fn say_text(text: String) -> (effects: Vec<Effect>)
    ensures
        effect_views(effects@) == say(text@),
{
    let mut effects: Vec<Effect> = Vec::new();
    effects.push(Effect::Say(text));
    effects
}

/// Refuses a command with the text of a failure.
pub fn refuse(e: BotError) -> (step: Step)
    ensures
        step@ == refused(e),
{
    Step::Done(say_text(e.message()))
}

/// Appends the deletion of the triggering message where `tidy` is set.
pub fn tidy_up(effects: Vec<Effect>, tidy: bool) -> (r: Vec<Effect>)
    ensures
        effect_views(r@) == tidied(effect_views(effects@), tidy),
{
    let mut effects = effects;
    if tidy {
        effects.push(Effect::DeleteTrigger);
    }
    effects
}

/// Tidies the effects of a step that is an answer.
pub fn close_step(step: Step, tidy: bool) -> (r: Step)
    ensures
        r@ == closed_step(step@, tidy),
{
    match step {
        Step::Done(effects) => Step::Done(tidy_up(effects, tidy)),
        other => other,
    }
}

} // verus!
