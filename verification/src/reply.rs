//! What a handler asks the surrounding program to do once it has decided:
//! messages to send, the triggering message to delete, the presence text to
//! show, playback to start or halt.

use vstd::prelude::*;
use vstd::string::*;

use crate::text::text_view;

verus! {

/// One named value of a rich message.
#[derive(Clone, Debug, PartialEq, Eq)]
pub struct Field {
    pub name: String,
    pub value: String,
}

/// The mathematical value of a [`Field`].
pub struct FieldView {
    pub name: Seq<char>,
    pub value: Seq<char>,
}

impl View for Field {
    type V = FieldView;

    open spec fn view(&self) -> FieldView {
        FieldView { name: self.name@, value: self.value@ }
    }
}

/// A message with a title, a description, an optional thumbnail and a list
/// of named values.
#[derive(Clone, Debug, PartialEq, Eq)]
pub struct RichContent {
    pub title: String,
    pub description: String,
    pub thumbnail: Option<String>,
    pub fields: Vec<Field>,
}

/// The mathematical value of a [`RichContent`].
pub struct RichView {
    pub title: Seq<char>,
    pub description: Seq<char>,
    pub thumbnail: Option<Seq<char>>,
    pub fields: Seq<FieldView>,
}

/// The view of every field in a list.
pub open spec fn field_views(fields: Seq<Field>) -> Seq<FieldView> {
    fields.map_values(|f: Field| f@)
}

impl View for RichContent {
    type V = RichView;

    open spec fn view(&self) -> RichView {
        RichView {
            title: self.title@,
            description: self.description@,
            thumbnail: text_view(self.thumbnail),
            fields: field_views(self.fields@),
        }
    }
}

/// One thing for the surrounding program to carry out.
#[derive(Clone, Debug, PartialEq, Eq)]
pub enum Effect {
    /// Send a plain text message to the channel the command came from.
    Say(String),
    /// Send a rich message to the channel the command came from.
    SayRich(RichContent),
    /// Delete the message that triggered the command.
    DeleteTrigger,
    /// Show this activity text as the bot's presence.
    SetPresence(String),
    /// Start playing a resolved stream in a guild's voice channel.
    StartPlayback { guild: u64, stream: u64, looped: bool },
    /// Halt whatever is playing in a guild's voice channel.
    HaltPlayback { guild: u64 },
}

/// The mathematical value of an [`Effect`].
pub enum EffectView {
    Say(Seq<char>),
    SayRich(RichView),
    DeleteTrigger,
    SetPresence(Seq<char>),
    StartPlayback { guild: u64, stream: u64, looped: bool },
    HaltPlayback { guild: u64 },
}

impl View for Effect {
    type V = EffectView;

    open spec fn view(&self) -> EffectView {
        match *self {
            Effect::Say(text) => EffectView::Say(text@),
            Effect::SayRich(content) => EffectView::SayRich(content@),
            Effect::DeleteTrigger => EffectView::DeleteTrigger,
            Effect::SetPresence(text) => EffectView::SetPresence(text@),
            Effect::StartPlayback { guild, stream, looped } => EffectView::StartPlayback {
                guild,
                stream,
                looped,
            },
            Effect::HaltPlayback { guild } => EffectView::HaltPlayback { guild },
        }
    }
}

/// The view of every effect in a list.
pub open spec fn effect_views(effects: Seq<Effect>) -> Seq<EffectView> {
    effects.map_values(|e: Effect| e@)
}

/// A plain text message for each text of a list, in order.
pub open spec fn say_each(texts: Seq<Seq<char>>) -> Seq<EffectView> {
    texts.map_values(|t: Seq<char>| EffectView::Say(t))
}

/// Builds a named value.
pub fn field(name: &str, value: String) -> (f: Field)
    ensures
        f@ == (FieldView { name: name@, value: value@ }),
{
    Field { name: String::from_str(name), value }
}

} // verus!
