//! The activity text the bot shows as its presence.
//!
//! The text is one value for the whole process: set at startup and set
//! again by the handlers that restore it.

use vstd::prelude::*;
use vstd::string::*;

use crate::reply::{Effect, EffectView};

verus! {

/// The activity text the card bot starts with.
pub open spec fn card_activity() -> Seq<char> {
    "Pondering Scryfall.."@
}

/// The line noted for each guild the bot finds itself in at startup.
pub open spec fn connected_line(user: Seq<char>, guild: Seq<char>) -> Seq<char> {
    user + " is connected to: "@ + guild
}

/// The holder of the presence text. Its view is the text shown.
pub struct Presence {
    text: String,
}

impl View for Presence {
    type V = Seq<char>;

    closed spec fn view(&self) -> Seq<char> {
        self.text@
    }
}

impl Presence {
    /// A holder that shows `text`.
    pub fn new(text: &str) -> (p: Self)
        ensures
            p@ == text@,
    {
        Presence { text: String::from_str(text) }
    }

    /// Shows `text` from now on, and returns the effect that makes the
    /// gateway show it.
    pub fn set(&mut self, text: &str) -> (effect: Effect)
        ensures
            final(self)@ == text@,
            effect@ == EffectView::SetPresence(text@),
    {
        self.text = String::from_str(text);
        Effect::SetPresence(String::from_str(text))
    }

    /// The text shown.
    pub fn text(&self) -> (r: &str)
        ensures
            r@ == self@,
    {
        self.text.as_str()
    }
}

/// Writes the line noted for a guild the bot finds itself in at startup.
pub fn compose_connected_line(user: &str, guild: &str) -> (r: String)
    ensures
        r@ == connected_line(user@, guild@),
{
    let mut r = String::from_str(user);
    r.append(" is connected to: ");
    r.append(guild);
    r
}

} // verus!
