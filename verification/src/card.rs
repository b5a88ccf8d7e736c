//! Card lookups: the record a lookup yields and the messages it is answered
//! with.
//!
//! The lookup itself is made by the surrounding program. What it brings
//! back, a record or the card service's report of a failure, is turned
//! here into the list of messages to send.

use vstd::prelude::*;
use vstd::string::*;

use crate::errors::BotError;
use crate::reply::{effect_views, say_each, Effect, EffectView};
use crate::step::{refuse, refused, Request, RequestCall, Step, StepView};
use crate::text::{decimal, decimal_string, text_view};

verus! {

/// Whether a card may be played in a format.
#[derive(Clone, Copy, Debug, PartialEq, Eq, Structural)]
pub enum Legality {
    Legal,
    NotLegal,
    Restricted,
    Banned,
    /// The card service gave a status this program does not know.
    Unknown,
}

/// The three commands that look a card up.
#[derive(Clone, Copy, Debug, PartialEq, Eq, Structural)]
pub enum CardCommand {
    /// Look a card up by an approximate name.
    Card,
    /// Look a card up by an approximate name; the summary leaves the
    /// printing out.
    DoubleCard,
    /// Take any card at random.
    RandomSearch,
}

/// What the reply composers read of a card.
#[derive(Clone, Debug, PartialEq, Eq)]
pub struct CardRecord {
    pub name: String,
    /// The set this printing belongs to.
    pub set_name: String,
    pub modern: Legality,
    pub pauper: Legality,
    pub commander: Legality,
    /// The price in US dollars. A card without one is an ordinary outcome.
    pub price_usd: Option<String>,
    /// The card's single image, where it has one.
    pub image: Option<String>,
    /// For each face of a card with several faces, that face's image where
    /// it has one. Empty for a card with a single face.
    pub faces: Vec<Option<String>>,
    /// The card's page, sent where no image can be.
    pub link: String,
}

/// The mathematical value of a [`CardRecord`].
pub struct CardView {
    pub name: Seq<char>,
    pub set_name: Seq<char>,
    pub modern: Legality,
    pub pauper: Legality,
    pub commander: Legality,
    pub price_usd: Option<Seq<char>>,
    pub image: Option<Seq<char>>,
    pub faces: Seq<Option<Seq<char>>>,
    pub link: Seq<char>,
}

/// The view of every optional text in a list.
pub open spec fn text_views(texts: Seq<Option<String>>) -> Seq<Option<Seq<char>>> {
    texts.map_values(|t: Option<String>| text_view(t))
}

impl View for CardRecord {
    type V = CardView;

    open spec fn view(&self) -> CardView {
        CardView {
            name: self.name@,
            set_name: self.set_name@,
            modern: self.modern,
            pauper: self.pauper,
            commander: self.commander,
            price_usd: text_view(self.price_usd),
            image: text_view(self.image),
            faces: text_views(self.faces@),
            link: self.link@,
        }
    }
}

/// The view of what a lookup brought back.
pub open spec fn lookup_view(lookup: Result<CardRecord, String>) -> Result<CardView, Seq<char>> {
    match lookup {
        Ok(card) => Ok(card@),
        Err(report) => Err(report@),
    }
}

/// The note sent, before the link, for a card that has no single image but
/// has faces with images.
pub open spec fn multi_face_note() -> Seq<char> {
    "Unable to find Card Image (Possibly a double faced card). Here is Scryfall link:"@
}

/// The word a legality is shown as.
pub open spec fn legality_name(l: Legality) -> Seq<char> {
    match l {
        Legality::Legal => "Legal"@,
        Legality::NotLegal => "NotLegal"@,
        Legality::Restricted => "Restricted"@,
        Legality::Banned => "Banned"@,
        Legality::Unknown => "Unknown"@,
    }
}

/// The first message of a successful lookup: the price behind the command's
/// label, or the statement that there is none.
pub open spec fn price_line(cmd: CardCommand, price: Option<Seq<char>>) -> Seq<char> {
    match price {
        Some(p) => if cmd == CardCommand::RandomSearch {
            "Random ass card found! (USD): $"@ + p
        } else {
            "Card Price (USD): $"@ + p
        },
        None => "Unable to find Card Price (USD)"@,
    }
}

/// The images of those faces that have one, in the order of the faces.
pub open spec fn face_images(faces: Seq<Option<Seq<char>>>) -> Seq<Seq<char>>
    decreases faces.len(),
{
    if faces.len() == 0 {
        Seq::empty()
    } else {
        match faces.last() {
            Some(image) => face_images(faces.drop_last()).push(image),
            None => face_images(faces.drop_last()),
        }
    }
}

/// The messages that show the card:
/// - its single image, where it has one;
/// - else, where faces have images: the note that the card has several
///   faces, the link, then each face's image in order;
/// - else the link alone.
pub open spec fn image_part(card: CardView) -> Seq<EffectView> {
    match card.image {
        Some(image) => seq![EffectView::Say(image)],
        None => if face_images(card.faces).len() > 0 {
            seq![EffectView::Say(multi_face_note()), EffectView::Say(card.link)] + say_each(
                face_images(card.faces),
            )
        } else {
            seq![EffectView::Say(card.link)]
        },
    }
}

/// The last message of a successful lookup: how long the lookup took and the
/// card's legality in three formats, one per line; for every command but the
/// double-faced one a last line names the printing.
pub open spec fn summary(cmd: CardCommand, card: CardView, elapsed_ms: nat) -> Seq<char> {
    let head = "Fetch time in ms: "@ + decimal(elapsed_ms) + "\nModern: "@ + legality_name(
        card.modern,
    ) + "\nPauper: "@ + legality_name(card.pauper) + "\nCommander: "@ + legality_name(
        card.commander,
    );
    if cmd == CardCommand::DoubleCard {
        head
    } else {
        head + "\nPrinting: "@ + card.set_name
    }
}

/// Everything a card command answers with.
///
/// A failed lookup gives exactly one message: the card service's own report
/// of the failure, as it stands, which is how
/// [`BotError::CollaboratorUnreachable`] is shown. A successful one gives
/// the price line, the messages that show the card, and the summary.
pub open spec fn card_effects(
    cmd: CardCommand,
    lookup: Result<CardView, Seq<char>>,
    elapsed_ms: nat,
) -> Seq<EffectView> {
    match lookup {
        Err(report) => seq![EffectView::Say(report)],
        Ok(card) => seq![EffectView::Say(price_line(cmd, card.price_usd))] + image_part(card)
            + seq![EffectView::Say(summary(cmd, card, elapsed_ms))],
    }
}

/// The first part of a card command. The random search asks for any card;
/// the other two ask for the card named by the search text, and are refused
/// with `InvalidArgument` where there is none.
pub open spec fn card_step(cmd: CardCommand, query: Option<Seq<char>>) -> StepView {
    if cmd == CardCommand::RandomSearch {
        StepView::Call(RequestCall::FetchRandomCard)
    } else {
        match query {
            Some(name) => StepView::Call(RequestCall::FetchCard { command: cmd, name }),
            None => refused(BotError::InvalidArgument),
        }
    }
}

impl Legality {
    /// The word this legality is shown as.
    pub fn name(&self) -> (r: &'static str)
        ensures
            r@ == legality_name(*self),
    {
        match self {
            Legality::Legal => "Legal",
            Legality::NotLegal => "NotLegal",
            Legality::Restricted => "Restricted",
            Legality::Banned => "Banned",
            Legality::Unknown => "Unknown",
        }
    }
}

/// Writes the price line of a card.
pub fn compose_price_line(cmd: CardCommand, price: &Option<String>) -> (r: String)
    ensures
        r@ == price_line(cmd, text_view(*price)),
{
    match price {
        Some(p) => {
            let mut r = match cmd {
                CardCommand::RandomSearch => String::from_str("Random ass card found! (USD): $"),
                _ => String::from_str("Card Price (USD): $"),
            };
            r.append(p.as_str());
            r
        },
        None => String::from_str("Unable to find Card Price (USD)"),
    }
}

/// Writes the summary of a card.
pub fn compose_summary(cmd: CardCommand, card: &CardRecord, elapsed_ms: u128) -> (r: String)
    ensures
        r@ == summary(cmd, card@, elapsed_ms as nat),
{
    let mut r = String::from_str("Fetch time in ms: ");
    let elapsed = decimal_string(elapsed_ms);
    r.append(elapsed.as_str());
    r.append("\nModern: ");
    r.append(card.modern.name());
    r.append("\nPauper: ");
    r.append(card.pauper.name());
    r.append("\nCommander: ");
    r.append(card.commander.name());
    match cmd {
        CardCommand::DoubleCard => {},
        _ => {
            r.append("\nPrinting: ");
            r.append(card.set_name.as_str());
        },
    }
    r
}

/// Appends to `effects` the messages that show `card`.
pub fn push_image_part(effects: &mut Vec<Effect>, card: &CardRecord)
    ensures
        effect_views(final(effects)@) == effect_views(old(effects)@) + image_part(card@),
{
    match &card.image {
        Some(image) => {
            effects.push(Effect::Say(image.clone()));
        },
        None => {
            let ghost faces = text_views(card.faces@);
            let mut images: Vec<Effect> = Vec::new();
            let mut i: usize = 0;
            while i < card.faces.len()
                invariant
                    i <= card.faces.len(),
                    faces == text_views(card.faces@),
                    effect_views(images@) == say_each(face_images(faces.take(i as int))),
                decreases card.faces.len() - i,
            {
                assert(faces.take(i + 1).drop_last() =~= faces.take(i as int));
                let ghost sent = effect_views(images@);
                match &card.faces[i] {
                    Some(image) => {
                        images.push(Effect::Say(image.clone()));
                        assert(effect_views(images@) =~= sent.push(EffectView::Say(image@)));
                    },
                    None => {},
                }
                i += 1;
            }
            assert(faces.take(card.faces.len() as int) =~= faces);
            if images.len() > 0 {
                effects.push(
                    Effect::Say(
                        String::from_str(
                            "Unable to find Card Image (Possibly a double faced card). Here is Scryfall link:",
                        ),
                    ),
                );
                effects.push(Effect::Say(card.link.clone()));
                effects.append(&mut images);
            } else {
                effects.push(Effect::Say(card.link.clone()));
            }
        },
    }
}

/// Composes the answer to a card command from what the lookup brought back
/// and the time the lookup took.
pub fn compose_card_reply(
    cmd: CardCommand,
    lookup: &Result<CardRecord, String>,
    elapsed_ms: u128,
) -> (effects: Vec<Effect>)
    ensures
        effect_views(effects@) == card_effects(cmd, lookup_view(*lookup), elapsed_ms as nat),
{
    let mut effects: Vec<Effect> = Vec::new();
    match lookup {
        Err(report) => {
            effects.push(
                Effect::Say(BotError::CollaboratorUnreachable.message_with(report.as_str())),
            );
        },
        Ok(card) => {
            effects.push(Effect::Say(compose_price_line(cmd, &card.price_usd)));
            push_image_part(&mut effects, card);
            let ghost shown = effect_views(effects@);
            effects.push(Effect::Say(compose_summary(cmd, card, elapsed_ms)));
            assert(effect_views(effects@) =~= shown + seq![
                EffectView::Say(summary(cmd, card@, elapsed_ms as nat)),
            ]);
        },
    }
    effects
}

/// The first part of a card command: names the lookup to make for the
/// search text `query`.
pub fn plan_card(cmd: CardCommand, query: Option<String>) -> (step: Step)
    ensures
        step@ == card_step(cmd, text_view(query)),
{
    match cmd {
        CardCommand::RandomSearch => Step::Call(Request::FetchRandomCard),
        _ => match query {
            Some(name) => Step::Call(Request::FetchCard { command: cmd, name }),
            None => refuse(BotError::InvalidArgument),
        },
    }
}

} // verus!
