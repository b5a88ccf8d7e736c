//! The fixed list of lands that produce black and white mana.

use vstd::prelude::*;
use vstd::string::*;

use crate::reply::{effect_views, Effect, EffectView};
use crate::text::{join, joined, views};

verus! {

/// The names of the lands, in the order they are listed to the user.
pub open spec fn land_names() -> Seq<Seq<char>> {
    seq![
        "Neglected Manor"@,
        "Forlorn Flats"@,
        "Shadowy Backstreet"@,
        "Scoured Barrens"@,
        "Sunlit Marsh"@,
        "Concealed Courtyard"@,
        "Caves of Koilos"@,
        "Restless Fortress"@,
        "Godless Shrine"@,
        "Marsh Flats"@,
        "Temple of Silence"@,
        "Orzhov Guildgate"@,
        "Shattered Sanctum"@,
        "Silverquill Campus"@,
        "Shineshadow Snarl"@,
        "Snowfield Sinkhole"@,
        "Isolated Chapel"@,
        "Forsaken Sanctuary"@,
        "Shambling Vent"@,
        "Brightclimb Pathway"@,
        "Goldmire Bridge"@,
        "Silent Clearing"@,
        "Fetid Heath"@,
        "Orzhov Basilica"@,
    ]
}

/// The answer to the lands command: one message, the names separated by a
/// comma and a space.
pub open spec fn lands_effects() -> Seq<EffectView> {
    seq![EffectView::Say(joined(land_names(), ", "@))]
}

/// The names of the lands.
pub fn black_white_lands() -> (names: Vec<String>)
    ensures
        views(names@) == land_names(),
{
    let mut names: Vec<String> = Vec::new();
    names.push(String::from_str("Neglected Manor"));
    names.push(String::from_str("Forlorn Flats"));
    names.push(String::from_str("Shadowy Backstreet"));
    names.push(String::from_str("Scoured Barrens"));
    names.push(String::from_str("Sunlit Marsh"));
    names.push(String::from_str("Concealed Courtyard"));
    names.push(String::from_str("Caves of Koilos"));
    names.push(String::from_str("Restless Fortress"));
    names.push(String::from_str("Godless Shrine"));
    names.push(String::from_str("Marsh Flats"));
    names.push(String::from_str("Temple of Silence"));
    names.push(String::from_str("Orzhov Guildgate"));
    names.push(String::from_str("Shattered Sanctum"));
    names.push(String::from_str("Silverquill Campus"));
    names.push(String::from_str("Shineshadow Snarl"));
    names.push(String::from_str("Snowfield Sinkhole"));
    names.push(String::from_str("Isolated Chapel"));
    names.push(String::from_str("Forsaken Sanctuary"));
    names.push(String::from_str("Shambling Vent"));
    names.push(String::from_str("Brightclimb Pathway"));
    names.push(String::from_str("Goldmire Bridge"));
    names.push(String::from_str("Silent Clearing"));
    names.push(String::from_str("Fetid Heath"));
    names.push(String::from_str("Orzhov Basilica"));
    names
}

/// Composes the answer to the lands command.
pub fn compose_lands_reply() -> (effects: Vec<Effect>)
    ensures
        effect_views(effects@) == lands_effects(),
{
    let names = black_white_lands();
    let mut effects: Vec<Effect> = Vec::new();
    effects.push(Effect::Say(join(&names, ", ")));
    effects
}

} // verus!
