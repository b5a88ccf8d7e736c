use bot_core::lands::{black_white_lands, compose_lands_reply};
use bot_core::reply::Effect;

#[test]
fn there_are_twenty_four_lands_in_their_order() {
    let names = black_white_lands();
    assert_eq!(names.len(), 24);
    assert_eq!(names[0], "Neglected Manor");
    assert_eq!(names[8], "Godless Shrine");
    assert_eq!(names[23], "Orzhov Basilica");
}

#[test]
fn the_lands_reply_is_one_comma_separated_message() {
    let expected = "Neglected Manor, Forlorn Flats, Shadowy Backstreet, Scoured Barrens, \
Sunlit Marsh, Concealed Courtyard, Caves of Koilos, Restless Fortress, Godless Shrine, \
Marsh Flats, Temple of Silence, Orzhov Guildgate, Shattered Sanctum, Silverquill Campus, \
Shineshadow Snarl, Snowfield Sinkhole, Isolated Chapel, Forsaken Sanctuary, Shambling Vent, \
Brightclimb Pathway, Goldmire Bridge, Silent Clearing, Fetid Heath, Orzhov Basilica";
    assert_eq!(compose_lands_reply(), vec![Effect::Say(expected.to_string())]);
}
