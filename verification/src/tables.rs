//! The prefixes and the command tables the two bots are set up with.

use vstd::prelude::*;
use vstd::string::*;

use crate::router::{entry_views, Command, CommandEntry, EntryView};
use crate::text::views;

verus! {

/// The prefixes a message may begin with to be taken for a command.
pub open spec fn prefix_texts() -> Seq<Seq<char>> {
    seq!["!"@, ">"@, "~"@, "."@, ","@, "`"@, "-"@, "["@]
}

/// One line of a table.
pub open spec fn line(
    name: Seq<char>,
    aliases: Seq<Seq<char>>,
    guild_only: bool,
    command: Command,
) -> EntryView {
    EntryView { name, aliases, guild_only, command }
}

/// The table of the card bot. Every command is for guilds only.
pub open spec fn card_lines() -> Seq<EntryView> {
    seq![
        line("card"@, seq!["scry"@, "s"@], true, Command::Card),
        line("doublecard"@, seq!["sdf"@], true, Command::DoubleCard),
        line("blackwhitelands"@, seq!["lbw"@, "wbl"@], true, Command::BlackWhiteLands),
        line("randomsearch"@, seq!["sr"@], true, Command::RandomSearch),
    ]
}

/// The table of the voice bot. Every command but `help` and `aliases` is
/// for guilds only.
pub open spec fn voice_lines() -> Seq<EntryView> {
    seq![
        line("join"@, seq!["j"@], true, Command::Join),
        line("leave"@, seq!["l"@], true, Command::Leave),
        line("mute"@, seq!["m"@], true, Command::Mute),
        line("unmute"@, seq!["um"@], true, Command::Unmute),
        line("deafen"@, seq!["d"@], true, Command::Deafen),
        line("undeafen"@, seq!["ud"@], true, Command::Undeafen),
        line("play"@, seq!["p"@], true, Command::Play),
        line("search_and_play"@, seq!["sp"@], true, Command::SearchAndPlay),
        line("search_and_play_loop"@, seq!["spl"@], true, Command::SearchAndPlayLoop),
        line("stop"@, seq!["st"@], true, Command::Stop),
        line("skip"@, seq!["sk"@], true, Command::Skip),
        line("help"@, seq!["h"@], false, Command::Help),
        line("aliases"@, seq!["a"@], false, Command::Aliases),
    ]
}

/// Builds one line of a table with a single alias.
pub fn one_alias(name: &str, alias: &str, guild_only: bool, command: Command) -> (e: CommandEntry)
    ensures
        e@ == line(name@, seq![alias@], guild_only, command),
{
    let mut aliases: Vec<String> = Vec::new();
    aliases.push(String::from_str(alias));
    assert(views(aliases@) =~= seq![alias@]);
    CommandEntry { name: String::from_str(name), aliases, guild_only, command }
}

/// Builds one line of a table with two aliases.
pub fn two_aliases(
    name: &str,
    first: &str,
    second: &str,
    guild_only: bool,
    command: Command,
) -> (e: CommandEntry)
    ensures
        e@ == line(name@, seq![first@, second@], guild_only, command),
{
    let mut aliases: Vec<String> = Vec::new();
    aliases.push(String::from_str(first));
    aliases.push(String::from_str(second));
    assert(views(aliases@) =~= seq![first@, second@]);
    CommandEntry { name: String::from_str(name), aliases, guild_only, command }
}

/// The prefixes both bots are set up with.
pub fn default_prefixes() -> (prefixes: Vec<String>)
    ensures
        views(prefixes@) == prefix_texts(),
{
    let mut prefixes: Vec<String> = Vec::new();
    prefixes.push(String::from_str("!"));
    prefixes.push(String::from_str(">"));
    prefixes.push(String::from_str("~"));
    prefixes.push(String::from_str("."));
    prefixes.push(String::from_str(","));
    prefixes.push(String::from_str("`"));
    prefixes.push(String::from_str("-"));
    prefixes.push(String::from_str("["));
    prefixes
}

/// The table of the card bot.
pub fn card_table() -> (table: Vec<CommandEntry>)
    ensures
        entry_views(table@) == card_lines(),
{
    let mut table: Vec<CommandEntry> = Vec::new();
    table.push(two_aliases("card", "scry", "s", true, Command::Card));
    table.push(one_alias("doublecard", "sdf", true, Command::DoubleCard));
    table.push(two_aliases("blackwhitelands", "lbw", "wbl", true, Command::BlackWhiteLands));
    table.push(one_alias("randomsearch", "sr", true, Command::RandomSearch));
    table
}

/// The table of the voice bot.
pub fn voice_table() -> (table: Vec<CommandEntry>)
    ensures
        entry_views(table@) == voice_lines(),
{
    let mut table: Vec<CommandEntry> = Vec::new();
    table.push(one_alias("join", "j", true, Command::Join));
    table.push(one_alias("leave", "l", true, Command::Leave));
    table.push(one_alias("mute", "m", true, Command::Mute));
    table.push(one_alias("unmute", "um", true, Command::Unmute));
    table.push(one_alias("deafen", "d", true, Command::Deafen));
    table.push(one_alias("undeafen", "ud", true, Command::Undeafen));
    table.push(one_alias("play", "p", true, Command::Play));
    table.push(one_alias("search_and_play", "sp", true, Command::SearchAndPlay));
    table.push(one_alias("search_and_play_loop", "spl", true, Command::SearchAndPlayLoop));
    table.push(one_alias("stop", "st", true, Command::Stop));
    table.push(one_alias("skip", "sk", true, Command::Skip));
    table.push(one_alias("help", "h", false, Command::Help));
    table.push(one_alias("aliases", "a", false, Command::Aliases));
    table
}

} // verus!
