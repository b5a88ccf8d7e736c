//! The command router: from the text of a message to the command it asks
//! for and the argument text behind it.
//!
//! A message is a command when it begins with one of the configured
//! prefixes and the word right behind the prefix is the name or an alias of
//! an entry of the command table. Prefix and word are compared with case
//! folded character by character, which for names and prefixes made of ASCII
//! characters is Unicode's lower case. The word ends at the first white
//! space of Unicode. Every other message is passed over in silence.

use vstd::prelude::*;
use vstd::string::*;

use crate::text::{
    blank, chars_of, fold, fold_char, fold_one, is_blank, same_folded, views,
};

verus! {

/// The commands of the two bots.
#[derive(Clone, Copy, Debug, PartialEq, Eq, Structural)]
pub enum Command {
    Card,
    DoubleCard,
    RandomSearch,
    BlackWhiteLands,
    Join,
    Leave,
    Mute,
    Unmute,
    Deafen,
    Undeafen,
    Play,
    SearchAndPlay,
    SearchAndPlayLoop,
    Stop,
    Skip,
    Help,
    Aliases,
}

/// One line of the command table.
#[derive(Clone, Debug, PartialEq, Eq)]
pub struct CommandEntry {
    /// The canonical name.
    pub name: String,
    /// Other words the command answers to.
    pub aliases: Vec<String>,
    /// Whether the command is refused outside a guild.
    pub guild_only: bool,
    pub command: Command,
}

/// The mathematical value of a [`CommandEntry`].
pub struct EntryView {
    pub name: Seq<char>,
    pub aliases: Seq<Seq<char>>,
    pub guild_only: bool,
    pub command: Command,
}

impl View for CommandEntry {
    type V = EntryView;

    open spec fn view(&self) -> EntryView {
        EntryView {
            name: self.name@,
            aliases: views(self.aliases@),
            guild_only: self.guild_only,
            command: self.command,
        }
    }
}

/// The view of every entry of a table.
pub open spec fn entry_views(table: Seq<CommandEntry>) -> Seq<EntryView> {
    table.map_values(|e: CommandEntry| e@)
}

/// What the router made of a message.
#[derive(Clone, Debug, PartialEq, Eq)]
pub enum Routed {
    /// The message begins with no configured prefix.
    NoPrefix,
    /// The word behind the prefix names no command.
    UnknownCommand,
    /// The command is for guilds only and the message is a direct message.
    GuildOnly(Command),
    /// The command to run, with the text behind its name.
    Run { command: Command, args: String },
}

/// The mathematical value of a [`Routed`].
pub enum RoutedView {
    NoPrefix,
    UnknownCommand,
    GuildOnly(Command),
    Run { command: Command, args: Seq<char> },
}

impl View for Routed {
    type V = RoutedView;

    open spec fn view(&self) -> RoutedView {
        match *self {
            Routed::NoPrefix => RoutedView::NoPrefix,
            Routed::UnknownCommand => RoutedView::UnknownCommand,
            Routed::GuildOnly(command) => RoutedView::GuildOnly(command),
            Routed::Run { command, args } => RoutedView::Run { command, args: args@ },
        }
    }
}

/// `text` begins with `prefix`, case ignored.
pub open spec fn starts_folded(text: Seq<char>, prefix: Seq<char>) -> bool {
    prefix.len() <= text.len() && same_folded(text.take(prefix.len() as int), prefix)
}

/// The first of `prefixes`, in their order, that `text` begins with.
pub open spec fn first_prefix(prefixes: Seq<Seq<char>>, text: Seq<char>) -> Option<Seq<char>>
    decreases prefixes.len(),
{
    if prefixes.len() == 0 {
        None
    } else if starts_folded(text, prefixes.first()) {
        Some(prefixes.first())
    } else {
        first_prefix(prefixes.drop_first(), text)
    }
}

/// The index of the first blank of `s` at or behind `from`, or the length of
/// `s` where there is none.
pub open spec fn word_end(s: Seq<char>, from: int) -> int
    decreases s.len() - from,
{
    if from >= s.len() || is_blank(s[from]) {
        from
    } else {
        word_end(s, from + 1)
    }
}

/// The index of the first character of `s` at or behind `from` that is no
/// blank, or the length of `s` where there is none.
pub open spec fn blanks_end(s: Seq<char>, from: int) -> int
    decreases s.len() - from,
{
    if from >= s.len() || !is_blank(s[from]) {
        from
    } else {
        blanks_end(s, from + 1)
    }
}

/// `word` is the name or one of the aliases of `entry`, case ignored.
pub open spec fn answers_to(entry: EntryView, word: Seq<char>) -> bool {
    same_folded(entry.name, word) || exists|k: int|
        0 <= k < entry.aliases.len() && same_folded(#[trigger] entry.aliases[k], word)
}

/// The first entry of `table`, in its order, that answers to `word`.
pub open spec fn find_entry(table: Seq<EntryView>, word: Seq<char>) -> Option<EntryView>
    decreases table.len(),
{
    if table.len() == 0 {
        None
    } else if answers_to(table.first(), word) {
        Some(table.first())
    } else {
        find_entry(table.drop_first(), word)
    }
}

/// What a message means to a bot with these prefixes and this table.
///
/// - No prefix at the start: [`RoutedView::NoPrefix`].
/// - The word is what stands between the prefix and the next blank (or the
///   end). Where no entry answers to it: [`RoutedView::UnknownCommand`].
/// - Where the entry is for guilds only and the message came from none:
///   [`RoutedView::GuildOnly`].
/// - Else the command runs; its argument text is what follows the word and
///   the blanks behind it, unchanged.
pub open spec fn route(
    prefixes: Seq<Seq<char>>,
    table: Seq<EntryView>,
    text: Seq<char>,
    in_guild: bool,
) -> RoutedView {
    match first_prefix(prefixes, text) {
        None => RoutedView::NoPrefix,
        Some(prefix) => {
            let start = prefix.len() as int;
            let end = word_end(text, start);
            match find_entry(table, text.subrange(start, end)) {
                None => RoutedView::UnknownCommand,
                Some(entry) => if entry.guild_only && !in_guild {
                    RoutedView::GuildOnly(entry.command)
                } else {
                    RoutedView::Run {
                        command: entry.command,
                        args: text.skip(blanks_end(text, end)),
                    }
                },
            }
        },
    }
}

/// Tells whether the part of `text` from `start` up to `end` is `word`, case
/// ignored.
pub fn range_eq_folded(text: &Vec<char>, start: usize, end: usize, word: &Vec<char>) -> (r: bool)
    requires
        start <= end <= text.len(),
    ensures
        r == same_folded(text@.subrange(start as int, end as int), word@),
{
    let ghost part = text@.subrange(start as int, end as int);
    if end - start != word.len() {
        assert(fold(part).len() != fold(word@).len());
        return false;
    }
    let mut i: usize = 0;
    while i < word.len()
        invariant
            start <= end <= text.len(),
            end - start == word.len(),
            i <= word.len(),
            part == text@.subrange(start as int, end as int),
            forall|k: int| 0 <= k < i ==> fold_char(part[k]) == fold_char(word@[k]),
        decreases word.len() - i,
    {
        if fold_one(text[start + i]) != fold_one(word[i]) {
            assert(fold(part)[i as int] != fold(word@)[i as int]);
            return false;
        }
        i += 1;
    }
    assert(fold(part) =~= fold(word@));
    true
}

/// Tells whether `entry` answers to the part of `text` from `start` up to
/// `end`.
pub fn entry_answers(entry: &CommandEntry, text: &Vec<char>, start: usize, end: usize) -> (r:
    bool)
    requires
        start <= end <= text.len(),
    ensures
        r == answers_to(entry@, text@.subrange(start as int, end as int)),
{
    let ghost word = text@.subrange(start as int, end as int);
    let name = chars_of(entry.name.as_str());
    if range_eq_folded(text, start, end, &name) {
        return true;
    }
    let mut k: usize = 0;
    while k < entry.aliases.len()
        invariant
            start <= end <= text.len(),
            k <= entry.aliases.len(),
            word == text@.subrange(start as int, end as int),
            forall|j: int| 0 <= j < k ==> !same_folded(#[trigger] entry@.aliases[j], word),
        decreases entry.aliases.len() - k,
    {
        let alias = chars_of(entry.aliases[k].as_str());
        if range_eq_folded(text, start, end, &alias) {
            assert(same_folded(entry@.aliases[k as int], word));
            return true;
        }
        k += 1;
    }
    false
}

/// The configured prefixes and the command table of one bot.
pub struct Router {
    pub prefixes: Vec<String>,
    pub table: Vec<CommandEntry>,
}

impl Router {
    /// A router with these prefixes and this table.
    pub fn new(prefixes: Vec<String>, table: Vec<CommandEntry>) -> (r: Router)
        ensures
            r.prefixes == prefixes,
            r.table == table,
    {
        Router { prefixes, table }
    }

    /// The length of the first configured prefix that `text` begins with.
    pub fn match_prefix(&self, text: &Vec<char>) -> (r: Option<usize>)
        ensures
            match first_prefix(views(self.prefixes@), text@) {
                Some(prefix) => r == Some(prefix.len() as usize) && prefix.len() <= text.len(),
                None => r is None,
            },
    {
        let ghost all = views(self.prefixes@);
        assert(all.skip(0) =~= all);
        let mut i: usize = 0;
        while i < self.prefixes.len()
            invariant
                i <= self.prefixes.len(),
                all == views(self.prefixes@),
                first_prefix(all, text@) == first_prefix(all.skip(i as int), text@),
            decreases self.prefixes.len() - i,
        {
            let prefix = chars_of(self.prefixes[i].as_str());
            assert(all.skip(i as int).drop_first() =~= all.skip(i + 1));
            if prefix.len() <= text.len() {
                if range_eq_folded(text, 0, prefix.len(), &prefix) {
                    return Some(prefix.len());
                }
            }
            i += 1;
        }
        None
    }

    /// The first entry of the table that answers to the part of `text` from
    /// `start` up to `end`: its command and whether it is for guilds only.
    pub fn lookup(&self, text: &Vec<char>, start: usize, end: usize) -> (r: Option<
        (Command, bool),
    >)
        requires
            start <= end <= text.len(),
        ensures
            match find_entry(
                entry_views(self.table@),
                text@.subrange(start as int, end as int),
            ) {
                Some(entry) => r == Some((entry.command, entry.guild_only)),
                None => r is None,
            },
    {
        let ghost all = entry_views(self.table@);
        let ghost word = text@.subrange(start as int, end as int);
        assert(all.skip(0) =~= all);
        let mut i: usize = 0;
        while i < self.table.len()
            invariant
                start <= end <= text.len(),
                i <= self.table.len(),
                all == entry_views(self.table@),
                word == text@.subrange(start as int, end as int),
                find_entry(all, word) == find_entry(all.skip(i as int), word),
            decreases self.table.len() - i,
        {
            assert(all.skip(i as int).drop_first() =~= all.skip(i + 1));
            if entry_answers(&self.table[i], text, start, end) {
                return Some((self.table[i].command, self.table[i].guild_only));
            }
            i += 1;
        }
        None
    }

    /// Routes one message. `in_guild` tells whether it came from a guild (a
    /// direct message comes from none).
    pub fn route(&self, text: &str, in_guild: bool) -> (r: Routed)
        ensures
            r@ == route(views(self.prefixes@), entry_views(self.table@), text@, in_guild),
    {
        let chars = chars_of(text);
        let start = match self.match_prefix(&chars) {
            None => {
                return Routed::NoPrefix;
            },
            Some(len) => len,
        };
        let mut end: usize = start;
        while end < chars.len() && !blank(chars[end])
            invariant
                start <= end <= chars.len(),
                word_end(chars@, start as int) == word_end(chars@, end as int),
            decreases chars.len() - end,
        {
            end += 1;
        }
        let (command, guild_only) = match self.lookup(&chars, start, end) {
            None => {
                return Routed::UnknownCommand;
            },
            Some(found) => found,
        };
        if guild_only && !in_guild {
            return Routed::GuildOnly(command);
        }
        let mut rest: usize = end;
        while rest < chars.len() && blank(chars[rest])
            invariant
                end <= rest <= chars.len(),
                blanks_end(chars@, end as int) == blanks_end(chars@, rest as int),
            decreases chars.len() - rest,
        {
            rest += 1;
        }
        let args = String::from_str(text.substring_char(rest, chars.len()));
        Routed::Run { command, args }
    }
}

} // verus!
