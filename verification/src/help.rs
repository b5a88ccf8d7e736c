//! The two commands that describe the command table: `help` lists the
//! names, `aliases` lists for each name the other words it answers to.

use vstd::prelude::*;
use vstd::string::*;

use crate::router::{entry_views, CommandEntry, EntryView};
use crate::text::{join, joined, views};

verus! {

/// The canonical names of a table, in its order.
pub open spec fn entry_names(table: Seq<EntryView>) -> Seq<Seq<char>> {
    table.map_values(|e: EntryView| e.name)
}

/// The answer to `help`: the names of the table, separated by a comma and a
/// space, behind a heading.
pub open spec fn help_text(table: Seq<EntryView>) -> Seq<char> {
    "Commands: "@ + joined(entry_names(table), ", "@)
}

/// The line of one entry in the answer to `aliases`: its name, a colon, and
/// its aliases separated by a comma and a space.
pub open spec fn alias_line(entry: EntryView) -> Seq<char> {
    entry.name + ": "@ + joined(entry.aliases, ", "@)
}

/// The answer to `aliases`: one line for each entry of the table.
pub open spec fn aliases_text(table: Seq<EntryView>) -> Seq<char> {
    joined(table.map_values(|e: EntryView| alias_line(e)), "\n"@)
}

/// Writes the answer to `help`.
pub fn compose_help(table: &Vec<CommandEntry>) -> (r: String)
    ensures
        r@ == help_text(entry_views(table@)),
{
    let ghost all = entry_views(table@);
    let mut names: Vec<String> = Vec::new();
    let mut i: usize = 0;
    while i < table.len()
        invariant
            i <= table.len(),
            all == entry_views(table@),
            views(names@) == entry_names(all.take(i as int)),
        decreases table.len() - i,
    {
        let ghost before = views(names@);
        names.push(table[i].name.clone());
        assert(entry_names(all.take(i + 1)) =~= before.push(all[i as int].name));
        i += 1;
    }
    assert(all.take(table.len() as int) =~= all);
    let mut r = String::from_str("Commands: ");
    let list = join(&names, ", ");
    r.append(list.as_str());
    r
}

/// Writes the answer to `aliases`.
pub fn compose_aliases(table: &Vec<CommandEntry>) -> (r: String)
    ensures
        r@ == aliases_text(entry_views(table@)),
{
    let ghost all = entry_views(table@);
    let mut lines: Vec<String> = Vec::new();
    let mut i: usize = 0;
    while i < table.len()
        invariant
            i <= table.len(),
            all == entry_views(table@),
            views(lines@) == all.take(i as int).map_values(|e: EntryView| alias_line(e)),
        decreases table.len() - i,
    {
        let mut line = table[i].name.clone();
        line.append(": ");
        let list = join(&table[i].aliases, ", ");
        line.append(list.as_str());
        let ghost before = views(lines@);
        lines.push(line);
        assert(all.take(i + 1).map_values(|e: EntryView| alias_line(e)) =~= before.push(
            alias_line(all[i as int]),
        ));
        i += 1;
    }
    assert(all.take(table.len() as int) =~= all);
    join(&lines, "\n")
}

} // verus!
