//! The arguments of a command.
//!
//! The router hands a handler the text behind the command name as it
//! stands. Handlers that want words split it with the gateway library's
//! own argument lexer, so that quoting and spacing mean here what they
//! mean to every other program written against that library.

use serenity::framework::standard::{Args, Delimiter};
use vstd::prelude::*;
use vstd::string::*;

use crate::text::{join, joined, text_view, views};

verus! {

/// The arguments that the gateway library's lexer finds in `text` when the
/// delimiter is a single space, in order, each as it stands in `text`
/// (quotation marks included).
pub uninterp spec fn raw_arguments(text: Seq<char>) -> Seq<Seq<char>>;

/// Calls `serenity::framework::standard::Args::new` with the delimiter
/// `Delimiter::Single(' ')` and collects what `Args::raw` yields.
///
/// Trusted: the result is the list named [`raw_arguments`] of `text`, each
/// argument copied into a string of its own. The lexer reads nothing but
/// `text` and the delimiter.
#[verifier::external_body]
pub(crate) fn lex_arguments(text: &str) -> (found: Vec<String>)
    ensures
        views(found@) == raw_arguments(text@),
{
    Args::new(text, &[Delimiter::Single(' ')]).raw().map(String::from).collect()
}

/// The text a search is made with: the arguments separated by single
/// spaces, or nothing where there is no argument.
pub open spec fn query_of(arguments: Seq<Seq<char>>) -> Option<Seq<char>> {
    if arguments.len() == 0 {
        None
    } else {
        Some(joined(arguments, " "@))
    }
}

/// The first argument, or nothing where there is none.
pub open spec fn first_of(arguments: Seq<Seq<char>>) -> Option<Seq<char>> {
    if arguments.len() == 0 {
        None
    } else {
        Some(arguments[0])
    }
}

/// Joins arguments into the text a search is made with.
pub fn join_arguments(arguments: &Vec<String>) -> (query: Option<String>)
    ensures
        text_view(query) == query_of(views(arguments@)),
{
    if arguments.len() == 0 {
        None
    } else {
        Some(join(arguments, " "))
    }
}

/// Takes the first of a list of arguments.
pub fn first_argument(arguments: &Vec<String>) -> (first: Option<String>)
    ensures
        text_view(first) == first_of(views(arguments@)),
{
    if arguments.len() == 0 {
        None
    } else {
        Some(arguments[0].clone())
    }
}

/// The search text in the argument text of a command: its arguments
/// separated by single spaces. `None` where the text holds no argument.
pub fn query_text(rest: &str) -> (query: Option<String>)
    ensures
        text_view(query) == query_of(raw_arguments(rest@)),
{
    let arguments = lex_arguments(rest);
    join_arguments(&arguments)
}

/// The first argument in the argument text of a command. `None` where the
/// text holds no argument.
pub fn first_word(rest: &str) -> (first: Option<String>)
    ensures
        text_view(first) == first_of(raw_arguments(rest@)),
{
    let arguments = lex_arguments(rest);
    first_argument(&arguments)
}

} // verus!
