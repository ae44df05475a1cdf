//! The callbacks of the command line: each makes the command that the
//! dispatch loop is to be sent from the arguments typed after its name.

use vstd::prelude::*;
use vstd::string::StringExecFns;

use super::Command;
use super::CommandView;

verus! {

/// What the arguments of `stream_start` mean: exactly one, the path.
pub open spec fn parse_stream_start(input: Seq<Seq<char>>) -> Result<CommandView, Seq<char>> {
    if input.len() != 1 {
        Err("Wrong arguments, expected just the path"@)
    } else {
        Ok(CommandView::StreamLogs(true, input[0]))
    }
}

/// What the arguments of `stream_stop` mean: there must be none.
pub open spec fn parse_stream_stop(input: Seq<Seq<char>>) -> Result<CommandView, Seq<char>> {
    if input.len() != 0 {
        Err("Too many arguments"@)
    } else {
        Ok(CommandView::StreamLogs(false, Seq::empty()))
    }
}

/// What the arguments of `find_log` mean: exactly one, the text to find.
pub open spec fn parse_find_log(input: Seq<Seq<char>>) -> Result<CommandView, Seq<char>> {
    if input.len() != 1 {
        Err("Nothing to search for"@)
    } else {
        Ok(CommandView::FindLog(input[0]))
    }
}

/// What the arguments of `stream_file` mean: exactly one, the path.
pub open spec fn parse_stream_file(input: Seq<Seq<char>>) -> Result<CommandView, Seq<char>> {
    if input.len() == 0 {
        Err("path no"@)
    } else if input.len() > 1 {
        Err("Too many arguments"@)
    } else {
        Ok(CommandView::StreamFile(input[0]))
    }
}

/// A result with its command and its error text taken by their views.
pub open spec fn parsed_view(r: Result<Command, String>) -> Result<CommandView, Seq<char>> {
    match r {
        Ok(command) => Ok(command.deep_view()),
        Err(text) => Err(text@),
    }
}

/// Start streaming into a file
pub fn stream_start(input: Vec<String>) -> (r: Result<Command, String>)
    ensures
        parsed_view(r) == parse_stream_start(input.deep_view()),
{
    if input.len() != 1 {
        return Err(String::from_str("Wrong arguments, expected just the path"));
    }
    Ok(Command::StreamLogs(true, input[0].clone()))
}

/// Stop streaming into a file
pub fn stream_stop(input: Vec<String>) -> (r: Result<Command, String>)
    ensures
        parsed_view(r) == parse_stream_stop(input.deep_view()),
{
    if input.len() != 0 {
        return Err(String::from_str("Too many arguments"));
    }
    Ok(Command::StreamLogs(false, String::new()))
}

/// Search the logs for a text
pub fn find_log(input: Vec<String>) -> (r: Result<Command, String>)
    ensures
        parsed_view(r) == parse_find_log(input.deep_view()),
{
    if input.len() != 1 {
        return Err(String::from_str("Nothing to search for"));
    }
    Ok(Command::FindLog(input[0].clone()))
}

/// Stream an input file
pub fn stream_file(input: Vec<String>) -> (r: Result<Command, String>)
    ensures
        parsed_view(r) == parse_stream_file(input.deep_view()),
{
    if input.is_empty() {
        return Err(String::from_str("path no"));
    }
    if input.len() > 1 {
        return Err(String::from_str("Too many arguments"));
    }
    Ok(Command::StreamFile(input[0].clone()))
}

} // verus!
