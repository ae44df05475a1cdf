//! Changes to the filter list. Each change re-derives the filtered view of
//! the whole log history and hands it to the rendering layer.

use vstd::prelude::*;
use vstd::string::StringExecFns;

use crate::filter::filter_history;
use crate::filter::filtered_message;
use crate::filter::filtered_view;
use crate::style::LogColor;
use crate::style::LogStyle;
use crate::LogFilter;
use crate::LogFilterType;
use crate::LogFilterView;
use crate::LogMessage;
use crate::LogTimestamp;

use super::update_logs;
use super::Command;
use super::CommandView;
use super::Commander;
use super::CommanderView;
use super::UiCommand;
use super::UiCommandView;

verus! {

impl CommanderView {
    /// The filtered view that the rendering layer is given of the state.
    pub open spec fn shown(self) -> UiCommandView {
        UiCommandView::UpdateLogs(filtered_view(self.history, self.filters))
    }

    /// Dropping every filter: the whole history is shown again.
    pub open spec fn clear_filters(self) -> CommanderView {
        let cleared = CommanderView { filters: Seq::empty(), ..self };
        cleared.tell(cleared.shown())
    }

    /// One more filter at the end of the list: the history is filtered
    /// anew with the longer list.
    pub open spec fn add_filter(self, filter: LogFilterView) -> CommanderView {
        let added = CommanderView { filters: self.filters.push(filter), ..self };
        added.tell(added.shown())
    }

    /// The state after the filters of `list` were added one at a time.
    pub open spec fn add_filters(self, list: Seq<LogFilterView>) -> CommanderView
        decreases list.len(),
    {
        if list.len() == 0 {
            self
        } else {
            self.add_filters(list.drop_last()).add_filter(list.last())
        }
    }
}

/// Replaying a filter list filter by filter ends where applying it in one
/// batch does: after the filters are cleared and the list is added again one
/// at a time, the filters in force are the list, the history is untouched,
/// and the view last handed to the rendering layer is the history filtered
/// by the whole list. What decides is the order of the filters, not how
/// their insertion was batched.
pub proof fn law_filter_replay(state: CommanderView, list: Seq<LogFilterView>)
    ensures
        state.clear_filters().add_filters(list).filters == list,
        state.clear_filters().add_filters(list).history == state.history,
        state.clear_filters().add_filters(list).effects.last() == update_logs(
            filtered_view(state.history, list),
        ),
    decreases list.len(),
{
    if list.len() == 0 {
        assert(state.clear_filters().add_filters(list).filters =~= list);
    } else {
        law_filter_replay(state, list.drop_last());
        assert(list.drop_last().push(list.last()) =~= list);
    }
}

impl Commander {
    /// Clear filters
    ///
    /// Clear the available filters, and reprocess the log messages
    pub fn clear_filters(&mut self) -> (r: Result<(), String>)
        ensures
            r is Ok,
            final(self).deep_view() == old(self).deep_view().clear_filters(),
    {
        self.filters.clear();
        assert(self.filters.deep_view() =~= Seq::empty());
        let filtered_messages = filter_history(&self.log_messages, &self.filters);
        self.tell(UiCommand::UpdateLogs(filtered_messages));
        Ok(())
    }

    /// Add a new filter
    ///
    /// Not only store the new filter, but also regenerate the filtered log
    /// list and queue it for the rendering layer
    pub fn add_filter(&mut self, filter: LogFilter) -> (r: Result<(), String>)
        ensures
            r is Ok,
            final(self).deep_view() == old(self).deep_view().add_filter(filter.deep_view()),
    {
        self.filters.push(filter);
        assert(self.filters.deep_view() =~= old(self).filters.deep_view().push(
            filter.deep_view(),
        ));
        let filtered_messages = filter_history(&self.log_messages, &self.filters);
        self.tell(UiCommand::UpdateLogs(filtered_messages));
        Ok(())
    }

    /// Apply filters to a log message
    pub fn apply_filters(&self, timestamp: LogTimestamp, id: i32, log: String) -> (r: Option<
        LogMessage,
    >)
        ensures
            r.deep_view() == filtered_message(self.deep_view().filters, timestamp, id, log@),
    {
        crate::filter::apply_filters(&self.filters, timestamp, id, log)
    }
}

/// The colour that a colour name of the filter command stands for; blue
/// for every other word.
pub open spec fn color_named(name: Seq<char>) -> LogColor {
    if name == "red"@ {
        LogColor::Red
    } else if name == "green"@ {
        LogColor::Green
    } else if name == "yellow"@ {
        LogColor::Yellow
    } else if name == "white"@ {
        LogColor::White
    } else if name == "magenta"@ {
        LogColor::Magenta
    } else {
        LogColor::Blue
    }
}

/// The kind of filter that the first character of a word selects.
pub open spec fn kind_named(word: Seq<char>) -> Option<LogFilterType> {
    if word.len() == 0 {
        None
    } else if word[0] == 'h' {
        Some(LogFilterType::Highlighter)
    } else if word[0] == 'i' {
        Some(LogFilterType::Inclusion)
    } else if word[0] == 'e' {
        Some(LogFilterType::Exclusion)
    } else {
        None
    }
}

/// What the arguments of the filter command mean. They have the form
/// `{h/i/e} (optional)color word`: the first names the kind of filter, the
/// last of two or three the word to match; with three the second names a
/// colour. The word to match must not be empty.
pub open spec fn parse_filter(input: Seq<Seq<char>>) -> Result<LogFilterView, Seq<char>> {
    if input.len() == 0 {
        Err("Filter information missing"@)
    } else if input.len() < 2 {
        Err("Wrong arguments. Expected '/{h,i,e} {color} word'"@)
    } else {
        match kind_named(input[0]) {
            None => Err("Wrong argument"@),
            Some(kind) => {
                let color = if input.len() == 3 {
                    color_named(input[1])
                } else {
                    LogColor::Blue
                };
                let word = if input.len() == 3 {
                    input[2]
                } else {
                    input[1]
                };
                if word.len() == 0 {
                    Err("Wrong arguments. Expected '/{h,i,e} {color} word'"@)
                } else {
                    Ok(LogFilterView { kind, msg: word, style: LogStyle::spec_colored(color) })
                }
            },
        }
    }
}

/// Tells which colour a colour name stands for.
pub fn color_from_name(name: &String) -> (r: LogColor)
    ensures
        r == color_named(name@),
{
    if *name == String::from_str("red") {
        LogColor::Red
    } else if *name == String::from_str("green") {
        LogColor::Green
    } else if *name == String::from_str("yellow") {
        LogColor::Yellow
    } else if *name == String::from_str("white") {
        LogColor::White
    } else if *name == String::from_str("magenta") {
        LogColor::Magenta
    } else {
        LogColor::Blue
    }
}

/// Add filter callback
///
/// Makes the command that adds a filter from the arguments of the filter
/// command. Examples:
///     h red wrn -> add highlight filter (color red) for lines containing "wrn"
///     i tempo -> add inclusion filter for lines containing "tempo"
///     e tempo -> add exclusion filter for lines containing "tempo"
pub fn add_filter(input: Vec<String>) -> (r: Result<Command, String>)
    ensures
        match parse_filter(input.deep_view()) {
            Ok(filter) => r matches Ok(command) && command.deep_view() == CommandView::AddFilter(
                filter,
            ),
            Err(text) => r matches Err(e) && e@ == text,
        },
{
    proof {
        assert(forall|i: int|
            0 <= i < input.len() ==> #[trigger] input.deep_view()[i] == input[i]@);
    }
    if input.is_empty() {
        return Err(String::from_str("Filter information missing"));
    }
    if input.len() < 2 {
        return Err(String::from_str("Wrong arguments. Expected '/{h,i,e} {color} word'"));
    }
    let first = input[0].as_str();
    if first.is_empty() {
        return Err(String::from_str("Wrong argument"));
    }
    let selector = first.get_char(0);
    let kind = if selector == 'h' {
        LogFilterType::Highlighter
    } else if selector == 'i' {
        LogFilterType::Inclusion
    } else if selector == 'e' {
        LogFilterType::Exclusion
    } else {
        return Err(String::from_str("Wrong argument"));
    };
    let mut idx: usize = 1;
    // Inclusion/exclusion do not change color
    let mut color = LogColor::Blue;
    if input.len() == 3 {
        color = color_from_name(&input[1]);
        idx = 2;
    }
    if input[idx].as_str().is_empty() {
        return Err(String::from_str("Wrong arguments. Expected '/{h,i,e} {color} word'"));
    }
    Ok(
        Command::AddFilter(
            LogFilter { style: LogStyle::colored(color), kind, msg: input[idx].clone() },
        ),
    )
}

} // verus!
