//! The filter engine: an ordered list of inclusion, exclusion and highlight
//! rules decides for each line whether it is shown, and in which style.

use vstd::prelude::*;

use crate::style::LogStyle;
use crate::text::contains_text;
use crate::text::text_contains;
use crate::LogFilter;
use crate::LogFilterType;
use crate::LogFilterView;
use crate::LogMessage;
use crate::LogMessageView;
use crate::LogTimestamp;

verus! {

/// The filter is armed and its match string occurs in the line. A filter
/// with an empty match string matches nothing.
pub open spec fn filter_matches(filter: LogFilterView, line: Seq<char>) -> bool {
    filter.msg.len() > 0 && contains_text(line, filter.msg)
}

/// The filter suppresses the line: an armed inclusion filter whose match
/// string is absent, or an exclusion filter that matches.
pub open spec fn rejects(filter: LogFilterView, line: Seq<char>) -> bool {
    match filter.kind {
        LogFilterType::Inclusion => filter.msg.len() > 0 && !contains_text(line, filter.msg),
        LogFilterType::Exclusion => filter_matches(filter, line),
        LogFilterType::Highlighter => false,
    }
}

/// The filter is a highlighter that matches the line.
pub open spec fn highlights(filter: LogFilterView, line: Seq<char>) -> bool {
    filter.kind == LogFilterType::Highlighter && filter_matches(filter, line)
}

/// Some filter of the list suppresses the line.
pub open spec fn suppressed(filters: Seq<LogFilterView>, line: Seq<char>) -> bool {
    exists|i: int| 0 <= i < filters.len() && rejects(#[trigger] filters[i], line)
}

/// The style of the last highlighter of the list that matches the line, or
/// the default dim style where none does.
pub open spec fn style_of(filters: Seq<LogFilterView>, line: Seq<char>) -> LogStyle
    decreases filters.len(),
{
    if filters.len() == 0 {
        LogStyle::spec_dim()
    } else if highlights(filters.last(), line) {
        filters.last().style
    } else {
        style_of(filters.drop_last(), line)
    }
}

/// The verdict of a filter list on a line: `None` when the line is
/// suppressed, else the style it is shown in.
pub open spec fn evaluate(filters: Seq<LogFilterView>, line: Seq<char>) -> Option<LogStyle> {
    if suppressed(filters, line) {
        None
    } else {
        Some(style_of(filters, line))
    }
}

/// What one filter makes of a line that has survived so far in `style`.
pub open spec fn filter_step(filter: LogFilterView, line: Seq<char>, style: LogStyle) -> Option<
    LogStyle,
> {
    if rejects(filter, line) {
        None
    } else if highlights(filter, line) {
        Some(filter.style)
    } else {
        Some(style)
    }
}

/// The message that a line becomes when it survives in `style`.
pub open spec fn styled_message(
    timestamp: LogTimestamp,
    id: i32,
    line: Seq<char>,
    style: LogStyle,
) -> LogMessageView {
    LogMessageView { timestamp, source_id: id, message: line, style }
}

/// The outcome of the filter list for one line, as a message.
pub open spec fn filtered_message(
    filters: Seq<LogFilterView>,
    timestamp: LogTimestamp,
    id: i32,
    line: Seq<char>,
) -> Option<LogMessageView> {
    match evaluate(filters, line) {
        None => None,
        Some(style) => Some(styled_message(timestamp, id, line, style)),
    }
}

/// The filtered view of a log history: the messages that survive the
/// filter list, in their order, each in the style the list gives it. The
/// style a message had before plays no part.
pub open spec fn filtered_view(
    history: Seq<LogMessageView>,
    filters: Seq<LogFilterView>,
) -> Seq<LogMessageView>
    decreases history.len(),
{
    if history.len() == 0 {
        Seq::empty()
    } else {
        let earlier = filtered_view(history.drop_last(), filters);
        let m = history.last();
        match filtered_message(filters, m.timestamp, m.source_id, m.message) {
            None => earlier,
            Some(shown) => earlier.push(shown),
        }
    }
}

/// The filter list is evaluated in its order and stops at the first
/// suppression: the verdict of a list with one more filter at its end is the
/// verdict of the list, passed through that filter when it is not `None`.
pub proof fn law_evaluate_in_order(
    filters: Seq<LogFilterView>,
    last: LogFilterView,
    line: Seq<char>,
)
    ensures
        evaluate(filters.push(last), line) == match evaluate(filters, line) {
            None => None,
            Some(style) => filter_step(last, line, style),
        },
        evaluate(Seq::empty(), line) == Some(LogStyle::spec_dim()),
{
    let longer = filters.push(last);
    assert(longer.drop_last() =~= filters);
    assert(longer.last() == last);
    if suppressed(filters, line) {
        let i = choose|i: int| 0 <= i < filters.len() && rejects(#[trigger] filters[i], line);
        assert(longer[i] == filters[i]);
    } else if rejects(last, line) {
        assert(longer[filters.len() as int] == last);
    } else {
        if suppressed(longer, line) {
            let i = choose|i: int| 0 <= i < longer.len() && rejects(#[trigger] longer[i], line);
            if i < filters.len() {
                assert(longer[i] == filters[i]);
            }
        }
    }
}

/// No later filter resurrects a suppressed line: once a list suppresses a
/// line, every list that begins with it does.
pub proof fn law_suppression_is_final(
    filters: Seq<LogFilterView>,
    later: Seq<LogFilterView>,
    line: Seq<char>,
)
    requires
        evaluate(filters, line) is None,
    ensures
        evaluate(filters + later, line) is None,
{
    let i = choose|i: int| 0 <= i < filters.len() && rejects(#[trigger] filters[i], line);
    assert((filters + later)[i] == filters[i]);
}

/// An exclusion filter that matches wins over every filter after it: a line
/// that holds the match string of an exclusion filter is suppressed,
/// whatever else the list holds.
pub proof fn law_exclusion_wins(filters: Seq<LogFilterView>, at: int, line: Seq<char>)
    requires
        0 <= at < filters.len(),
        filters[at].kind == LogFilterType::Exclusion,
        filters[at].msg.len() > 0,
        contains_text(line, filters[at].msg),
    ensures
        evaluate(filters, line) is None,
{
    assert(rejects(filters[at], line));
}

/// The style of a line does not change when a filter that does not
/// highlight it leaves the list.
proof fn lemma_style_without(filters: Seq<LogFilterView>, at: int, line: Seq<char>)
    requires
        0 <= at < filters.len(),
        !highlights(filters[at], line),
    ensures
        style_of(filters.remove(at), line) == style_of(filters, line),
    decreases filters.len(),
{
    if at == filters.len() - 1 {
        assert(filters.remove(at) =~= filters.drop_last());
    } else {
        let shorter = filters.remove(at);
        assert(shorter.last() == filters.last());
        assert(shorter.drop_last() =~= filters.drop_last().remove(at));
        if !highlights(filters.last(), line) {
            lemma_style_without(filters.drop_last(), at, line);
        }
    }
}

/// A filter with an empty match string is a no-op, whatever its kind and
/// wherever it stands: the list gives every line the verdict that it gives
/// without that filter.
pub proof fn law_empty_match_is_noop(filters: Seq<LogFilterView>, at: int, line: Seq<char>)
    requires
        0 <= at < filters.len(),
        filters[at].msg.len() == 0,
    ensures
        evaluate(filters, line) == evaluate(filters.remove(at), line),
        !rejects(filters[at], line),
{
    let shorter = filters.remove(at);
    lemma_style_without(filters, at, line);
    if suppressed(filters, line) {
        let i = choose|i: int| 0 <= i < filters.len() && rejects(#[trigger] filters[i], line);
        if i < at {
            assert(shorter[i] == filters[i]);
        } else {
            assert(shorter[i - 1] == filters[i]);
        }
    }
    if suppressed(shorter, line) {
        let i = choose|i: int| 0 <= i < shorter.len() && rejects(#[trigger] shorter[i], line);
        if i < at {
            assert(shorter[i] == filters[i]);
        } else {
            assert(shorter[i] == filters[i + 1]);
        }
    }
}

/// The filtered view is made message by message: the view of a history
/// with one more message is the view of the history, followed by that
/// message if the filter list lets it through.
pub proof fn lemma_filtered_view_push(
    history: Seq<LogMessageView>,
    m: LogMessageView,
    filters: Seq<LogFilterView>,
)
    ensures
        filtered_view(history.push(m), filters) == match filtered_message(
            filters,
            m.timestamp,
            m.source_id,
            m.message,
        ) {
            None => filtered_view(history, filters),
            Some(shown) => filtered_view(history, filters).push(shown),
        },
{
    assert(history.push(m).drop_last() =~= history);
}

/// With no filter every message of the history is shown, in the dim style.
pub proof fn law_no_filter_shows_everything(history: Seq<LogMessageView>)
    ensures
        filtered_view(history, Seq::empty()).len() == history.len(),
        forall|i: int|
            0 <= i < history.len() ==> #[trigger] filtered_view(history, Seq::empty())[i]
                == styled_message(
                history[i].timestamp,
                history[i].source_id,
                history[i].message,
                LogStyle::spec_dim(),
            ),
    decreases history.len(),
{
    if history.len() > 0 {
        law_no_filter_shows_everything(history.drop_last());
    }
}

/// Tells whether one filter is armed and its match string occurs in `line`.
pub fn matches_line(filter: &LogFilter, line: &str) -> (found: bool)
    ensures
        found == filter_matches(filter.deep_view(), line@),
{
    !filter.msg.as_str().is_empty() && text_contains(line, filter.msg.as_str())
}

/// Runs the filter list over one line: `None` when the line is suppressed,
/// else the style it is shown in.
pub fn verdict(filters: &Vec<LogFilter>, line: &str) -> (r: Option<LogStyle>)
    ensures
        r == evaluate(filters.deep_view(), line@),
{
    let mut style = LogStyle::dim();
    let mut i: usize = 0;
    let ghost all = filters.deep_view();
    proof {
        assert(all.take(0) =~= Seq::<LogFilterView>::empty());
        law_evaluate_in_order(Seq::empty(), all[0], line@);
    }
    while i < filters.len()
        invariant
            i <= filters.len(),
            all == filters.deep_view(),
            evaluate(all.take(i as int), line@) == Some(style),
        decreases filters.len() - i,
    {
        let filter = &filters[i];
        proof {
            assert(all.take(i + 1) =~= all.take(i as int).push(all[i as int]));
            assert(all[i as int] == filter.deep_view());
            law_evaluate_in_order(all.take(i as int), all[i as int], line@);
        }
        let found = matches_line(filter, line);
        match filter.kind {
            LogFilterType::Inclusion => {
                if !found && !filter.msg.as_str().is_empty() {
                    proof {
                        assert(all =~= all.take(i + 1) + all.skip(i + 1));
                        law_suppression_is_final(all.take(i + 1), all.skip(i + 1), line@);
                    }
                    return None;
                }
            },
            LogFilterType::Exclusion => {
                if found {
                    proof {
                        assert(all =~= all.take(i + 1) + all.skip(i + 1));
                        law_suppression_is_final(all.take(i + 1), all.skip(i + 1), line@);
                    }
                    return None;
                }
            },
            LogFilterType::Highlighter => {
                if found {
                    style = filter.style;
                }
            },
        }
        i += 1;
    }
    assert(all.take(filters.len() as int) =~= all);
    Some(style)
}

/// Apply filters to a log message
pub fn apply_filters(
    filters: &Vec<LogFilter>,
    timestamp: LogTimestamp,
    id: i32,
    log: String,
) -> (r: Option<LogMessage>)
    ensures
        r.deep_view() == filtered_message(filters.deep_view(), timestamp, id, log@),
{
    match verdict(filters, log.as_str()) {
        None => None,
        Some(style) => Some(LogMessage { timestamp, source_id: id, message: log, style }),
    }
}

/// Re-derives the filtered view of a whole log history.
pub fn filter_history(history: &Vec<LogMessage>, filters: &Vec<LogFilter>) -> (view: Vec<
    LogMessage,
>)
    ensures
        view.deep_view() == filtered_view(history.deep_view(), filters.deep_view()),
{
    let mut view: Vec<LogMessage> = Vec::new();
    let mut i: usize = 0;
    let ghost all = history.deep_view();
    proof {
        assert(all.take(0) =~= Seq::<LogMessageView>::empty());
        assert(view.deep_view() =~= Seq::<LogMessageView>::empty());
    }
    while i < history.len()
        invariant
            i <= history.len(),
            all == history.deep_view(),
            view.deep_view() == filtered_view(all.take(i as int), filters.deep_view()),
        decreases history.len() - i,
    {
        let m = &history[i];
        proof {
            assert(all.take(i + 1) =~= all.take(i as int).push(all[i as int]));
            assert(all[i as int] == m.deep_view());
            lemma_filtered_view_push(all.take(i as int), all[i as int], filters.deep_view());
        }
        let ghost before = view.deep_view();
        match apply_filters(filters, m.timestamp, m.source_id, m.message.clone()) {
            Some(shown) => {
                view.push(shown);
                assert(view.deep_view() =~= before.push(shown.deep_view()));
            },
            None => {},
        }
        i += 1;
    }
    assert(all.take(history.len() as int) =~= all);
    view
}

} // verus!
