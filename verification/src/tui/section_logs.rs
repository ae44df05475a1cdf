//! The panel of the logs: the lines shown, how far they are scrolled,
//! whether the view sticks to the newest line, and the search.

use vstd::prelude::*;

use crate::commander::Command;
use crate::commander::CommandView;
use crate::text::contains_text;
use crate::text::text_contains;
use crate::LogMessage;
use crate::LogMessageView;

use super::Key;
use super::LayoutSection;

verus! {

/// Which way a search goes through the log.
#[derive(Clone, Copy, Debug, PartialEq, Eq, Structural)]
pub enum SearchDirection {
    Forward,
    Backward,
}

/// What the contracts say of a [`SectionLogs`].
pub struct SectionLogsView {
    /// Log offset: the first line shown
    pub vertical_scroll: usize,
    /// Maximum offset
    pub vertical_scroll_limit: usize,
    /// The lines of the panel
    pub logs: Seq<LogMessageView>,
    /// The text searched for; empty while no search is on
    pub search_string: Seq<char>,
    /// The line of the last hit of the search
    pub search_idx: usize,
    /// How many lines are displayed in a page, depends on screen size
    pub page_size: usize,
    /// Should the offset be updated automatically when a new line comes
    pub sticky: bool,
}

/// The first line from `from` up to, not with, `to` that holds `needle`.
pub open spec fn hit_forward(
    logs: Seq<LogMessageView>,
    needle: Seq<char>,
    from: int,
    to: int,
) -> Option<int>
    decreases to - from,
{
    if from >= to {
        None
    } else if contains_text(logs[from].message, needle) {
        Some(from)
    } else {
        hit_forward(logs, needle, from + 1, to)
    }
}

/// The first line from `from` down to, not with, line 0 that holds
/// `needle`.
pub open spec fn hit_backward(logs: Seq<LogMessageView>, needle: Seq<char>, from: int) -> Option<
    int,
>
    decreases from,
{
    if from <= 0 {
        None
    } else if contains_text(logs[from].message, needle) {
        Some(from)
    } else {
        hit_backward(logs, needle, from - 1)
    }
}

/// The sum of two sizes, stopping at the largest size there is.
pub open spec fn capped_sum(a: usize, b: usize) -> usize {
    if a + b > usize::MAX {
        usize::MAX
    } else {
        (a + b) as usize
    }
}

/// The difference of two sizes, stopping at zero.
pub open spec fn floored_difference(a: usize, b: usize) -> usize {
    if a < b {
        0
    } else {
        (a - b) as usize
    }
}

/// The smaller of two sizes.
pub open spec fn smaller(a: usize, b: usize) -> usize {
    if a <= b {
        a
    } else {
        b
    }
}

impl SectionLogsView {
    /// The line that a search starts from: the last hit if it is in
    /// view, else the first line in view.
    pub open spec fn search_origin(self) -> usize {
        if self.search_idx < self.vertical_scroll || self.search_idx > self.vertical_scroll
            + self.page_size {
            self.vertical_scroll
        } else {
            self.search_idx
        }
    }

    /// The line that a search for `needle` finds, if it finds one. A
    /// search forward goes from the line after the origin up to, not with,
    /// the last line; a search backward from the line before the origin down
    /// to, not with, the first.
    pub open spec fn hit(self, needle: Seq<char>, direction: SearchDirection) -> Option<int> {
        let origin = self.search_origin();
        let len = self.logs.len();
        if len == 0 {
            None
        } else {
            match direction {
                SearchDirection::Forward => if origin >= len - 1 {
                    None
                } else {
                    hit_forward(self.logs, needle, origin + 1, len - 1)
                },
                SearchDirection::Backward => if origin == 0 || origin > len {
                    None
                } else {
                    hit_backward(self.logs, needle, origin - 1)
                },
            }
        }
    }

    /// The panel after a search: the origin is remembered, and a hit
    /// becomes the remembered line and is scrolled to the middle of the page.
    pub open spec fn find_log(
        self,
        needle: Seq<char>,
        direction: SearchDirection,
    ) -> SectionLogsView {
        match self.hit(needle, direction) {
            None => SectionLogsView { search_idx: self.search_origin(), ..self },
            Some(line) => SectionLogsView {
                search_idx: line as usize,
                vertical_scroll: floored_difference(
                    line as usize,
                    smaller((self.page_size / 2) as usize, line as usize),
                ),
                ..self
            },
        }
    }

    /// The panel once it knows the height it is drawn in: the scroll
    /// limit and the page size follow the height, a sticky view scrolls to
    /// the limit, and a view that reached the limit becomes sticky.
    pub open spec fn layout(self, height: u16) -> SectionLogsView {
        let limit = if height <= self.logs.len() {
            capped_sum((self.logs.len() - height) as usize, 2)
        } else {
            0
        };
        SectionLogsView {
            vertical_scroll_limit: limit,
            page_size: height as usize,
            vertical_scroll: if self.sticky {
                limit
            } else {
                self.vertical_scroll
            },
            sticky: self.sticky || self.vertical_scroll == limit,
            ..self
        }
    }

    /// The panel after a key: scrolling by line, by page, to either end,
    /// and the search for the next or the previous hit.
    pub open spec fn after_key(self, key: Key) -> SectionLogsView {
        match key {
            Key::Char('j') | Key::Down => SectionLogsView {
                vertical_scroll: smaller(
                    capped_sum(self.vertical_scroll, 1),
                    self.vertical_scroll_limit,
                ),
                ..self
            },
            Key::Char('k') | Key::Up => SectionLogsView {
                vertical_scroll: floored_difference(self.vertical_scroll, 1),
                sticky: false,
                ..self
            },
            Key::Home | Key::Char('g') => SectionLogsView {
                vertical_scroll: 0,
                sticky: false,
                ..self
            },
            Key::PageDown => SectionLogsView {
                vertical_scroll: smaller(
                    capped_sum(self.vertical_scroll, self.page_size),
                    self.vertical_scroll_limit,
                ),
                ..self
            },
            Key::End | Key::Char('G') => SectionLogsView {
                vertical_scroll: smaller(
                    capped_sum(self.vertical_scroll, self.vertical_scroll_limit),
                    self.vertical_scroll_limit,
                ),
                ..self
            },
            Key::PageUp => SectionLogsView {
                vertical_scroll: floored_difference(self.vertical_scroll, self.page_size),
                sticky: false,
                ..self
            },
            Key::Char('n') => if self.search_string.len() > 0 {
                SectionLogsView {
                    sticky: false,
                    ..self.find_log(self.search_string, SearchDirection::Forward)
                }
            } else {
                self
            },
            Key::Char('N') => if self.search_string.len() > 0 {
                SectionLogsView {
                    sticky: false,
                    ..self.find_log(self.search_string, SearchDirection::Backward)
                }
            } else {
                self
            },
            _ => self,
        }
    }

    /// The commands that a key sends: `C` clears the logs.
    pub open spec fn sent_by(self, key: Key) -> Seq<CommandView> {
        match key {
            Key::Char('C') => seq![CommandView::ClearLogs],
            _ => Seq::empty(),
        }
    }
}

/// The panel of the logs.
pub struct SectionLogs {
    /// Log offset
    vertical_scroll: usize,
    /// Maximum offset
    vertical_scroll_limit: usize,
    /// Log message storage
    logs: Vec<LogMessage>,
    /// Log search feature
    search_string: String,
    search_string_log_idx: usize,
    /// How many lines are displayed in a page, depends on screen size
    page_size: usize,
    /// Should the offset be updated automatically when a new log message comes
    sticky: bool,
}

impl DeepView for SectionLogs {
    type V = SectionLogsView;

    closed spec fn deep_view(&self) -> SectionLogsView {
        SectionLogsView {
            vertical_scroll: self.vertical_scroll,
            vertical_scroll_limit: self.vertical_scroll_limit,
            logs: self.logs.deep_view(),
            search_string: self.search_string@,
            search_idx: self.search_string_log_idx,
            page_size: self.page_size,
            sticky: self.sticky,
        }
    }
}

impl SectionLogs {
    /// Makes an empty panel that sticks to the newest line.
    pub fn new() -> (r: SectionLogs)
        ensures
            r.deep_view() == (SectionLogsView {
                vertical_scroll: 0,
                vertical_scroll_limit: 0,
                logs: Seq::empty(),
                search_string: Seq::empty(),
                search_idx: 0,
                page_size: 0,
                sticky: true,
            }),
    {
        let r = SectionLogs {
            logs: Vec::new(),
            search_string: String::new(),
            search_string_log_idx: 0,
            page_size: 0,
            sticky: true,
            vertical_scroll: 0,
            vertical_scroll_limit: 0,
        };
        assert(r.deep_view().logs =~= Seq::empty());
        r
    }

    /// Drops every line and scrolls to the top.
    pub fn clear_logs(&mut self)
        ensures
            final(self).deep_view() == (SectionLogsView {
                logs: Seq::empty(),
                vertical_scroll: 0,
                ..old(self).deep_view()
            }),
    {
        self.logs.clear();
        self.vertical_scroll = 0;
        assert(self.logs.deep_view() =~= Seq::empty());
    }

    /// Takes a new filtered view of the log in place of the lines shown.
    pub fn update_logs(&mut self, new_logs: Vec<LogMessage>)
        ensures
            final(self).deep_view() == (SectionLogsView {
                logs: new_logs.deep_view(),
                ..old(self).deep_view()
            }),
    {
        self.logs = new_logs;
    }

    /// Puts one more line at the end of the panel.
    pub fn append_log(&mut self, message: LogMessage)
        ensures
            final(self).deep_view() == (SectionLogsView {
                logs: old(self).deep_view().logs.push(message.deep_view()),
                ..old(self).deep_view()
            }),
    {
        let ghost before = self.logs.deep_view();
        self.logs.push(message);
        assert(self.logs.deep_view() =~= before.push(message.deep_view()));
    }

    /// Starts a search: the text is remembered and looked for, forward.
    pub fn update_search_log(&mut self, log: String)
        ensures
            final(self).deep_view() == (SectionLogsView {
                search_string: log@,
                ..old(self).deep_view()
            }).find_log(log@, SearchDirection::Forward),
    {
        self.search_string = log.clone();
        self.find_log(log, SearchDirection::Forward);
    }

    /// The lines of the panel.
    pub fn logs(&self) -> (r: &Vec<LogMessage>)
        ensures
            r.deep_view() == self.deep_view().logs,
    {
        &self.logs
    }

    /// The first line shown.
    pub fn vertical_scroll(&self) -> (r: usize)
        ensures
            r == self.deep_view().vertical_scroll,
    {
        self.vertical_scroll
    }

    /// The line of the last hit of the search, while a search is on.
    pub fn search_hit(&self) -> (r: Option<usize>)
        ensures
            r == if self.deep_view().search_string.len() > 0 {
                Some(self.deep_view().search_idx)
            } else {
                None
            },
    {
        if self.search_string.as_str().is_empty() {
            None
        } else {
            Some(self.search_string_log_idx)
        }
    }

    /// Takes the height that the panel is drawn in.
    pub fn layout(&mut self, height: u16)
        ensures
            final(self).deep_view() == old(self).deep_view().layout(height),
    {
        // Update scroll limit value (+2 to take into account borders)
        if height as usize <= self.logs.len() {
            self.vertical_scroll_limit = (self.logs.len() - height as usize).saturating_add(2);
        } else {
            self.vertical_scroll_limit = 0
        }
        // Update page size
        self.page_size = height as usize;
        // Scroll to bottom if sticky, otherwise check if sticky
        if self.sticky {
            self.vertical_scroll = self.vertical_scroll_limit;
        } else if self.vertical_scroll == self.vertical_scroll_limit {
            self.sticky = true;
        }
    }

    /// Looks for the first line that holds `needle`, forward.
    fn scan_forward(&self, needle: &str, from: usize, to: usize) -> (r: Option<usize>)
        requires
            from <= to <= self.deep_view().logs.len(),
        ensures
            match r {
                Some(line) => hit_forward(self.deep_view().logs, needle@, from as int, to as int)
                    == Some(line as int),
                None => hit_forward(self.deep_view().logs, needle@, from as int, to as int)
                    is None,
            },
    {
        let ghost logs = self.deep_view().logs;
        let mut i: usize = from;
        while i < to
            invariant
                from <= i <= to <= self.logs.len(),
                logs == self.deep_view().logs,
                hit_forward(logs, needle@, from as int, to as int) == hit_forward(
                    logs,
                    needle@,
                    i as int,
                    to as int,
                ),
            decreases to - i,
        {
            assert(logs[i as int] == self.logs[i as int].deep_view());
            if text_contains(self.logs[i].message.as_str(), needle) {
                return Some(i);
            }
            i += 1;
        }
        None
    }

    /// Looks for the first line that holds `needle`, backward.
    fn scan_backward(&self, needle: &str, from: usize) -> (r: Option<usize>)
        requires
            from < self.deep_view().logs.len(),
        ensures
            match r {
                Some(line) => hit_backward(self.deep_view().logs, needle@, from as int) == Some(
                    line as int,
                ),
                None => hit_backward(self.deep_view().logs, needle@, from as int) is None,
            },
    {
        let ghost logs = self.deep_view().logs;
        let mut i: usize = from;
        while i > 0
            invariant
                i <= from < self.logs.len(),
                logs == self.deep_view().logs,
                hit_backward(logs, needle@, from as int) == hit_backward(logs, needle@, i as int),
            decreases i,
        {
            assert(logs[i as int] == self.logs[i as int].deep_view());
            if text_contains(self.logs[i].message.as_str(), needle) {
                return Some(i);
            }
            i -= 1;
        }
        None
    }

    /// Search a log containing the given text
    pub fn find_log(&mut self, log: String, direction: SearchDirection)
        ensures
            final(self).deep_view() == old(self).deep_view().find_log(log@, direction),
    {
        // If the last hit is not within view, start from the view
        if self.search_string_log_idx < self.vertical_scroll || self.search_string_log_idx
            > self.vertical_scroll.saturating_add(self.page_size) {
            self.search_string_log_idx = self.vertical_scroll;
        }
        let origin = self.search_string_log_idx;
        let len = self.logs.len();
        if len == 0 {
            return ;
        }
        let found = match direction {
            SearchDirection::Forward => {
                if origin >= len - 1 {
                    None
                } else {
                    self.scan_forward(log.as_str(), origin + 1, len - 1)
                }
            },
            SearchDirection::Backward => {
                if origin == 0 || origin > len {
                    None
                } else {
                    self.scan_backward(log.as_str(), origin - 1)
                }
            },
        };
        if let Some(line) = found {
            self.search_string_log_idx = line;
            let half = self.page_size / 2;
            let offset = if half >= line {
                line
            } else {
                half
            };
            self.vertical_scroll = line - offset;
        }
    }
}

impl LayoutSection for SectionLogs {
    fn process_key(&mut self, key: Key) -> (r: Vec<Command>)
        ensures
            final(self).deep_view() == old(self).deep_view().after_key(key),
            r.deep_view() == old(self).deep_view().sent_by(key),
    {
        let mut out: Vec<Command> = Vec::new();
        assert(out.deep_view() =~= Seq::empty());
        match key {
            // Movement
            Key::Char('j') | Key::Down => {
                let down = self.vertical_scroll.saturating_add(1);
                self.vertical_scroll = if down <= self.vertical_scroll_limit {
                    down
                } else {
                    self.vertical_scroll_limit
                };
            },
            Key::Char('k') | Key::Up => {
                self.vertical_scroll = self.vertical_scroll.saturating_sub(1);
                self.sticky = false;
            },
            Key::Home | Key::Char('g') => {
                self.vertical_scroll = 0;
                self.sticky = false;
            },
            Key::PageDown => {
                let down = self.vertical_scroll.saturating_add(self.page_size);
                self.vertical_scroll = if down <= self.vertical_scroll_limit {
                    down
                } else {
                    self.vertical_scroll_limit
                };
            },
            Key::End | Key::Char('G') => {
                let down = self.vertical_scroll.saturating_add(self.vertical_scroll_limit);
                self.vertical_scroll = if down <= self.vertical_scroll_limit {
                    down
                } else {
                    self.vertical_scroll_limit
                };
            },
            Key::PageUp => {
                self.vertical_scroll = self.vertical_scroll.saturating_sub(self.page_size);
                self.sticky = false;
            },
            // Clear screen
            Key::Char('C') => {
                out.push(Command::ClearLogs);
                assert(out.deep_view() =~= seq![CommandView::ClearLogs]);
            },
            // Search log
            Key::Char('n') => {
                if !self.search_string.as_str().is_empty() {
                    self.find_log(self.search_string.clone(), SearchDirection::Forward);
                    self.sticky = false;
                }
            },
            Key::Char('N') => {
                if !self.search_string.as_str().is_empty() {
                    self.find_log(self.search_string.clone(), SearchDirection::Backward);
                    self.sticky = false;
                }
            },
            _ => {},
        }
        out
    }

    fn min_lines(&self) -> (r: usize)
        ensures
            r == smaller(self.deep_view().logs.len() as usize, 1),
    {
        if self.logs.len() < 1 {
            self.logs.len()
        } else {
            1
        }
    }
}

} // verus!
