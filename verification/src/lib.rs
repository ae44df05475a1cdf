//! Log aggregation for embedded-device debugging: reassembly of byte chunks
//! into lines, the filter engine, the source registry and the dispatch loop
//! that serialises every change of state.

use vstd::prelude::*;
use vstd::string::StringExecFns;

pub mod command_parser;
pub mod commander;
pub mod configuration;
pub mod filter;
pub mod log_source;
pub mod reassembly;
pub mod style;
pub mod text;
pub mod tui;

use crate::style::LogStyle;

verus! {

/// Wall-clock time of day at which a line was reassembled.
///
/// A value is well formed when it names a real time of day; the millisecond
/// part may reach 1999 to leave room for a leap second.
#[derive(Clone, Copy, Debug, PartialEq, Eq, Structural)]
pub struct LogTimestamp {
    hour: u32,
    minute: u32,
    second: u32,
    ms: u32,
}

impl LogTimestamp {
    /// Every timestamp names a real time of day.
    #[verifier::type_invariant]
    pub open spec fn wf(self) -> bool {
        &&& self.hour() < 24
        &&& self.minute() < 60
        &&& self.second() < 60
        &&& self.ms() < 2000
    }

    /// The hour of the day.
    pub closed spec fn hour(self) -> u32 {
        self.hour
    }

    /// The minute of the hour.
    pub closed spec fn minute(self) -> u32 {
        self.minute
    }

    /// The second of the minute.
    pub closed spec fn second(self) -> u32 {
        self.second
    }

    /// The milliseconds since the last second boundary.
    pub closed spec fn ms(self) -> u32 {
        self.ms
    }

    /// Seconds elapsed since midnight, as a mathematical integer.
    pub open spec fn seconds_since_midnight(self) -> int {
        self.hour() * 3600 + self.minute() * 60 + self.second()
    }

    /// Builds a timestamp from its parts, or `None` when they name no time of day.
    pub fn from_hms_milli(hour: u32, minute: u32, second: u32, ms: u32) -> (r: Option<LogTimestamp>)
        ensures
            (hour < 24 && minute < 60 && second < 60 && ms < 2000) <==> r is Some,
            r matches Some(t) ==> t.wf() && t.hour() == hour && t.minute() == minute
                && t.second() == second && t.ms() == ms,
    {
        if hour < 24 && minute < 60 && second < 60 && ms < 2000 {
            Some(LogTimestamp { hour, minute, second, ms })
        } else {
            None
        }
    }

    /// The text `HH:MM:SS.mmm` of a timestamp.
    pub open spec fn text(self) -> Seq<char> {
        crate::text::two_digits(self.hour() as int) + seq![':'] + crate::text::two_digits(
            self.minute() as int,
        ) + seq![':'] + crate::text::two_digits(self.second() as int) + seq!['.']
            + crate::text::three_digits(self.ms() as int)
    }

    /// Get string representation from timestamp
    pub fn to_string(&self) -> (r: String)
        ensures
            r@ == self.text(),
    {
        proof {
            use_type_invariant(self);
            reveal_strlit(":");
            reveal_strlit(".");
        }
        let mut out = String::new();
        crate::text::push_two_digits(&mut out, self.hour);
        out.append(":");
        crate::text::push_two_digits(&mut out, self.minute);
        out.append(":");
        crate::text::push_two_digits(&mut out, self.second);
        out.append(".");
        crate::text::push_three_digits(&mut out, self.ms);
        assert(out@ =~= self.text());
        out
    }

    /// Get current timestamp
    pub fn now() -> (r: LogTimestamp)
        ensures
            r.wf(),
    {
        let (hour, minute, second, ms) = local_time_of_day();
        LogTimestamp { hour, minute, second, ms }
    }

    /// Whole seconds since midnight.
    pub fn second_count(&self) -> (r: u32)
        ensures
            r == self.seconds_since_midnight(),
            r < 86400,
    {
        proof {
            use_type_invariant(self);
        }
        self.hour * 3600 + self.minute * 60 + self.second
    }
}

impl DeepView for LogTimestamp {
    type V = LogTimestamp;

    open spec fn deep_view(&self) -> LogTimestamp {
        *self
    }
}

/// One reassembled line.
#[derive(Debug)]
pub struct LogMessage {
    pub timestamp: LogTimestamp,
    pub source_id: i32,
    pub message: String,
    pub style: LogStyle,
}

/// What the contracts say of a [`LogMessage`]: its text as characters.
pub struct LogMessageView {
    pub timestamp: LogTimestamp,
    pub source_id: i32,
    pub message: Seq<char>,
    pub style: LogStyle,
}

impl DeepView for LogMessage {
    type V = LogMessageView;

    open spec fn deep_view(&self) -> LogMessageView {
        LogMessageView {
            timestamp: self.timestamp,
            source_id: self.source_id,
            message: self.message@,
            style: self.style,
        }
    }
}

impl Clone for LogMessage {
    fn clone(&self) -> (r: LogMessage)
        ensures
            r == *self,
    {
        LogMessage {
            timestamp: self.timestamp,
            source_id: self.source_id,
            message: self.message.clone(),
            style: self.style,
        }
    }
}

/// The three kinds of filter: deny-list, allow-list and style-only.
#[derive(Clone, Copy, Debug, PartialEq, Eq, Structural)]
pub enum LogFilterType {
    Exclusion,
    Inclusion,
    Highlighter,
}

impl DeepView for LogFilterType {
    type V = LogFilterType;

    open spec fn deep_view(&self) -> LogFilterType {
        *self
    }
}

/// One filter rule: a kind, the case-sensitive substring to look for and the
/// style a highlighter assigns.
#[derive(Debug)]
pub struct LogFilter {
    pub kind: LogFilterType,
    pub msg: String,
    pub style: LogStyle,
}

/// What the contracts say of a [`LogFilter`].
pub struct LogFilterView {
    pub kind: LogFilterType,
    pub msg: Seq<char>,
    pub style: LogStyle,
}

impl DeepView for LogFilter {
    type V = LogFilterView;

    open spec fn deep_view(&self) -> LogFilterView {
        LogFilterView { kind: self.kind, msg: self.msg@, style: self.style }
    }
}

impl Clone for LogFilter {
    fn clone(&self) -> (r: LogFilter)
        ensures
            r == *self,
    {
        LogFilter { kind: self.kind, msg: self.msg.clone(), style: self.style }
    }
}

/// Reads the local wall clock through `chrono::Local::now` and hands back its
/// hour, minute, second and the milliseconds since the last second boundary.
/// Claimed of chrono: the hour is below 24, minute and second are below 60,
/// and the millisecond part stays below 2000 (it passes 999 only while a leap
/// second is being represented).
#[verifier::external_body]
fn local_time_of_day() -> (r: (u32, u32, u32, u32))
    ensures
        r.0 < 24,
        r.1 < 60,
        r.2 < 60,
        r.3 < 2000,
{
    let now = chrono::Local::now();
    (
        chrono::Timelike::hour(&now),
        chrono::Timelike::minute(&now),
        chrono::Timelike::second(&now),
        now.timestamp_subsec_millis(),
    )
}

} // verus!
