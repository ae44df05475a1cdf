//! Display attributes of a log line, kept as plain data so that the filter
//! engine can assign them and a renderer can map them to its own styles.

use vstd::prelude::*;

verus! {

/// Foreground colours a highlighter can assign.
#[derive(Clone, Copy, Debug, PartialEq, Eq, Structural)]
pub enum LogColor {
    Red,
    Green,
    Yellow,
    White,
    Blue,
    Magenta,
}

/// Display attributes of one line: an optional foreground colour and the
/// dim modifier.
#[derive(Clone, Copy, Debug, PartialEq, Eq, Structural)]
pub struct LogStyle {
    pub fg: Option<LogColor>,
    pub dim: bool,
}

impl LogStyle {
    /// The style of a line that no highlighter touched.
    pub open spec fn spec_dim() -> LogStyle {
        LogStyle { fg: None, dim: true }
    }

    /// The style a highlighter of the given colour assigns.
    pub open spec fn spec_colored(color: LogColor) -> LogStyle {
        LogStyle { fg: Some(color), dim: false }
    }

    /// The default "dim" style.
    #[verifier::when_used_as_spec(spec_dim)]
    pub fn dim() -> (r: LogStyle)
        ensures
            r == LogStyle::spec_dim(),
    {
        LogStyle { fg: None, dim: true }
    }

    /// A plain style with the given foreground colour.
    #[verifier::when_used_as_spec(spec_colored)]
    pub fn colored(color: LogColor) -> (r: LogStyle)
        ensures
            r == LogStyle::spec_colored(color),
    {
        LogStyle { fg: Some(color), dim: false }
    }
}

impl DeepView for LogColor {
    type V = LogColor;

    open spec fn deep_view(&self) -> LogColor {
        *self
    }
}

impl DeepView for LogStyle {
    type V = LogStyle;

    open spec fn deep_view(&self) -> LogStyle {
        *self
    }
}

} // verus!
