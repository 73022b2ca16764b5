//! Lines of output, each bound for the console or for the log.

use vstd::prelude::*;
use vstd::string::StringExecFns;

verus! {

/// Where a line of output goes.
#[derive(Debug, Clone, Copy, PartialEq, Eq)]
pub enum Channel {
    /// Standard output, as it is.
    Console,
    /// The log, as information.
    Info,
    /// The log, as a warning.
    Warn,
    /// The log, as an error.
    Error,
}

/// One line of output.
#[derive(Debug, Clone, PartialEq, Eq)]
pub struct Line {
    /// Where the line goes.
    pub channel: Channel,
    /// What the line says, without a line end.
    pub text: String,
}

/// A [`Line`] as mathematical values.
pub struct LineView {
    pub channel: Channel,
    pub text: Seq<char>,
}

impl View for Line {
    type V = LineView;

    open spec fn view(&self) -> LineView {
        LineView { channel: self.channel, text: self.text@ }
    }
}

/// The views of a sequence of lines, in order.
pub open spec fn line_views(lines: Seq<Line>) -> Seq<LineView> {
    lines.map_values(|line: Line| line@)
}

/// The texts sent to `channel`, one line each, in order.
pub open spec fn on_channel(channel: Channel, texts: Seq<Seq<char>>) -> Seq<LineView> {
    texts.map_values(|text: Seq<char>| LineView { channel, text })
}

impl Line {
    /// A line for `channel` that says `text`.
    pub fn new(channel: Channel, text: String) -> (line: Line)
        ensures
            line@ == (LineView { channel, text: text@ }),
    {
        Line { channel, text }
    }

    /// A line for `channel` that says the literal `text`.
    pub fn fixed(channel: Channel, text: &str) -> (line: Line)
        ensures
            line@ == (LineView { channel, text: text@ }),
    {
        Line { channel, text: String::from_str(text) }
    }
}

} // verus!
