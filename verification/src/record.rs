//! Formatted lines on their way to a destination.

use vstd::prelude::*;

verus! {

/// A destination that receives formatted lines.
#[derive(Debug, Clone, Copy, PartialEq, Eq)]
pub enum Sink {
    /// The append-only log file.
    File,
    /// The console stream.
    Console,
}

/// Text that is to be appended to a sink, exactly as given.
#[derive(Debug, Clone, PartialEq, Eq)]
pub struct Record {
    pub sink: Sink,
    pub text: String,
}

/// The mathematical value of a [`Record`].
pub struct RecordView {
    pub sink: Sink,
    pub text: Seq<char>,
}

impl View for Record {
    type V = RecordView;

    open spec fn view(&self) -> RecordView {
        RecordView { sink: self.sink, text: self.text@ }
    }
}

/// The values of a sequence of records, in the same order.
pub open spec fn record_views(records: Seq<Record>) -> Seq<RecordView> {
    records.map_values(|record: Record| record@)
}

/// The text of one log line: the timestamp, the logger's name and the
/// level, each in square brackets, then the message and a line feed.
pub open spec fn line(
    stamp: Seq<char>,
    name: Seq<char>,
    level: Seq<char>,
    message: Seq<char>,
) -> Seq<char> {
    "["@ + stamp + "] ["@ + name + "] ["@ + level + "] "@ + message + "\n"@
}

/// Builds one log line from its four parts.
pub fn format_line(stamp: &str, name: &str, level: &str, message: &str) -> (text: String)
    ensures
        text@ == line(stamp@, name@, level@, message@),
{
    let mut text = String::new();
    text.append("[");
    text.append(stamp);
    text.append("] [");
    text.append(name);
    text.append("] [");
    text.append(level);
    text.append("] ");
    text.append(message);
    text.append("\n");
    text
}

} // verus!
