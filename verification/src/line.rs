//! The wire format: one line per record.

use crate::level::Level;
use vstd::prelude::*;
use vstd::string::*;
use vstd::utf8::*;

verus! {

/// The text of the line for a record: `[ LEVEL ] message`, ended by carriage return and
/// line feed.
pub open spec fn line_text(level: Level, message: Seq<char>) -> Seq<char> {
    "[ "@ + level.name() + " ] "@ + message + "\r\n"@
}

/// The bytes that go out for a record: its line in UTF-8.
pub open spec fn line_bytes(level: Level, message: Seq<char>) -> Seq<u8> {
    encode_utf8(line_text(level, message))
}

/// The text of the record that announces the threshold a logger was started with.
pub open spec fn announcement_text(threshold: Level) -> Seq<char> {
    "Initialized logger. Level = "@ + threshold.name() + "."@
}

/// Formats the line for a record of `level` with text `message`.
pub fn format_line(level: Level, message: &str) -> (line: Vec<u8>)
    ensures
        line@ == line_bytes(level, message@),
{
    let mut text = String::from_str("[ ");
    text.append(level.as_str());
    text.append(" ] ");
    text.append(message);
    text.append("\r\n");
    text.as_str().as_bytes_vec()
}

/// Formats the text that announces `threshold`.
pub fn format_announcement(threshold: Level) -> (text: String)
    ensures
        text@ == announcement_text(threshold),
{
    let mut text = String::from_str("Initialized logger. Level = ");
    text.append(threshold.as_str());
    text.append(".");
    text
}

} // verus!
