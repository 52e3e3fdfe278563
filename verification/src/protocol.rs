//! The line protocol of the recognition helper.
//!
//! The helper writes one message per line on its standard output.  A line is
//! told by its prefix; what follows the prefix, trimmed, is its payload.  A
//! line that is malformed is dropped without further ado.

use crate::number::{is_float, is_float_text};
use crate::text::{chars_of, starts_with, trim_bounds, trimmed};
use vstd::prelude::*;

verus! {

/// One line of the helper's output, read.
#[derive(Debug, PartialEq, Eq)]
pub enum Line {
    /// `PARTIAL:<text>`: the transcript so far.
    Partial { text: String },
    /// `FINAL:<text>`: the finished transcript.
    Final { text: String },
    /// `LEVEL:<number>`: the microphone level.  The value is a
    /// floating-point numeral, still as text.
    Level { value: String },
    /// `ERROR:<message>`: a failure that the helper reports.
    Error { message: String },
    /// Anything else, and a level that is no number; it is ignored.
    Ignored,
}

/// A line as a mathematical value.
pub enum LineView {
    Partial { text: Seq<char> },
    Final { text: Seq<char> },
    Level { value: Seq<char> },
    Error { message: Seq<char> },
    Ignored,
}

impl View for Line {
    type V = LineView;

    open spec fn view(&self) -> LineView {
        match self {
            Line::Partial { text } => LineView::Partial { text: text@ },
            Line::Final { text } => LineView::Final { text: text@ },
            Line::Level { value } => LineView::Level { value: value@ },
            Line::Error { message } => LineView::Error { message: message@ },
            Line::Ignored => LineView::Ignored,
        }
    }
}

pub open spec fn partial_prefix() -> Seq<char> {
    "PARTIAL:"@
}

pub open spec fn final_prefix() -> Seq<char> {
    "FINAL:"@
}

pub open spec fn level_prefix() -> Seq<char> {
    "LEVEL:"@
}

pub open spec fn error_prefix() -> Seq<char> {
    "ERROR:"@
}

/// What a line carries behind `prefix`: the rest of the line, trimmed.  The
/// prefix is taken off once; a payload may itself begin with a prefix.
pub open spec fn payload(line: Seq<char>, prefix: Seq<char>) -> Seq<char> {
    trimmed(line.skip(prefix.len() as int))
}

/// What a line of the helper means.
pub open spec fn line_meaning(line: Seq<char>) -> LineView {
    if partial_prefix().is_prefix_of(line) {
        LineView::Partial { text: payload(line, partial_prefix()) }
    } else if final_prefix().is_prefix_of(line) {
        LineView::Final { text: payload(line, final_prefix()) }
    } else if level_prefix().is_prefix_of(line) {
        if is_float_text(payload(line, level_prefix())) {
            LineView::Level { value: payload(line, level_prefix()) }
        } else {
            LineView::Ignored
        }
    } else if error_prefix().is_prefix_of(line) {
        LineView::Error { message: payload(line, error_prefix()) }
    } else {
        LineView::Ignored
    }
}

/// The payload of `line` behind `prefix`, where `chars` are the characters of
/// the line.
fn payload_of(line: &str, chars: &Vec<char>, prefix: &Vec<char>) -> (out: String)
    requires
        chars@ == line@,
        prefix@.is_prefix_of(chars@),
    ensures
        out@ == payload(line@, prefix@),
{
    let (start, end) = trim_bounds(chars, prefix.len());
    String::from_str(line.substring_char(start, end))
}

/// Reads one line of the helper's output.
pub fn parse_line(line: &str) -> (parsed: Line)
    ensures
        parsed@ == line_meaning(line@),
{
    let chars = chars_of(line);
    let partial = chars_of("PARTIAL:");
    if starts_with(&chars, &partial) {
        return Line::Partial { text: payload_of(line, &chars, &partial) };
    }
    let finished = chars_of("FINAL:");
    if starts_with(&chars, &finished) {
        return Line::Final { text: payload_of(line, &chars, &finished) };
    }
    let level = chars_of("LEVEL:");
    if starts_with(&chars, &level) {
        let value = payload_of(line, &chars, &level);
        if is_float(value.as_str()) {
            return Line::Level { value };
        }
        return Line::Ignored;
    }
    let error = chars_of("ERROR:");
    if starts_with(&chars, &error) {
        return Line::Error { message: payload_of(line, &chars, &error) };
    }
    Line::Ignored
}

} // verus!
