//! A log entry and the lines in which its message is shown.

use crate::document::{json_document, parse_document, Document};
use crate::text::{
    all_keywords_found, filter_keeps, line_texts, lowercase, lowercase_chars, plain_lines,
    text_lines,
};
use vstd::prelude::*;

verus! {

/// The lines of a message of which `parsed` says whether it is a JSON
/// document: the pretty-printed document, or else the lines of the raw text.
pub open spec fn rendered(parsed: Option<Document>, message: Seq<char>) -> Seq<Seq<char>> {
    match parsed {
        Some(document) => document.pretty(),
        None => text_lines(message),
    }
}

/// The lines in which a message is shown.
pub open spec fn message_lines(message: Seq<char>) -> Seq<Seq<char>> {
    rendered(json_document(message), message)
}

/// The number of lines in which a message is shown.
pub open spec fn message_line_count(message: Seq<char>) -> nat {
    message_lines(message).len()
}

/// Lays out a message, given the outcome of parsing it.
pub fn render_message(parsed: &Option<Document>, message: &str) -> (lines: Vec<String>)
    ensures
        line_texts(lines@) == rendered(*parsed, message@),
{
    match parsed {
        Some(document) => document.pretty_lines(),
        None => plain_lines(message),
    }
}

/// What a log entry holds.
pub struct EntryView {
    /// Epoch milliseconds.
    pub timestamp: i64,
    pub message: Seq<char>,
    pub ingestion_time: i64,
    /// The lines in which the message is shown.
    pub lines: Seq<Seq<char>>,
    /// Whether the message is a JSON document.
    pub structured: bool,
}

/// One log event. The layout of its message is computed once, when the
/// entry is made.
#[derive(Debug)]
pub struct LogEntry {
    timestamp: i64,
    message: String,
    ingestion_time: i64,
    lowered: Vec<char>,
    lines: Vec<String>,
    structured: bool,
}

impl View for LogEntry {
    type V = EntryView;

    closed spec fn view(&self) -> EntryView {
        EntryView {
            timestamp: self.timestamp,
            message: self.message@,
            ingestion_time: self.ingestion_time,
            lines: line_texts(self.lines@),
            structured: self.structured,
        }
    }
}

impl LogEntry {
    #[verifier::type_invariant]
    spec fn consistent(&self) -> bool {
        &&& self.lowered@ == lowercase(self.message@)
        &&& line_texts(self.lines@) == message_lines(self.message@)
        &&& self.structured == (json_document(self.message@) is Some)
    }

    /// An entry for a message: it is parsed and laid out here.
    pub fn new(timestamp: i64, message: String, ingestion_time: i64) -> (entry: LogEntry)
        ensures
            entry@ == (EntryView {
                timestamp,
                message: message@,
                ingestion_time,
                lines: message_lines(message@),
                structured: json_document(message@) is Some,
            }),
    {
        let parsed = parse_document(message.as_str());
        let lines = render_message(&parsed, message.as_str());
        let lowered = lowercase_chars(message.as_str());
        let structured = parsed.is_some();
        LogEntry { timestamp, message, ingestion_time, lowered, lines, structured }
    }

    pub fn timestamp(&self) -> (r: i64)
        ensures
            r == self@.timestamp,
    {
        self.timestamp
    }

    pub fn ingestion_time(&self) -> (r: i64)
        ensures
            r == self@.ingestion_time,
    {
        self.ingestion_time
    }

    pub fn message(&self) -> (r: &str)
        ensures
            r@ == self@.message,
    {
        self.message.as_str()
    }

    /// Whether the message is a JSON document.
    pub fn is_structured(&self) -> (r: bool)
        ensures
            r == self@.structured,
            r == (json_document(self@.message) is Some),
    {
        proof {
            use_type_invariant(self);
        }
        self.structured
    }

    /// The lines in which the message is shown.
    pub fn lines(&self) -> (r: &Vec<String>)
        ensures
            line_texts(r@) == self@.lines,
            self@.lines == message_lines(self@.message),
    {
        proof {
            use_type_invariant(self);
        }
        &self.lines
    }

    /// The number of lines in which the message is shown.
    pub fn line_count(&self) -> (r: usize)
        ensures
            r == self@.lines.len(),
            r == message_line_count(self@.message),
    {
        proof {
            use_type_invariant(self);
        }
        self.lines.len()
    }

    /// Decides whether the entry stays under `filter`, whose lower-case
    /// form is `lowered_filter`.
    pub(crate) fn keeps(&self, filter: &str, lowered_filter: &Vec<char>) -> (r: bool)
        requires
            lowered_filter@ == lowercase(filter@),
        ensures
            r == filter_keeps(filter@, self@.message),
    {
        proof {
            use_type_invariant(self);
        }
        filter.is_empty() || all_keywords_found(lowered_filter, &self.lowered)
    }
}

} // verus!
