//! One turn of the polling loop: from the outcome of a clipboard read to the
//! line, if any, that the caller has to write out.
//!
//! The caller reads the clipboard, hands the outcome to [`poll`], writes the
//! notice it gets back, sleeps for [`POLL_INTERVAL_SECS`] and starts over.

use crate::detector::event_for;
use crate::detector::reading_of;
use crate::detector::ClipboardEvent;
use crate::detector::ClipboardSnapshot;
use crate::detector::Reading;
use vstd::prelude::*;
use vstd::string::StringExecFns;

verus! {

/// Seconds to sleep between two reads, however long the read took.
pub const POLL_INTERVAL_SECS: u64 = 1;

/// An event together with the line that reports it.
#[derive(Debug)]
pub struct Notice {
    pub event: ClipboardEvent,
    pub line: String,
}

/// The reading that the outcome of a read amounts to. The error's text plays
/// no part in it.
pub open spec fn reading_of_read(read: Result<&str, &str>) -> Reading {
    match read {
        Ok(content) => reading_of(content@),
        Err(_) => Reading::Failed,
    }
}

/// What a read contributes to the line that reports it: the content of a
/// successful read, the error's text of a failed one.
pub open spec fn detail_of(read: Result<&str, &str>) -> Seq<char> {
    match read {
        Ok(content) => content@,
        Err(error) => error@,
    }
}

/// The line that reports `event`; `detail` is the new content for a change and
/// the error's text for a failed read.
pub open spec fn line_of(event: ClipboardEvent, detail: Seq<char>) -> Seq<char> {
    match event {
        ClipboardEvent::Changed => "Clipboard content changed: "@ + detail,
        ClipboardEvent::Cleared => "Clipboard content cleared"@,
        ClipboardEvent::ReadFailed => "Failed to read clipboard content: "@ + detail,
    }
}

impl ClipboardEvent {
    /// Whether the event reports a failure, which belongs on the error stream.
    pub fn is_error(self) -> (error: bool)
        ensures
            error == (self == ClipboardEvent::ReadFailed),
    {
        match self {
            ClipboardEvent::ReadFailed => true,
            ClipboardEvent::Changed => false,
            ClipboardEvent::Cleared => false,
        }
    }

    /// Builds the line that reports the event.
    pub fn line(self, detail: &str) -> (line: String)
        ensures
            line@ == line_of(self, detail@),
    {
        match self {
            ClipboardEvent::Changed => {
                let mut line = String::from_str("Clipboard content changed: ");
                line.append(detail);
                line
            },
            ClipboardEvent::Cleared => String::from_str("Clipboard content cleared"),
            ClipboardEvent::ReadFailed => {
                let mut line = String::from_str("Failed to read clipboard content: ");
                line.append(detail);
                line
            },
        }
    }
}

/// Classifies the outcome of a read.
pub fn classify(read: Result<&str, &str>) -> (reading: Reading)
    ensures
        reading == reading_of_read(read),
{
    match read {
        Ok(content) => Reading::of_text(content),
        Err(_) => Reading::Failed,
    }
}

/// The snapshot that polling starts from, given the outcome of the first
/// read. Nothing is reported for it.
pub fn start(first: Result<&str, &str>) -> (snapshot: ClipboardSnapshot)
    ensures
        snapshot@ == reading_of_read(first).fingerprint(),
{
    ClipboardSnapshot::initial(classify(first))
}

/// Takes the outcome of one read: updates the snapshot and returns the notice
/// to write out, if the read raised an event.
pub fn poll(snapshot: &mut ClipboardSnapshot, read: Result<&str, &str>) -> (notice: Option<Notice>)
    ensures
        final(snapshot)@ == reading_of_read(read).fingerprint(),
        match event_for(old(snapshot)@, reading_of_read(read)) {
            Some(event) => notice.is_some() && notice.unwrap().event == event
                && notice.unwrap().line@ == line_of(event, detail_of(read)),
            None => notice.is_none(),
        },
{
    let detail: &str = match read {
        Ok(content) => content,
        Err(error) => error,
    };
    match snapshot.observe(classify(read)) {
        Some(event) => Some(Notice { event, line: event.line(detail) }),
        None => None,
    }
}

} // verus!
