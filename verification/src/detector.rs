//! The change detector: one remembered fingerprint, and the rule that turns
//! each clipboard reading into at most one event.

use crate::fingerprint::content_hash;
use crate::fingerprint::get_clipboard_content_hash;
use vstd::prelude::*;

verus! {

/// What the detector reports about a reading.
#[derive(Clone, Copy, Debug, PartialEq, Eq, Structural)]
pub enum ClipboardEvent {
    /// Non-empty content that is not the content remembered, as far as the
    /// fingerprints tell.
    Changed,
    /// Empty content after content had been remembered.
    Cleared,
    /// The clipboard could not be read after content had been remembered.
    ReadFailed,
}

/// One attempt to read the clipboard, reduced to what the detector looks at.
#[derive(Clone, Copy, Debug, PartialEq, Eq, Structural)]
pub enum Reading {
    /// The clipboard held no text.
    Empty,
    /// The clipboard held non-empty text with this hash.
    Text(u64),
    /// The clipboard could not be read.
    Failed,
}

/// The reading that a successful read of `text` amounts to.
pub open spec fn reading_of(text: Seq<char>) -> Reading {
    if text.len() == 0 {
        Reading::Empty
    } else {
        Reading::Text(content_hash(text))
    }
}

/// The event that a reading raises when `last` is what the snapshot holds:
/// the hash of the content remembered, or nothing for an empty clipboard.
pub open spec fn event_for(last: Option<u64>, reading: Reading) -> Option<ClipboardEvent> {
    match reading {
        Reading::Text(hash) => if last == Some(hash) {
            None
        } else {
            Some(ClipboardEvent::Changed)
        },
        Reading::Empty => if last.is_some() {
            Some(ClipboardEvent::Cleared)
        } else {
            None
        },
        Reading::Failed => if last.is_some() {
            Some(ClipboardEvent::ReadFailed)
        } else {
            None
        },
    }
}

impl Reading {
    /// What is remembered once this reading has been observed: the hash of
    /// non-empty text, nothing otherwise.
    pub open spec fn fingerprint(self) -> Option<u64> {
        match self {
            Reading::Text(hash) => Some(hash),
            Reading::Empty => None,
            Reading::Failed => None,
        }
    }

    /// Classifies text that was read successfully. Empty text is not hashed.
    pub fn of_text(content: &str) -> (reading: Reading)
        ensures
            reading == reading_of(content@),
    {
        if content.is_empty() {
            Reading::Empty
        } else {
            Reading::Text(get_clipboard_content_hash(content))
        }
    }
}

/// The last observed state of the clipboard: the hash of the content seen, or
/// nothing where the clipboard was empty or could not be read.
#[derive(Clone, Copy, Debug, PartialEq, Eq)]
pub struct ClipboardSnapshot {
    fingerprint: Option<u64>,
}

impl View for ClipboardSnapshot {
    type V = Option<u64>;

    closed spec fn view(&self) -> Option<u64> {
        self.fingerprint
    }
}

impl ClipboardSnapshot {
    /// The snapshot of an empty clipboard.
    pub fn empty() -> (snapshot: ClipboardSnapshot)
        ensures
            snapshot@.is_none(),
    {
        ClipboardSnapshot { fingerprint: None }
    }

    /// The snapshot a detector starts from, given its first reading. A failed
    /// or empty first reading leaves it empty; no event is raised for it.
    pub fn initial(first: Reading) -> (snapshot: ClipboardSnapshot)
        ensures
            snapshot@ == first.fingerprint(),
    {
        match first {
            Reading::Text(hash) => ClipboardSnapshot { fingerprint: Some(hash) },
            Reading::Empty => ClipboardSnapshot::empty(),
            Reading::Failed => ClipboardSnapshot::empty(),
        }
    }

    /// The hash of the content remembered, if any.
    pub fn fingerprint(&self) -> (fp: Option<u64>)
        ensures
            fp == self@,
    {
        self.fingerprint
    }

    /// Whether no content is remembered.
    pub fn is_empty(&self) -> (empty: bool)
        ensures
            empty == self@.is_none(),
    {
        self.fingerprint.is_none()
    }

    /// Takes one reading: reports the event it raises, if any, and remembers
    /// the reading's fingerprint.
    pub fn observe(&mut self, reading: Reading) -> (event: Option<ClipboardEvent>)
        ensures
            event == event_for(old(self)@, reading),
            final(self)@ == reading.fingerprint(),
    {
        match reading {
            Reading::Text(hash) => {
                let remembered = match self.fingerprint {
                    Some(last) => last == hash,
                    None => false,
                };
                if remembered {
                    None
                } else {
                    self.fingerprint = Some(hash);
                    Some(ClipboardEvent::Changed)
                }
            },
            Reading::Empty => {
                if self.fingerprint.is_some() {
                    self.fingerprint = None;
                    Some(ClipboardEvent::Cleared)
                } else {
                    None
                }
            },
            Reading::Failed => {
                if self.fingerprint.is_some() {
                    self.fingerprint = None;
                    Some(ClipboardEvent::ReadFailed)
                } else {
                    None
                }
            },
        }
    }
}

} // verus!
