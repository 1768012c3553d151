//! Records for the logging sink, and the failures a channel reports through it.

use vstd::prelude::*;
use vstd::string::*;

verus! {

/// Severity of a log record.
#[derive(Clone, Copy, Debug, PartialEq, Eq)]
pub enum Level {
    Info,
    Warn,
}

/// What a [`LogRecord`] says: a severity and the characters of its text.
pub struct Entry {
    pub level: Level,
    pub text: Seq<char>,
}

/// One line for the logging sink. The caller adds its own context when
/// handing the record on.
#[derive(Debug, PartialEq, Eq)]
pub struct LogRecord {
    pub level: Level,
    pub text: String,
}

impl View for LogRecord {
    type V = Entry;

    open spec fn view(&self) -> Entry {
        Entry { level: self.level, text: self.text@ }
    }
}

/// A failure observed on a channel. Each variant but `Send` carries the detail
/// that the failing operation gave.
#[derive(Debug, PartialEq, Eq)]
pub enum Failure {
    /// A message could not be rendered as a line.
    Encode(String),
    /// Writing a line to the outbound stream failed.
    Write(String),
    /// Flushing the outbound stream failed.
    Flush(String),
    /// A message was handed to a queue that no pump drains any more.
    Send,
    /// Reading the next line from the inbound stream failed.
    Read(String),
    /// A line that was read is not a well-formed message.
    Decode(String),
}

/// What a [`Failure`] says, with each detail as a sequence of characters.
pub enum FailureView {
    Encode(Seq<char>),
    Write(Seq<char>),
    Flush(Seq<char>),
    Send,
    Read(Seq<char>),
    Decode(Seq<char>),
}

impl View for Failure {
    type V = FailureView;

    open spec fn view(&self) -> FailureView {
        match self {
            Failure::Encode(detail) => FailureView::Encode(detail@),
            Failure::Write(detail) => FailureView::Write(detail@),
            Failure::Flush(detail) => FailureView::Flush(detail@),
            Failure::Send => FailureView::Send,
            Failure::Read(detail) => FailureView::Read(detail@),
            Failure::Decode(detail) => FailureView::Decode(detail@),
        }
    }
}

impl FailureView {
    /// A recoverable failure costs one message and leaves its side of the
    /// channel working; any other ends that side for good.
    pub open spec fn is_recoverable(self) -> bool {
        self is Encode || self is Decode
    }

    /// The text under which the failure is logged.
    pub open spec fn text(self) -> Seq<char> {
        match self {
            FailureView::Encode(detail) => "[Ipc]: failed to encode message: "@ + detail,
            FailureView::Write(detail) => "failed to write message length: "@ + detail,
            FailureView::Flush(detail) => "failed to flush: "@ + detail,
            FailureView::Send => "failed to send message"@,
            FailureView::Read(detail) => "failed to read next line "@ + detail,
            FailureView::Decode(detail) => "failed to deserialize message: "@ + detail,
        }
    }

    /// The record under which the failure is logged: a warning with [`Self::text`].
    pub open spec fn entry(self) -> Entry {
        Entry { level: Level::Warn, text: self.text() }
    }
}

/// The text made of `prefix` followed by `detail`.
fn prefixed(prefix: &str, detail: &str) -> (text: String)
    ensures
        text@ == prefix@ + detail@,
{
    let mut text = prefix.to_owned();
    text.append(detail);
    text
}

impl Failure {
    /// Whether the side of the channel that met this failure goes on working.
    pub fn is_recoverable(&self) -> (r: bool)
        ensures
            r == self@.is_recoverable(),
    {
        match self {
            Failure::Encode(_) => true,
            Failure::Decode(_) => true,
            _ => false,
        }
    }

    /// The warning under which this failure is logged.
    pub fn record(&self) -> (r: LogRecord)
        ensures
            r@ == self@.entry(),
    {
        let text = match self {
            Failure::Encode(detail) => prefixed("[Ipc]: failed to encode message: ", detail.as_str()),
            Failure::Write(detail) => prefixed("failed to write message length: ", detail.as_str()),
            Failure::Flush(detail) => prefixed("failed to flush: ", detail.as_str()),
            Failure::Send => "failed to send message".to_owned(),
            Failure::Read(detail) => prefixed("failed to read next line ", detail.as_str()),
            Failure::Decode(detail) => prefixed("failed to deserialize message: ", detail.as_str()),
        };
        LogRecord { level: Level::Warn, text }
    }
}

} // verus!
