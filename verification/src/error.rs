//! The ways a run can end early.

use vstd::prelude::*;
use vstd::string::*;

verus! {

/// The step of a run that failed. A source file that is missing or cannot be
/// loaded is no failure of the run and has no kind here.
#[derive(Clone, Copy, Debug, PartialEq, Eq, Structural)]
pub enum ErrorKind {
    /// The PDF engine could not be set up.
    EngineInit,
    /// A label could not be put on a page.
    Watermark,
    /// The pages of a loaded document could not be appended.
    Append,
    /// The merged document could not be written.
    Save,
    /// The size of the written file could not be read.
    Stat,
}

/// A failed run: the step that failed and what the failing call reported.
#[derive(Clone, Debug)]
pub struct MergeError {
    pub kind: ErrorKind,
    pub message: String,
}

/// The name of a failed step as it appears in messages.
pub open spec fn kind_text(kind: ErrorKind) -> Seq<char> {
    match kind {
        ErrorKind::EngineInit => "engine initialization failed"@,
        ErrorKind::Watermark => "watermarking failed"@,
        ErrorKind::Append => "appending pages failed"@,
        ErrorKind::Save => "saving the merged document failed"@,
        ErrorKind::Stat => "reading the size of the merged document failed"@,
    }
}

impl MergeError {
    pub fn new(kind: ErrorKind, message: String) -> (error: MergeError)
        ensures
            error.kind == kind,
            error.message == message,
    {
        MergeError { kind, message }
    }

    /// What the error says: the failed step, a colon, and the message.
    pub open spec fn text(self) -> Seq<char> {
        kind_text(self.kind) + ": "@ + self.message@
    }

    /// The error as one line of text.
    pub fn describe(&self) -> (line: String)
        ensures
            line@ == self.text(),
    {
        let mut line = match self.kind {
            ErrorKind::EngineInit => String::from_str("engine initialization failed"),
            ErrorKind::Watermark => String::from_str("watermarking failed"),
            ErrorKind::Append => String::from_str("appending pages failed"),
            ErrorKind::Save => String::from_str("saving the merged document failed"),
            ErrorKind::Stat => String::from_str("reading the size of the merged document failed"),
        };
        line.append(": ");
        line.append(self.message.as_str());
        line
    }
}

} // verus!
