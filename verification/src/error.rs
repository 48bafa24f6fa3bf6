//! The kinds of failure that playback can meet.
//!
//! No failure leaves the engine: it is absorbed where it happens and handed
//! to whoever runs the engine only so that it can be logged.
use vstd::prelude::*;
use vstd::string::*;

verus! {

/// A failure, with the text that describes it.
#[derive(Debug, Clone)]
pub enum AudioPlayerError {
    /// The audio output device is not available.
    OutputStreamError(String),
    /// The track's file was not found or could not be read.
    FileError(String),
    /// The track's data is corrupt or in a format that is not supported.
    DecodeError(String),
    /// The backend refused a seek or another playback control.
    SinkError(String),
}

/// A failure's kind, without its text.
#[derive(Debug, Clone, Copy, PartialEq, Eq)]
pub enum ErrorKind {
    /// The audio output device is not available.
    OutputStreamError,
    /// The track's file was not found or could not be read.
    FileError,
    /// The track's data is corrupt or in a format that is not supported.
    DecodeError,
    /// The backend refused a seek or another playback control.
    SinkError,
}

impl AudioPlayerError {
    /// The kind of this failure.
    pub open spec fn kind_spec(&self) -> ErrorKind {
        match self {
            AudioPlayerError::OutputStreamError(_) => ErrorKind::OutputStreamError,
            AudioPlayerError::FileError(_) => ErrorKind::FileError,
            AudioPlayerError::DecodeError(_) => ErrorKind::DecodeError,
            AudioPlayerError::SinkError(_) => ErrorKind::SinkError,
        }
    }

    /// The text that came with this failure.
    pub open spec fn detail_spec(&self) -> Seq<char> {
        match self {
            AudioPlayerError::OutputStreamError(text) => text@,
            AudioPlayerError::FileError(text) => text@,
            AudioPlayerError::DecodeError(text) => text@,
            AudioPlayerError::SinkError(text) => text@,
        }
    }

    /// What a kind of failure is called in a message.
    pub open spec fn label(kind: ErrorKind) -> Seq<char> {
        match kind {
            ErrorKind::OutputStreamError => "Output stream error: "@,
            ErrorKind::FileError => "File error: "@,
            ErrorKind::DecodeError => "Decode error: "@,
            ErrorKind::SinkError => "Sink error: "@,
        }
    }

    /// The message for this failure: the label of its kind, then its text.
    pub open spec fn message_spec(&self) -> Seq<char> {
        Self::label(self.kind_spec()) + self.detail_spec()
    }

    /// The kind of this failure.
    #[verifier::when_used_as_spec(kind_spec)]
    pub fn kind(&self) -> (kind: ErrorKind)
        ensures
            kind == self.kind_spec(),
    {
        match self {
            AudioPlayerError::OutputStreamError(_) => ErrorKind::OutputStreamError,
            AudioPlayerError::FileError(_) => ErrorKind::FileError,
            AudioPlayerError::DecodeError(_) => ErrorKind::DecodeError,
            AudioPlayerError::SinkError(_) => ErrorKind::SinkError,
        }
    }

    /// The text that came with this failure.
    pub fn detail(&self) -> (text: &String)
        ensures
            text@ == self.detail_spec(),
    {
        match self {
            AudioPlayerError::OutputStreamError(text) => text,
            AudioPlayerError::FileError(text) => text,
            AudioPlayerError::DecodeError(text) => text,
            AudioPlayerError::SinkError(text) => text,
        }
    }

    /// The message for this failure, such as `File error: no such file`.
    pub fn message(&self) -> (text: String)
        ensures
            text@ == self.message_spec(),
    {
        let label: &str = match self {
            AudioPlayerError::OutputStreamError(_) => "Output stream error: ",
            AudioPlayerError::FileError(_) => "File error: ",
            AudioPlayerError::DecodeError(_) => "Decode error: ",
            AudioPlayerError::SinkError(_) => "Sink error: ",
        };
        String::from_str(label).concat(self.detail().as_str())
    }
}

} // verus!
