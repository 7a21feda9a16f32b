//! The error type surfaced to the frontend, and the text each error shows.

use vstd::prelude::*;

use crate::text::{decimal, decimal_string};

verus! {

/// Errors surfaced to the frontend. Outside errors (I/O, HTTP, the speech
/// engine) arrive here already rendered as text.
#[derive(Debug, Clone, PartialEq, Eq)]
pub enum TranscribeError {
    ModelNotLoaded,
    AudioTooShort(usize),
    WhisperFailed(String),
    Io(String),
    Download(String),
    HashMismatch { expected: String, actual: String },
    Other(String),
}

/// `a` followed by `b`.
pub fn join_str(a: &str, b: &str) -> (s: String)
    ensures
        s@ == a@ + b@,
{
    let mut s = String::from_str(a);
    s.append(b);
    s
}

impl TranscribeError {
    /// The text shown for this error.
    pub open spec fn message_chars(&self) -> Seq<char> {
        match self {
            TranscribeError::ModelNotLoaded => "model not loaded"@,
            TranscribeError::AudioTooShort(n) => "audio too short ("@ + decimal(*n as nat)
                + " samples)"@,
            TranscribeError::WhisperFailed(m) => "whisper failed: "@ + m@,
            TranscribeError::Io(m) => "io error: "@ + m@,
            TranscribeError::Download(m) => "download failed: "@ + m@,
            TranscribeError::HashMismatch { expected, actual } => "hash mismatch (expected "@
                + expected@ + ", got "@ + actual@ + ")"@,
            TranscribeError::Other(m) => m@,
        }
    }

    /// Renders the error as the frontend shows it.
    pub fn message(&self) -> (r: String)
        ensures
            r@ == self.message_chars(),
    {
        match self {
            TranscribeError::ModelNotLoaded => String::from_str("model not loaded"),
            TranscribeError::AudioTooShort(n) => {
                let mut s = String::from_str("audio too short (");
                let d = decimal_string(*n);
                s.append(d.as_str());
                s.append(" samples)");
                s
            },
            TranscribeError::WhisperFailed(m) => join_str("whisper failed: ", m.as_str()),
            TranscribeError::Io(m) => join_str("io error: ", m.as_str()),
            TranscribeError::Download(m) => join_str("download failed: ", m.as_str()),
            TranscribeError::HashMismatch { expected, actual } => {
                let mut s = String::from_str("hash mismatch (expected ");
                s.append(expected.as_str());
                s.append(", got ");
                s.append(actual.as_str());
                s.append(")");
                s
            },
            TranscribeError::Other(m) => m.clone(),
        }
    }
}

} // verus!
