//! The ways a session command can fail.

use crate::codec::{CodecError, CodecErrorView};
use vstd::prelude::*;

verus! {

/// What went wrong, by kind.
#[derive(Clone, Copy, Debug, PartialEq, Eq, Structural)]
pub enum ErrorKind {
    /// A listening or local endpoint could not be bound.
    BindError,
    /// The id is already registered.
    DuplicateId,
    /// No session or connection has the id.
    NotFound,
    /// The remote endpoint could not be reached.
    ConnectError,
    /// The message is not valid in its encoding.
    CodecError,
    /// One outbound queue did not take the message.
    SendFailure,
    /// A stopped session's task was not seen to finish.
    ShutdownTimeout,
    /// The command lacks something it needs.
    InvalidRequest,
    /// The session is not connected.
    NotConnected,
    /// The session is connected already.
    AlreadyConnected,
}

/// A failed command: its kind, and a sentence for the person at the screen.
#[derive(Debug)]
pub struct SessionError {
    pub kind: ErrorKind,
    pub message: String,
}

/// The sentence for hex text that was refused; it names the token.
pub open spec fn codec_error_text(error: CodecErrorView) -> Seq<char> {
    match error {
        CodecErrorView::OddLength { token } => "Hex token must have an even number of characters: "@
            + token,
        CodecErrorView::InvalidToken { token } => "Invalid hex characters: "@ + token,
    }
}

/// Whether `r` is the failure of kind `kind` that reads `message`.
pub open spec fn fails_with<T>(r: Result<T, SessionError>, kind: ErrorKind, message: Seq<char>) -> bool {
    &&& r matches Err(e)
    &&& e.kind == kind
    &&& e.message@ == message
}

impl SessionError {
    /// An error of `kind` that reads `message`.
    pub fn new(kind: ErrorKind, message: String) -> (e: SessionError)
        ensures
            e.kind == kind,
            e.message == message,
    {
        SessionError { kind, message }
    }

    /// An error of `kind` that reads `head`, `subject` and `tail` in a row.
    pub fn about(kind: ErrorKind, head: &str, subject: &str, tail: &str) -> (e: SessionError)
        ensures
            e.kind == kind,
            e.message@ == head@ + subject@ + tail@,
    {
        SessionError { kind, message: crate::text::join3(head, subject, tail) }
    }

    /// The codec error for hex text that the parser refused.
    pub fn from_codec(error: CodecError) -> (e: SessionError)
        ensures
            e.kind == ErrorKind::CodecError,
            e.message@ == codec_error_text(error@),
    {
        match error {
            CodecError::OddLength { token } => SessionError {
                kind: ErrorKind::CodecError,
                message: crate::text::join2(
                    "Hex token must have an even number of characters: ",
                    token.as_str(),
                ),
            },
            CodecError::InvalidToken { token } => SessionError {
                kind: ErrorKind::CodecError,
                message: crate::text::join2("Invalid hex characters: ", token.as_str()),
            },
        }
    }
}

} // verus!
