//! What can go wrong, and how it is reported.

use vstd::prelude::*;
use crate::status::{status_line, status_line_text};
use crate::text::append_str;

verus! {

/// The families of failure.
#[derive(Clone, Copy, Debug, PartialEq, Eq, Structural)]
pub enum ErrorKind {
    /// The caller asked for something that cannot be set up.
    Configuration,
    /// A command came while no session exists.
    State,
    /// The upstream model could not be reached in time.
    Network,
    /// The upstream model answered, but not with a usable completion.
    Protocol,
}

/// A failure of a command or of a call to the upstream model.
#[derive(Clone, Debug, PartialEq, Eq)]
pub enum MixError {
    /// No anchor has a positive weight.
    NoActiveAnchors,
    /// The speed name is neither `slow` nor `fast`.
    UnknownSpeed(String),
    /// No session has been started.
    NoSession,
    /// The HTTP client could not be set up.
    Client(String),
    /// The request could not be sent, or no answer came in time.
    Transport(String),
    /// The answer could not be read to its end.
    Unreadable(String),
    /// The upstream model answered with a status outside 200..=299. The
    /// message shows the status with its reason, such as `404 Not Found`.
    Status { code: u16, body: String },
    /// The answer is not a JSON document.
    InvalidJson(String),
    /// The answer holds no text at `choices[0].message.content`.
    MissingContent,
}

impl MixError {
    /// The family of this failure.
    pub open spec fn kind_of(self) -> ErrorKind {
        match self {
            MixError::NoActiveAnchors => ErrorKind::Configuration,
            MixError::UnknownSpeed(_) => ErrorKind::Configuration,
            MixError::NoSession => ErrorKind::State,
            MixError::Client(_) => ErrorKind::Network,
            MixError::Transport(_) => ErrorKind::Network,
            MixError::Unreadable(_) => ErrorKind::Network,
            MixError::Status { .. } => ErrorKind::Protocol,
            MixError::InvalidJson(_) => ErrorKind::Protocol,
            MixError::MissingContent => ErrorKind::Protocol,
        }
    }

    /// The sentence that tells a person what went wrong.
    pub open spec fn message_text(self) -> Seq<char> {
        match self {
            MixError::NoActiveAnchors => "No active anchors (all weights are 0)"@,
            MixError::UnknownSpeed(name) => "Unknown speed: "@ + name@
                + ". Use 'slow' or 'fast'."@,
            MixError::NoSession => "No active session"@,
            MixError::Client(cause) => "Failed to create HTTP client: "@ + cause@,
            MixError::Transport(cause) => "HTTP request failed: "@ + cause@,
            MixError::Unreadable(cause) => "Failed to read response: "@ + cause@,
            MixError::Status { code, body } => "LLM API error ("@ + status_line_text(code)
                + "): "@ + body@,
            MixError::InvalidJson(cause) => "Invalid JSON: "@ + cause@,
            MixError::MissingContent => "No content in LLM response"@,
        }
    }

    /// The family of this failure.
    pub fn kind(&self) -> (out: ErrorKind)
        ensures
            out == self.kind_of(),
    {
        match self {
            MixError::NoActiveAnchors => ErrorKind::Configuration,
            MixError::UnknownSpeed(_) => ErrorKind::Configuration,
            MixError::NoSession => ErrorKind::State,
            MixError::Client(_) => ErrorKind::Network,
            MixError::Transport(_) => ErrorKind::Network,
            MixError::Unreadable(_) => ErrorKind::Network,
            MixError::Status { .. } => ErrorKind::Protocol,
            MixError::InvalidJson(_) => ErrorKind::Protocol,
            MixError::MissingContent => ErrorKind::Protocol,
        }
    }

    /// The sentence that tells a person what went wrong.
    pub fn message(&self) -> (out: String)
        ensures
            out@ == self.message_text(),
    {
        let mut out = String::new();
        match self {
            MixError::NoActiveAnchors => {
                append_str(&mut out, "No active anchors (all weights are 0)");
            },
            MixError::UnknownSpeed(name) => {
                append_str(&mut out, "Unknown speed: ");
                append_str(&mut out, name.as_str());
                append_str(&mut out, ". Use 'slow' or 'fast'.");
            },
            MixError::NoSession => {
                append_str(&mut out, "No active session");
            },
            MixError::Client(cause) => {
                append_str(&mut out, "Failed to create HTTP client: ");
                append_str(&mut out, cause.as_str());
            },
            MixError::Transport(cause) => {
                append_str(&mut out, "HTTP request failed: ");
                append_str(&mut out, cause.as_str());
            },
            MixError::Unreadable(cause) => {
                append_str(&mut out, "Failed to read response: ");
                append_str(&mut out, cause.as_str());
            },
            MixError::Status { code, body } => {
                append_str(&mut out, "LLM API error (");
                let shown = status_line(*code);
                append_str(&mut out, shown.as_str());
                append_str(&mut out, "): ");
                append_str(&mut out, body.as_str());
            },
            MixError::InvalidJson(cause) => {
                append_str(&mut out, "Invalid JSON: ");
                append_str(&mut out, cause.as_str());
            },
            MixError::MissingContent => {
                append_str(&mut out, "No content in LLM response");
            },
        }
        out
    }
}

} // verus!
