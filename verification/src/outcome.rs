//! The record a read returns and the errors either operation can raise.

use vstd::prelude::*;

verus! {

/// Description of the workspace's `AGENTS.md` file as seen by a read.
///
/// `exists` reports whether the file was present at check time; `content`
/// holds the full decoded text, and is empty when the file is absent.
/// `truncated` is reserved for a future size-limiting policy and is always
/// `false` today.
#[derive(Debug)]
pub struct AgentMdResponse {
    pub exists: bool,
    pub content: String,
    pub truncated: bool,
}

/// Everything that can go wrong while reading or writing the file.
#[derive(Debug)]
pub enum AgentMdError {
    /// The workspace root itself could not be resolved (missing, inaccessible,
    /// or not representable as text); carries the underlying cause.
    RootResolutionError(String),
    /// The resolved target path does not lie beneath the resolved workspace
    /// root: a security boundary violation, never retried.
    PathEscapeError,
    /// The target passed containment but could not be opened, read or written;
    /// carries the full context message.
    IoError(String),
    /// The file's bytes are not valid UTF-8 text; no lossy content is returned.
    EncodingError,
}

impl AgentMdError {
    /// The descriptive text surfaced to the caller for this error.
    pub fn message(&self) -> (r: String)
        ensures
            self is RootResolutionError ==> r@ == "Failed to resolve workspace root: "@
                + self->RootResolutionError_0@,
            self is PathEscapeError ==> r@ == "Invalid file path"@,
            self is IoError ==> r@ == self->IoError_0@,
            self is EncodingError ==> r@ == "File is not valid UTF-8"@,
    {
        match self {
            AgentMdError::RootResolutionError(detail) => String::from_str(
                "Failed to resolve workspace root: ",
            ).concat(detail.as_str()),
            AgentMdError::PathEscapeError => String::from_str("Invalid file path"),
            AgentMdError::IoError(context) => context.clone(),
            AgentMdError::EncodingError => String::from_str("File is not valid UTF-8"),
        }
    }
}

/// The record reported when the file does not exist: absence is a normal
/// outcome of a read, not an error.
pub fn missing_response() -> (r: AgentMdResponse)
    ensures
        r.exists == false,
        r.content@ == Seq::<char>::empty(),
        r.truncated == false,
{
    AgentMdResponse { exists: false, content: String::new(), truncated: false }
}

} // verus!
