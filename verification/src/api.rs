//! The plain values the HTTP layer exchanges with this library: request and
//! response payloads, the response envelope, and the status hint attached to
//! every failure.

use vstd::prelude::*;

verus! {

/// Envelope of every successful response: the payload under `data`.
#[derive(Debug, PartialEq, Eq)]
pub struct ApiResponse<T> {
    pub data: T,
}

/// Envelope of every failed response: a message for the caller.
#[derive(Debug, PartialEq, Eq)]
pub struct ApiError {
    pub message: String,
}

/// Which kind of failure a message reports; the transport layer maps these
/// to its status codes.
#[derive(Debug, Clone, Copy, PartialEq, Eq, Structural)]
pub enum StatusHint {
    /// The caller's input is malformed.
    BadInput,
    /// The thing the caller names does not exist.
    NotFound,
    /// The operation would overwrite existing state.
    Conflict,
    /// An internal filesystem or external-process failure.
    Internal,
}

/// Payload of the root greeting endpoint.
#[derive(Debug, PartialEq, Eq)]
pub struct GreetingResponse {
    pub message: &'static str,
}

/// The greeting the root endpoint answers with.
pub fn greeting() -> (r: GreetingResponse)
    ensures
        r.message@ == "Hello, world!"@,
{
    GreetingResponse { message: "Hello, world!" }
}

/// Payload of a clone request: the repository reference to clone.
#[derive(Debug, PartialEq, Eq)]
pub struct CloneSessionRequest {
    pub repository_url: String,
}

/// Payload of a successful clone: the coordinates and the path of the new
/// repository directory.
#[derive(Debug, PartialEq, Eq)]
pub struct CloneSessionResponse {
    pub workspace: String,
    pub repository: String,
    pub path: String,
}

/// Payload of a worktree-creation request: the branch to create.
#[derive(Debug, PartialEq, Eq)]
pub struct CreateWorktreeRequest {
    pub branch: String,
}

/// Payload of a successful worktree creation: the coordinates, the branch
/// as created, and the path of the new worktree directory.
#[derive(Debug, PartialEq, Eq)]
pub struct CreateWorktreeResponse {
    pub workspace: String,
    pub repository: String,
    pub branch: String,
    pub path: String,
}

} // verus!
