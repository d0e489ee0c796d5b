//! Core of a local process supervisor: it tracks the lifecycle of a single
//! backend server process, reports its status, and encodes/decodes the HTTP
//! chat traffic relayed to that backend.
//!
//! The supervisor's decisions (may a start proceed, what does a stop do, what
//! does a status report say) and the JSON request/response handling are
//! verified here; the surrounding process spawning and HTTP transport are
//! performed by the embedding application, which feeds their outcomes back
//! into these functions as plain values.

use vstd::prelude::*;

pub mod json;
pub mod relay;
pub mod supervisor;

verus! {

/// The fixed TCP port the backend API is served on.
pub const API_PORT: u16 = 38080;

/// Every failure the supervisor or the relay can report to the caller.
#[derive(Debug, Clone, Copy, PartialEq, Eq)]
pub enum ApiError {
    /// `start` was called while a process handle is already held.
    AlreadyRunning,
    /// `stop` was called while no process handle is held.
    NotRunning,
    /// The backend's working directory could not be resolved.
    PathResolutionError,
    /// The OS refused to launch the backend process.
    SpawnError,
    /// The freshly launched backend never became healthy.
    StartupHealthCheckFailed,
    /// The termination signal could not be delivered to the process.
    TerminationError,
    /// The generation request never reached the backend.
    TransportError,
    /// The backend answered the generation request with a non-success HTTP
    /// status (carried here).
    ServerError(u16),
    /// The backend's response body was not valid JSON.
    DecodeError,
}

/// A success HTTP status code, as the relay and the health probe classify one.
pub open spec fn is_success_code(code: u16) -> bool {
    200 <= code < 300
}

/// Classifies an HTTP status code as success (2xx) or not.
pub fn status_is_success(code: u16) -> (r: bool)
    ensures
        r == is_success_code(code),
{
    200 <= code && code < 300
}

} // verus!
