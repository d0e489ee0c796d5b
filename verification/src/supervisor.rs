//! Lifecycle state machine of the supervised backend process.
//!
//! The supervisor owns at most one process handle at a time, modelled here by
//! the process identifier. The embedding application performs the actual
//! spawn, kill, wait and health probe, and drives this state machine with
//! their outcomes: `begin_start` decides whether a launch may proceed,
//! `record_spawn` stores the new handle, `complete_start` reacts to the
//! post-launch health probe, `request_stop` releases the handle for
//! termination, and `status` derives the externally visible report.

use vstd::prelude::*;

use crate::ApiError;
use crate::API_PORT;
use crate::is_success_code;

verus! {

/// The supervisor's only mutable state: the held process handle (by process
/// identifier) and the configured API port.
pub struct ServerState {
    /// Identifier of the running backend process, while a handle is held.
    pub process: Option<u32>,
    /// The port the backend was told to serve its API on.
    pub port: u16,
}

/// The point-in-time report handed to the caller; derived, never stored.
#[derive(Debug, Clone, Copy, PartialEq, Eq)]
pub struct ServerStatus {
    /// Whether the backend is actually reachable, not merely spawned.
    pub running: bool,
    /// The configured API port.
    pub port: u16,
    /// The identifier of the held process, if any, healthy or not.
    pub pid: Option<u32>,
}

/// A freshly initialized supervisor: no handle, the fixed port.
pub open spec fn initial_state() -> ServerState {
    ServerState { process: None, port: API_PORT }
}

/// The start precondition check: a held handle refuses a second start.
pub open spec fn spec_begin_start(s: ServerState) -> Result<(), ApiError> {
    if s.process is Some {
        Err(ApiError::AlreadyRunning)
    } else {
        Ok(())
    }
}

/// Recording a successful spawn: the handle is stored immediately.
pub open spec fn spec_record_spawn(s: ServerState, pid: u32) -> ServerState {
    ServerState { process: Some(pid), port: s.port }
}

/// The decision after the post-spawn health probe: a healthy backend keeps
/// its handle and reports its identifier; an unhealthy one is torn down.
pub open spec fn spec_complete_start(s: ServerState, healthy: bool) -> (ServerState, Result<
    u32,
    ApiError,
>) {
    if healthy {
        (s, Ok(s.process->Some_0))
    } else {
        (ServerState { process: None, port: s.port }, Err(ApiError::StartupHealthCheckFailed))
    }
}

/// The stop transition: with no handle it is refused; otherwise the handle is
/// released unconditionally, to be terminated by the caller.
pub open spec fn spec_request_stop(s: ServerState) -> (ServerState, Result<u32, ApiError>) {
    match s.process {
        None => (s, Err(ApiError::NotRunning)),
        Some(pid) => (ServerState { process: None, port: s.port }, Ok(pid)),
    }
}

/// The status report derived from the state and the health probe's answer:
/// `running` demands both a held handle and actual reachability.
pub open spec fn spec_status(s: ServerState, healthy: bool) -> ServerStatus {
    ServerStatus { running: s.process is Some && healthy, port: s.port, pid: s.process }
}

impl ServerState {
    /// A supervisor starts its life with no process and the fixed port.
    pub fn new() -> (s: ServerState)
        ensures
            s == initial_state(),
    {
        ServerState { process: None, port: API_PORT }
    }

    /// Decides whether a start attempt may proceed: refused with
    /// `AlreadyRunning` if and only if a handle is already held. The state is
    /// not touched.
    pub fn begin_start(&self) -> (r: Result<(), ApiError>)
        ensures
            r == spec_begin_start(*self),
    {
        if self.process.is_some() {
            Err(ApiError::AlreadyRunning)
        } else {
            Ok(())
        }
    }

    /// Stores the handle of the process the caller just spawned, so that
    /// concurrent status checks observe it as soon as the process exists.
    pub fn record_spawn(&mut self, pid: u32)
        ensures
            *final(self) == spec_record_spawn(*old(self), pid),
    {
        self.process = Some(pid);
    }

    /// Reacts to the post-spawn health probe. A healthy backend leaves the
    /// state untouched and yields its process identifier; an unhealthy one
    /// clears the handle (the caller must terminate the process) and fails
    /// with `StartupHealthCheckFailed`.
    pub fn complete_start(&mut self, healthy: bool) -> (r: Result<u32, ApiError>)
        requires
            old(self).process is Some,
        ensures
            (*final(self), r) == spec_complete_start(*old(self), healthy),
    {
        if healthy {
            Ok(self.process.unwrap())
        } else {
            self.process = None;
            Err(ApiError::StartupHealthCheckFailed)
        }
    }

    /// The stop decision: with no handle it fails with `NotRunning` and
    /// changes nothing; otherwise the handle is cleared unconditionally and
    /// its process identifier returned, for the caller to terminate and reap.
    pub fn request_stop(&mut self) -> (r: Result<u32, ApiError>)
        ensures
            (*final(self), r) == spec_request_stop(*old(self)),
    {
        match self.process {
            None => Err(ApiError::NotRunning),
            Some(pid) => {
                self.process = None;
                Ok(pid)
            },
        }
    }

    /// Derives the status report from the held handle and the health probe's
    /// answer; side-effect free, and the configured port is always reported.
    pub fn status(&self, healthy: bool) -> (r: ServerStatus)
        ensures
            r == spec_status(*self, healthy),
            r.port == self.port,
    {
        ServerStatus { running: self.process.is_some() && healthy, port: self.port, pid: self.process }
    }
}

/// Maps the outcome of delivering the termination signal to the caller's
/// result: an undeliverable signal is a `TerminationError`.
pub fn stop_outcome(delivered: bool) -> (r: Result<(), ApiError>)
    ensures
        r == if delivered {
            Result::<(), ApiError>::Ok(())
        } else {
            Result::<(), ApiError>::Err(ApiError::TerminationError)
        },
{
    if delivered {
        Ok(())
    } else {
        Err(ApiError::TerminationError)
    }
}

/// Decides the backend's working directory from the parent of the
/// supervisor's own working directory: an undiscoverable parent is a
/// `PathResolutionError`.
pub fn resolve_backend_dir(parent: Option<String>) -> (r: Result<String, ApiError>)
    ensures
        match r {
            Ok(dir) => parent matches Some(p) && dir == p,
            Err(e) => parent is None && e == ApiError::PathResolutionError,
        },
{
    match parent {
        Some(p) => Ok(p),
        None => Err(ApiError::PathResolutionError),
    }
}

/// Maps the outcome of launching the backend process to the caller's result:
/// a launch the OS refused is a `SpawnError`.
pub fn spawn_outcome(pid: Option<u32>) -> (r: Result<u32, ApiError>)
    ensures
        r == match pid {
            Some(p) => Result::<u32, ApiError>::Ok(p),
            None => Result::<u32, ApiError>::Err(ApiError::SpawnError),
        },
{
    match pid {
        Some(p) => Ok(p),
        None => Err(ApiError::SpawnError),
    }
}

/// Reduces a health probe's transport outcome to the go/no-go answer: healthy
/// exactly when a response arrived and its status code is a success.
pub fn health_outcome(response_status: Option<u16>) -> (r: bool)
    ensures
        r == (response_status matches Some(code) && is_success_code(code)),
{
    match response_status {
        Some(code) => crate::status_is_success(code),
        None => false,
    }
}

/// A start refused for `AlreadyRunning` leaves no trace: after a successful
/// start, a second `begin_start` is refused and the state — handle included —
/// is exactly what the first start left behind.
pub proof fn lemma_second_start_rejected(s: ServerState, pid: u32)
    requires
        s.process is None,
    ensures
        ({
            let started = spec_complete_start(spec_record_spawn(s, pid), true).0;
            &&& spec_complete_start(spec_record_spawn(s, pid), true).1 == Result::<
                u32,
                ApiError,
            >::Ok(pid)
            &&& spec_begin_start(started) == Result::<(), ApiError>::Err(ApiError::AlreadyRunning)
            &&& started.process == Some(pid)
        }),
{
}

/// Stopping a freshly initialized supervisor — one that was never started —
/// is refused with `NotRunning`, and the state stays the initial one.
pub proof fn lemma_stop_before_start()
    ensures
        spec_request_stop(initial_state()) == (
            initial_state(),
            Result::<u32, ApiError>::Err(ApiError::NotRunning),
        ),
{
}

/// A failed post-spawn health probe tears the start down completely: the
/// start reports `StartupHealthCheckFailed`, the handle is gone, and every
/// subsequent status report shows `running: false` with no process
/// identifier, whatever a later probe answers.
pub proof fn lemma_failed_health_check_clears(s: ServerState, healthy_later: bool)
    requires
        s.process is Some,
    ensures
        ({
            let (after, r) = spec_complete_start(s, false);
            &&& r == Result::<u32, ApiError>::Err(ApiError::StartupHealthCheckFailed)
            &&& after.process is None
            &&& spec_status(after, healthy_later).running == false
            &&& spec_status(after, healthy_later).pid is None
        }),
{
}

/// The configured port survives every transition and is what every status
/// report carries: no operation of the supervisor can change it.
pub proof fn lemma_port_stable(s: ServerState, pid: u32, healthy: bool)
    ensures
        initial_state().port == API_PORT,
        spec_record_spawn(s, pid).port == s.port,
        spec_complete_start(s, healthy).0.port == s.port,
        spec_request_stop(s).0.port == s.port,
        spec_status(s, healthy).port == s.port,
{
}

} // verus!
