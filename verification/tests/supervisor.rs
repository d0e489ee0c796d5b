use kolosal_supervisor::supervisor::ServerState;
use kolosal_supervisor::supervisor::health_outcome;
use kolosal_supervisor::supervisor::resolve_backend_dir;
use kolosal_supervisor::supervisor::spawn_outcome;
use kolosal_supervisor::supervisor::stop_outcome;
use kolosal_supervisor::ApiError;
use kolosal_supervisor::API_PORT;

#[test]
fn start_twice_yields_already_running() {
    let mut st = ServerState::new();
    assert_eq!(st.begin_start(), Ok(()));
    st.record_spawn(4242);
    assert_eq!(st.complete_start(true), Ok(4242));
    // The second start is refused and the held handle is untouched.
    assert_eq!(st.begin_start(), Err(ApiError::AlreadyRunning));
    assert_eq!(st.process, Some(4242));
}

#[test]
fn stop_on_fresh_supervisor_yields_not_running() {
    let mut st = ServerState::new();
    assert_eq!(st.request_stop(), Err(ApiError::NotRunning));
}

#[test]
fn failed_health_check_tears_down_start() {
    let mut st = ServerState::new();
    assert_eq!(st.begin_start(), Ok(()));
    st.record_spawn(77);
    assert_eq!(st.complete_start(false), Err(ApiError::StartupHealthCheckFailed));
    let status = st.status(false);
    assert!(!status.running);
    assert_eq!(status.pid, None);
    // Even a later healthy probe cannot resurrect the torn-down start.
    let status_later = st.status(true);
    assert!(!status_later.running);
    assert_eq!(status_later.pid, None);
}

#[test]
fn status_always_reports_configured_port() {
    assert_eq!(API_PORT, 38080);
    let mut st = ServerState::new();
    assert_eq!(st.status(false).port, 38080);
    st.record_spawn(9);
    assert_eq!(st.status(true).port, 38080);
    let _ = st.complete_start(false);
    assert_eq!(st.status(false).port, 38080);
    st.record_spawn(10);
    let _ = st.complete_start(true);
    let _ = st.request_stop();
    assert_eq!(st.status(false).port, 38080);
}

#[test]
fn status_running_needs_handle_and_health() {
    let mut st = ServerState::new();
    assert!(!st.status(true).running);
    st.record_spawn(5);
    let st_status = st.status(false);
    assert!(!st_status.running);
    assert_eq!(st_status.pid, Some(5));
    assert!(st.status(true).running);
}

#[test]
fn stop_releases_handle_even_before_kill_outcome() {
    let mut st = ServerState::new();
    st.record_spawn(31);
    let _ = st.complete_start(true);
    assert_eq!(st.request_stop(), Ok(31));
    assert_eq!(st.process, None);
    // A repeated stop is refused.
    assert_eq!(st.request_stop(), Err(ApiError::NotRunning));
}

#[test]
fn stop_outcome_maps_signal_delivery() {
    assert_eq!(stop_outcome(true), Ok(()));
    assert_eq!(stop_outcome(false), Err(ApiError::TerminationError));
}

#[test]
fn backend_dir_resolution() {
    assert_eq!(resolve_backend_dir(Some("/opt/app".to_string())), Ok("/opt/app".to_string()));
    assert_eq!(resolve_backend_dir(None), Err(ApiError::PathResolutionError));
}

#[test]
fn health_outcome_is_success_status_only() {
    assert!(health_outcome(Some(200)));
    assert!(health_outcome(Some(204)));
    assert!(health_outcome(Some(299)));
    assert!(!health_outcome(Some(199)));
    assert!(!health_outcome(Some(300)));
    assert!(!health_outcome(Some(500)));
    assert!(!health_outcome(None));
}

#[test]
fn spawn_outcome_maps_launch_result() {
    assert_eq!(spawn_outcome(Some(12)), Ok(12));
    assert_eq!(spawn_outcome(None), Err(ApiError::SpawnError));
}
