use backend_supervisor::health::{
    after_health_poll, classify_response, connection_failed, is_ok_status_line, HealthProbe, PollStep,
};
use backend_supervisor::supervisor::{
    already_running_message, not_running_message, plan_launch, BackendState, LaunchPlan, StartDecision,
    StartOutcome, StopDecision, SupervisorState, RESTART_DELAY_MS,
};

fn healthy(payload: &str) -> HealthProbe {
    HealthProbe::Healthy(String::from(payload))
}

#[test]
fn new_supervisor_is_idle() {
    let s = BackendState::new();
    assert_eq!(s.state, SupervisorState::Idle);
    assert_eq!(s.pid, None);
}

#[test]
fn repeated_start_while_running_spawns_once() {
    let mut s = BackendState::new();
    let mut spawns = 0;
    for _ in 0..5 {
        if s.begin_start() == StartDecision::Proceed {
            spawns += 1;
        }
    }
    assert_eq!(spawns, 1);
    assert_eq!(s.state, SupervisorState::Starting);
    assert_eq!(s.finish_start(StartOutcome::Spawned { pid: 77, ready: true }), Ok(String::from("Backend started successfully")));
    for _ in 0..5 {
        assert_eq!(s.begin_start(), StartDecision::AlreadyRunning);
    }
    assert_eq!(s.state, SupervisorState::Running);
    assert_eq!(s.pid, Some(77));
    assert_eq!(already_running_message(), "Backend is already running");
}

#[test]
fn stop_then_status_not_connected() {
    let mut s = BackendState::new();
    s.begin_start();
    s.finish_start(StartOutcome::Spawned { pid: 5, ready: true }).unwrap();
    assert_eq!(s.begin_stop(), StopDecision::Terminate(Some(5)));
    assert_eq!(s.state, SupervisorState::Stopping);
    assert_eq!(s.finish_stop(), "Backend stopped successfully");
    assert_eq!(s.state, SupervisorState::Stopped);
    assert_eq!(s.pid, None);
    let r = s.status_report(healthy("{\"ok\":true}"));
    assert!(!r.connected);
    assert!(!r.healthy);
    assert_eq!(r.data, None);
    assert_eq!(r.message, Some(String::from("Backend is not running")));
}

#[test]
fn stop_when_not_running_is_noop() {
    let mut s = BackendState::new();
    assert_eq!(s.begin_stop(), StopDecision::NotRunning);
    assert_eq!(s.state, SupervisorState::Idle);
    assert_eq!(not_running_message(), "Backend is not running");
}

#[test]
fn healthy_within_two_polls_reports_connected() {
    let mut s = BackendState::new();
    assert_eq!(s.begin_start(), StartDecision::Proceed);
    // first poll gets no answer, the second reads a 200 status line
    let mut answer = [0u8; 64];
    let line = b"HTTP/1.1 200 OK\r\nContent-Type: application/json\r\n";
    answer[..line.len()].copy_from_slice(line);
    let polls = [is_ok_status_line(&answer, 0), is_ok_status_line(&answer, line.len())];
    assert_eq!(after_health_poll(1, polls[0]), PollStep::RetryAfter(500));
    assert_eq!(after_health_poll(2, polls[1]), PollStep::Ready);
    let ready = after_health_poll(2, polls[1]) == PollStep::Ready;
    s.finish_start(StartOutcome::Spawned { pid: 9, ready }).unwrap();
    let probe = classify_response(200, "200 OK", Ok(String::from("{\"ok\": true}")));
    let r = s.status_report(probe);
    assert!(r.healthy);
    assert!(r.connected);
    assert_eq!(r.data, Some(String::from("{\"ok\": true}")));
    assert_eq!(r.message, None);
    let down = s.status_report(connection_failed("connection refused"));
    assert!(!down.connected);
}

#[test]
fn unready_spawn_still_running() {
    let mut s = BackendState::new();
    s.begin_start();
    assert_eq!(
        s.finish_start(StartOutcome::Spawned { pid: 3, ready: false }),
        Ok(String::from("Backend started but may not be fully ready"))
    );
    assert_eq!(s.state, SupervisorState::Running);
    let r = s.status_report(HealthProbe::Unreachable(String::from("Backend connection failed: timeout")));
    assert!(!r.connected);
    assert_eq!(r.message, Some(String::from("Backend connection failed: timeout")));
}

#[test]
fn missing_backend_fails_without_panic() {
    let mut s = BackendState::new();
    assert_eq!(plan_launch(false, None), LaunchPlan::NoBackend);
    s.begin_start();
    let reply = s.finish_start(StartOutcome::NoBackendFound);
    assert_eq!(reply, Err(String::from("No valid backend path found")));
    assert_eq!(s.state, SupervisorState::Failed);
    let r = s.status_report(healthy("{}"));
    assert!(!r.connected);
}

#[test]
fn spawn_failure_reported() {
    let mut s = BackendState::new();
    s.begin_start();
    let reply = s.finish_start(StartOutcome::SpawnFailed(String::from("No such file or directory")));
    assert_eq!(reply, Err(String::from("Failed to start backend: No such file or directory")));
    assert_eq!(s.state, SupervisorState::Failed);
    // a failed supervisor may start again
    assert_eq!(s.begin_start(), StartDecision::Proceed);
}

#[test]
fn already_serving_endpoint_skips_spawn() {
    assert_eq!(plan_launch(true, Some(2)), LaunchPlan::AlreadyServing);
    assert_eq!(plan_launch(false, Some(2)), LaunchPlan::Spawn(2));
    let mut s = BackendState::new();
    s.begin_start();
    assert_eq!(s.finish_start(StartOutcome::AlreadyServing), Ok(String::from("Backend is already running")));
    assert_eq!(s.state, SupervisorState::Running);
    assert_eq!(s.pid, None);
    assert_eq!(s.begin_stop(), StopDecision::Terminate(None));
}

#[test]
fn child_exit_detected() {
    let mut s = BackendState::new();
    s.begin_start();
    s.finish_start(StartOutcome::Spawned { pid: 12, ready: true }).unwrap();
    s.note_exited();
    assert_eq!(s.state, SupervisorState::Failed);
    assert_eq!(s.pid, None);
    assert_eq!(s.begin_stop(), StopDecision::NotRunning);
}

#[test]
fn restart_is_stop_then_start() {
    let mut s = BackendState::new();
    s.begin_start();
    s.finish_start(StartOutcome::Spawned { pid: 1, ready: true }).unwrap();
    assert_eq!(s.begin_stop(), StopDecision::Terminate(Some(1)));
    s.finish_stop();
    assert!(RESTART_DELAY_MS >= 1000 && RESTART_DELAY_MS <= 2000);
    assert_eq!(s.begin_start(), StartDecision::Proceed);
    s.finish_start(StartOutcome::Spawned { pid: 2, ready: true }).unwrap();
    assert_eq!(s.pid, Some(2));
}
