//! The supervisor: one owned state machine that decides, for each start,
//! stop and status request, what to do and what to answer. The host performs
//! the decided work (spawn, kill, probe) and reports back.
use vstd::prelude::*;
use vstd::string::*;
use crate::health::{HealthProbe, probe_view};

verus! {

/// The pause between the stop and the start of a restart, in milliseconds,
/// so that the operating system releases the listening port.
pub const RESTART_DELAY_MS: u64 = 2000;

/// Where the supervised backend is in its life.
#[derive(PartialEq, Eq, Structural, Debug, Clone, Copy)]
pub enum SupervisorState {
    Idle,
    Starting,
    Running,
    Stopping,
    Stopped,
    Failed,
}

/// The supervisor's state and the process it holds, if any.
#[derive(PartialEq, Eq, Structural, Debug, Clone, Copy)]
pub struct BackendState {
    pub state: SupervisorState,
    /// The identifier of the child process this supervisor spawned.
    pub pid: Option<u32>,
}

/// What to do on a start request.
#[derive(PartialEq, Eq, Structural, Debug, Clone, Copy)]
pub enum StartDecision {
    /// A start is under way or the backend runs: do nothing.
    AlreadyRunning,
    /// Resolve, launch and poll, then report with `finish_start`.
    Proceed,
}

/// What to do on a stop request.
#[derive(PartialEq, Eq, Structural, Debug, Clone, Copy)]
pub enum StopDecision {
    /// Nothing runs: do nothing.
    NotRunning,
    /// Kill and reap this child, if any, then report with `finish_stop`.
    Terminate(Option<u32>),
}

/// How a launch went.
pub enum StartOutcome {
    /// Something already answers on the backend's endpoint; nothing was spawned.
    AlreadyServing,
    /// No candidate directory holds the backend.
    NoBackendFound,
    /// Every spawn attempt failed; the last cause.
    SpawnFailed(String),
    /// The child was spawned; `ready` tells whether a health poll confirmed it.
    Spawned { pid: u32, ready: bool },
}

/// Where a launch should go, given whether the endpoint already answers and
/// which candidate directory, if any, was chosen.
#[derive(PartialEq, Eq, Structural, Debug, Clone, Copy)]
pub enum LaunchPlan {
    AlreadyServing,
    NoBackend,
    Spawn(usize),
}

/// What a status request reports.
pub struct StatusReport {
    pub healthy: bool,
    pub connected: bool,
    /// The payload the backend reported, when healthy.
    pub data: Option<String>,
    /// Why it is not healthy, otherwise.
    pub message: Option<String>,
}

impl BackendState {
    /// A process is held only while running or stopping.
    pub open spec fn wf(self) -> bool {
        self.pid is Some ==> (self.state == SupervisorState::Running || self.state
            == SupervisorState::Stopping)
    }

    /// A start is under way, or the backend runs or is being stopped.
    pub open spec fn is_busy(self) -> bool {
        self.state == SupervisorState::Starting || self.state == SupervisorState::Running
            || self.state == SupervisorState::Stopping
    }

    /// A fresh supervisor: idle, holding nothing.
    pub fn new() -> (r: BackendState)
        ensures
            r.state == SupervisorState::Idle,
            r.pid is None,
            r.wf(),
    {
        BackendState { state: SupervisorState::Idle, pid: None }
    }

    /// Decides a start request. A busy supervisor answers that it is already
    /// running and changes nothing; any other enters `Starting`.
    pub fn begin_start(&mut self) -> (r: StartDecision)
        requires
            old(self).wf(),
        ensures
            (*final(self), r) == start_step(*old(self)),
            final(self).wf(),
    {
        if self.state == SupervisorState::Starting || self.state == SupervisorState::Running
            || self.state == SupervisorState::Stopping {
            StartDecision::AlreadyRunning
        } else {
            self.state = SupervisorState::Starting;
            self.pid = None;
            StartDecision::Proceed
        }
    }

    /// Records how the launch begun by `begin_start` went, and answers the
    /// start request: running after a spawn or when the backend already
    /// serves, failed otherwise.
    pub fn finish_start(&mut self, outcome: StartOutcome) -> (r: Result<String, String>)
        requires
            old(self).wf(),
            old(self).state == SupervisorState::Starting,
        ensures
            *final(self) == finish_step(*old(self), outcome),
            final(self).wf(),
            reply_view(r) == start_reply(outcome),
    {
        match outcome {
            StartOutcome::AlreadyServing => {
                self.state = SupervisorState::Running;
                self.pid = None;
                Ok(String::from_str("Backend is already running"))
            },
            StartOutcome::NoBackendFound => {
                self.state = SupervisorState::Failed;
                self.pid = None;
                Err(String::from_str("No valid backend path found"))
            },
            StartOutcome::SpawnFailed(cause) => {
                self.state = SupervisorState::Failed;
                self.pid = None;
                let mut m = String::from_str("Failed to start backend: ");
                m.append(cause.as_str());
                Err(m)
            },
            StartOutcome::Spawned { pid, ready } => {
                self.state = SupervisorState::Running;
                self.pid = Some(pid);
                if ready {
                    Ok(String::from_str("Backend started successfully"))
                } else {
                    Ok(String::from_str("Backend started but may not be fully ready"))
                }
            },
        }
    }

    /// Decides a stop request. A running supervisor enters `Stopping` and
    /// hands out its child to terminate; any other changes nothing.
    pub fn begin_stop(&mut self) -> (r: StopDecision)
        requires
            old(self).wf(),
        ensures
            (*final(self), r) == stop_step(*old(self)),
            final(self).wf(),
    {
        if self.state == SupervisorState::Running {
            self.state = SupervisorState::Stopping;
            StopDecision::Terminate(self.pid)
        } else {
            StopDecision::NotRunning
        }
    }

    /// Records that the child handed out by `begin_stop` is gone.
    pub fn finish_stop(&mut self) -> (r: String)
        requires
            old(self).wf(),
            old(self).state == SupervisorState::Stopping,
        ensures
            *final(self) == stopped(),
            final(self).wf(),
            r@ == "Backend stopped successfully"@,
    {
        self.state = SupervisorState::Stopped;
        self.pid = None;
        String::from_str("Backend stopped successfully")
    }

    /// Records that the child exited on its own.
    pub fn note_exited(&mut self)
        requires
            old(self).wf(),
        ensures
            *final(self) == exit_step(*old(self)),
            final(self).wf(),
    {
        if self.state == SupervisorState::Running && self.pid.is_some() {
            self.state = SupervisorState::Failed;
            self.pid = None;
        }
    }

    /// Answers a status request, given the outcome of one health probe. Only a
    /// running backend that answered well counts as connected.
    pub fn status_report(&self, probe: HealthProbe) -> (r: StatusReport)
        ensures
            report_view(r) == report_of(self.state, probe),
    {
        if self.state == SupervisorState::Running {
            match probe {
                HealthProbe::Healthy(d) => StatusReport {
                    healthy: true,
                    connected: true,
                    data: Some(d),
                    message: None,
                },
                HealthProbe::Unreachable(m) => StatusReport {
                    healthy: false,
                    connected: false,
                    data: None,
                    message: Some(m),
                },
            }
        } else {
            StatusReport {
                healthy: false,
                connected: false,
                data: None,
                message: Some(String::from_str("Backend is not running")),
            }
        }
    }
}

/// The answer to a stop request on a supervisor with nothing running.
pub fn not_running_message() -> (r: String)
    ensures
        r@ == "Backend is not running"@,
{
    String::from_str("Backend is not running")
}

/// The answer to a start request on a busy supervisor.
pub fn already_running_message() -> (r: String)
    ensures
        r@ == "Backend is already running"@,
{
    String::from_str("Backend is already running")
}

/// A start skips spawning when the endpoint already answers; otherwise it
/// spawns in the chosen directory, or reports that none holds the backend.
pub fn plan_launch(endpoint_answers: bool, chosen: Option<usize>) -> (r: LaunchPlan)
    ensures
        endpoint_answers ==> r == LaunchPlan::AlreadyServing,
        !endpoint_answers && chosen is None ==> r == LaunchPlan::NoBackend,
        !endpoint_answers && chosen is Some ==> r == LaunchPlan::Spawn(chosen->0),
{
    if endpoint_answers {
        LaunchPlan::AlreadyServing
    } else {
        match chosen {
            Some(k) => LaunchPlan::Spawn(k),
            None => LaunchPlan::NoBackend,
        }
    }
}

/// The state and decision after a start request.
pub open spec fn start_step(b: BackendState) -> (BackendState, StartDecision) {
    if b.is_busy() {
        (b, StartDecision::AlreadyRunning)
    } else {
        (BackendState { state: SupervisorState::Starting, pid: None }, StartDecision::Proceed)
    }
}

/// The state after a launch finished with `o`.
pub open spec fn finish_step(b: BackendState, o: StartOutcome) -> BackendState {
    match o {
        StartOutcome::AlreadyServing => BackendState { state: SupervisorState::Running, pid: None },
        StartOutcome::Spawned { pid, ready: _ } => BackendState {
            state: SupervisorState::Running,
            pid: Some(pid),
        },
        _ => BackendState { state: SupervisorState::Failed, pid: None },
    }
}

/// Whether a start succeeded, and the message it answers with.
pub open spec fn start_reply(o: StartOutcome) -> (bool, Seq<char>) {
    match o {
        StartOutcome::AlreadyServing => (true, "Backend is already running"@),
        StartOutcome::NoBackendFound => (false, "No valid backend path found"@),
        StartOutcome::SpawnFailed(cause) => (false, "Failed to start backend: "@ + cause@),
        StartOutcome::Spawned { pid: _, ready } => if ready {
            (true, "Backend started successfully"@)
        } else {
            (true, "Backend started but may not be fully ready"@)
        },
    }
}

/// A reply as success flag and message.
pub open spec fn reply_view(r: Result<String, String>) -> (bool, Seq<char>) {
    match r {
        Ok(m) => (true, m@),
        Err(m) => (false, m@),
    }
}

/// The state and decision after a stop request.
pub open spec fn stop_step(b: BackendState) -> (BackendState, StopDecision) {
    if b.state == SupervisorState::Running {
        (BackendState { state: SupervisorState::Stopping, pid: b.pid }, StopDecision::Terminate(b.pid))
    } else {
        (b, StopDecision::NotRunning)
    }
}

/// The state once a stop has completed.
pub open spec fn stopped() -> BackendState {
    BackendState { state: SupervisorState::Stopped, pid: None }
}

/// The state after the child was seen to exit on its own.
pub open spec fn exit_step(b: BackendState) -> BackendState {
    if b.state == SupervisorState::Running && b.pid is Some {
        BackendState { state: SupervisorState::Failed, pid: None }
    } else {
        b
    }
}

/// A whole stop request: decide, and complete the termination if one was
/// decided.
pub open spec fn stop_all(b: BackendState) -> BackendState {
    match stop_step(b).1 {
        StopDecision::Terminate(_) => stopped(),
        StopDecision::NotRunning => stop_step(b).0,
    }
}

/// A report as healthy flag, connected flag, payload and message.
pub open spec fn report_view(r: StatusReport) -> (bool, bool, Option<Seq<char>>, Option<Seq<char>>) {
    (
        r.healthy,
        r.connected,
        match r.data {
            Some(d) => Some(d@),
            None => None,
        },
        match r.message {
            Some(m) => Some(m@),
            None => None,
        },
    )
}

/// The status report for a supervisor in `s` whose probe gave `p`.
pub open spec fn report_of(s: SupervisorState, p: HealthProbe) -> (
    bool,
    bool,
    Option<Seq<char>>,
    Option<Seq<char>>,
) {
    if s == SupervisorState::Running {
        if probe_view(p).0 {
            (true, true, Some(probe_view(p).1), None)
        } else {
            (false, false, None, Some(probe_view(p).1))
        }
    } else {
        (false, false, None, Some("Backend is not running"@))
    }
}

/// How many of `n` successive start requests, with no launch finishing in
/// between, are told to proceed.
pub open spec fn proceeds(b: BackendState, n: nat) -> nat
    decreases n,
{
    if n == 0 {
        0
    } else {
        (if start_step(b).1 == StartDecision::Proceed {
            1nat
        } else {
            0nat
        }) + proceeds(start_step(b).0, (n - 1) as nat)
    }
}

/// Repeated start requests never spawn twice: at most one of them proceeds,
/// none while a start is under way or the backend runs, and one proceeds only
/// when no child is held.
pub proof fn repeated_start_spawns_at_most_once(b: BackendState, n: nat)
    requires
        b.wf(),
    ensures
        proceeds(b, n) <= 1,
        b.is_busy() ==> proceeds(b, n) == 0,
        start_step(b).1 == StartDecision::Proceed ==> b.pid is None,
    decreases n,
{
    if n > 0 {
        busy_start_never_proceeds(start_step(b).0, (n - 1) as nat);
        if b.is_busy() {
            repeated_start_spawns_at_most_once(b, (n - 1) as nat);
        }
    }
}

/// From a busy state, no start request proceeds.
proof fn busy_start_never_proceeds(b: BackendState, n: nat)
    ensures
        b.is_busy() ==> proceeds(b, n) == 0,
    decreases n,
{
    if n > 0 && b.is_busy() {
        busy_start_never_proceeds(b, (n - 1) as nat);
    }
}

/// After a stop request, whatever the supervisor's state, a status request
/// reports not connected, whatever the probe gives.
pub proof fn stop_then_status_disconnected(b: BackendState, p: HealthProbe)
    ensures
        !report_of(stop_all(b).state, p).1,
{
}

/// A start that spawns the backend, confirmed by a health poll, followed by a
/// status request whose probe returns payload `d`, reports healthy and
/// connected with that payload.
pub proof fn start_then_status_connected(b: BackendState, pid: u32, d: String)
    requires
        !b.is_busy(),
    ensures
        start_step(b).1 == StartDecision::Proceed,
        start_reply(StartOutcome::Spawned { pid, ready: true }).0,
        report_of(
            finish_step(start_step(b).0, StartOutcome::Spawned { pid, ready: true }).state,
            HealthProbe::Healthy(d),
        ) == (true, true, Some(d@), None::<Seq<char>>),
{
}

/// A start that finds no backend directory fails with a message, and a
/// following status request reports not connected, whatever the probe gives.
pub proof fn missing_backend_then_status_disconnected(b: BackendState, p: HealthProbe)
    requires
        !b.is_busy(),
    ensures
        !start_reply(StartOutcome::NoBackendFound).0,
        start_reply(StartOutcome::NoBackendFound).1.len() > 0,
        !report_of(finish_step(start_step(b).0, StartOutcome::NoBackendFound).state, p).1,
{
    reveal_strlit("No valid backend path found");
}

} // verus!
