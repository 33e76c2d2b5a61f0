//! Backend liveness: reading a health response, the readiness poll policy,
//! and turning a probe's outcome into a typed value.
use vstd::prelude::*;
use vstd::string::*;

verus! {

/// How many health polls are made after a spawn.
pub const MAX_HEALTH_POLLS: u32 = 10;

/// The pause between two health polls, in milliseconds.
pub const POLL_INTERVAL_MS: u64 = 500;

/// The bytes that open a successful HTTP/1.1 response: `HTTP/1.1 200`.
pub open spec fn http_ok_prefix() -> Seq<u8> {
    seq![72u8, 84u8, 84u8, 80u8, 47u8, 49u8, 46u8, 49u8, 32u8, 50u8, 48u8, 48u8]
}

/// Whether a read of `read` bytes into `buf` holds a successful status line.
pub open spec fn is_ok_status(buf: Seq<u8>, read: nat) -> bool {
    &&& read > 0
    &&& buf.len() >= http_ok_prefix().len()
    &&& buf.subrange(0, http_ok_prefix().len() as int) == http_ok_prefix()
}

/// Whether the first bytes of a raw HTTP response, read into `buf`, report
/// status 200. `read` is how many bytes the read returned.
pub fn is_ok_status_line(buf: &[u8], read: usize) -> (r: bool)
    ensures
        r == is_ok_status(buf@, read as nat),
{
    let prefix: Vec<u8> = vec![72u8, 84u8, 84u8, 80u8, 47u8, 49u8, 46u8, 49u8, 32u8, 50u8, 48u8, 48u8];
    assert(prefix@ =~= http_ok_prefix());
    if read == 0 || buf.len() < prefix.len() {
        return false;
    }
    let mut i: usize = 0;
    while i < prefix.len()
        invariant
            prefix@ == http_ok_prefix(),
            buf@.len() >= prefix@.len(),
            i <= prefix@.len(),
            forall|j: int| 0 <= j < i ==> buf@[j] == prefix@[j],
        decreases prefix@.len() - i,
    {
        if buf[i] != prefix[i] {
            assert(buf@.subrange(0, prefix@.len() as int)[i as int] != prefix@[i as int]);
            return false;
        }
        i = i + 1;
    }
    assert(buf@.subrange(0, prefix@.len() as int) =~= prefix@);
    true
}

/// What the readiness poll does after a poll.
#[derive(PartialEq, Eq, Structural, Debug, Clone, Copy)]
pub enum PollStep {
    /// The backend answered: it is ready.
    Ready,
    /// Wait this many milliseconds, then poll again.
    RetryAfter(u64),
    /// The budget is spent; the backend is left running but unconfirmed.
    NotReady,
}

/// The step after poll number `attempt` (counted from 1).
pub open spec fn poll_step(attempt: nat, healthy: bool) -> PollStep {
    if healthy {
        PollStep::Ready
    } else if attempt < MAX_HEALTH_POLLS {
        PollStep::RetryAfter(POLL_INTERVAL_MS)
    } else {
        PollStep::NotReady
    }
}

/// Decides what follows poll number `attempt`.
pub fn after_health_poll(attempt: u32, healthy: bool) -> (r: PollStep)
    requires
        1 <= attempt <= MAX_HEALTH_POLLS,
    ensures
        r == poll_step(attempt as nat, healthy),
{
    if healthy {
        PollStep::Ready
    } else if attempt < MAX_HEALTH_POLLS {
        PollStep::RetryAfter(POLL_INTERVAL_MS)
    } else {
        PollStep::NotReady
    }
}

/// Running the poll policy from poll number `attempt` on, where poll `a`
/// succeeds exactly when `outcomes[a - 1]` holds: how many polls are made in
/// all, and whether the backend was found ready.
pub open spec fn run_polls(outcomes: Seq<bool>, attempt: nat) -> (nat, bool)
    recommends
        1 <= attempt <= MAX_HEALTH_POLLS,
        outcomes.len() >= MAX_HEALTH_POLLS,
    decreases MAX_HEALTH_POLLS - attempt,
{
    match poll_step(attempt, outcomes[attempt - 1]) {
        PollStep::Ready => (attempt, true),
        PollStep::RetryAfter(_) => if attempt < MAX_HEALTH_POLLS {
            run_polls(outcomes, attempt + 1)
        } else {
            (attempt, false)
        },
        PollStep::NotReady => (attempt, false),
    }
}

/// The readiness poll never makes more than its budget of polls, stops at the
/// first healthy answer, and reports ready exactly when one of the polls in
/// its budget was healthy.
pub proof fn poll_budget(outcomes: Seq<bool>, attempt: nat)
    requires
        1 <= attempt <= MAX_HEALTH_POLLS,
        outcomes.len() >= MAX_HEALTH_POLLS,
    ensures
        attempt <= run_polls(outcomes, attempt).0 <= MAX_HEALTH_POLLS,
        run_polls(outcomes, attempt).1 <==> exists|i: int|
            attempt - 1 <= i < MAX_HEALTH_POLLS && #[trigger] outcomes[i],
        run_polls(outcomes, attempt).1 ==> outcomes[run_polls(outcomes, attempt).0 - 1],
        forall|i: int|
            attempt - 1 <= i < run_polls(outcomes, attempt).0 - 1 ==> !#[trigger] outcomes[i],
    decreases MAX_HEALTH_POLLS - attempt,
{
    if !outcomes[attempt - 1] && attempt < MAX_HEALTH_POLLS {
        poll_budget(outcomes, attempt + 1);
    }
}

/// The outcome of one health probe.
pub enum HealthProbe {
    /// The backend answered with a success status and this JSON payload.
    Healthy(String),
    /// The backend could not be reached or did not answer well; why.
    Unreachable(String),
}

/// Whether an HTTP status code is a success (2xx).
pub open spec fn is_success_code(code: u16) -> bool {
    200 <= code <= 299
}

/// The probe for a response with status `code` (shown as `status_text`)
/// whose body was read as `body`, or failed to be.
pub open spec fn probe_of_response(
    code: u16,
    status_text: Seq<char>,
    body: Result<String, String>,
) -> (bool, Seq<char>) {
    if is_success_code(code) {
        match body {
            Ok(b) => (true, b@),
            Err(e) => (false, "Failed to parse health response: "@ + e@),
        }
    } else {
        (false, "Backend returned status: "@ + status_text)
    }
}

/// Whether `p` is healthy, and its payload or its reason.
pub open spec fn probe_view(p: HealthProbe) -> (bool, Seq<char>) {
    match p {
        HealthProbe::Healthy(d) => (true, d@),
        HealthProbe::Unreachable(m) => (false, m@),
    }
}

/// Classifies an HTTP answer from the health endpoint: a 2xx status with a
/// readable body is healthy, carrying the body; anything else is unreachable,
/// with a description.
pub fn classify_response(code: u16, status_text: &str, body: Result<String, String>) -> (r:
    HealthProbe)
    ensures
        probe_view(r) == probe_of_response(code, status_text@, body),
{
    if 200 <= code && code <= 299 {
        match body {
            Ok(b) => HealthProbe::Healthy(b),
            Err(e) => {
                let mut m = String::from_str("Failed to parse health response: ");
                m.append(e.as_str());
                HealthProbe::Unreachable(m)
            },
        }
    } else {
        let mut m = String::from_str("Backend returned status: ");
        m.append(status_text);
        HealthProbe::Unreachable(m)
    }
}

/// The probe for a request that got no answer at all.
pub fn connection_failed(cause: &str) -> (r: HealthProbe)
    ensures
        probe_view(r) == (false, "Backend connection failed: "@ + cause@),
{
    let mut m = String::from_str("Backend connection failed: ");
    m.append(cause);
    HealthProbe::Unreachable(m)
}

} // verus!
