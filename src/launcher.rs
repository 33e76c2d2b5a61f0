//! The spawn retry policy: a fixed budget of attempts on one directory, with
//! a growing pause between them.
use vstd::prelude::*;

verus! {

/// How many times a spawn is attempted before giving up.
pub const MAX_SPAWN_ATTEMPTS: u32 = 3;

/// The pause, in milliseconds, per attempt already made.
pub const BACKOFF_STEP_MS: u64 = 500;

/// What the launcher does after a spawn attempt.
#[derive(PartialEq, Eq, Structural, Debug, Clone, Copy)]
pub enum LaunchStep {
    /// The process was started; no further attempt.
    Spawned,
    /// Wait this many milliseconds, then try again.
    RetryAfter(u64),
    /// Every attempt failed.
    GaveUp,
}

/// The pause after failed attempt number `attempt` (counted from 1).
pub open spec fn backoff_ms(attempt: nat) -> nat {
    BACKOFF_STEP_MS as nat * attempt
}

/// The step after attempt number `attempt`, which succeeded or not.
pub open spec fn launch_step(attempt: nat, spawned: bool) -> LaunchStep {
    if spawned {
        LaunchStep::Spawned
    } else if attempt < MAX_SPAWN_ATTEMPTS {
        LaunchStep::RetryAfter(backoff_ms(attempt) as u64)
    } else {
        LaunchStep::GaveUp
    }
}

/// Decides what follows spawn attempt number `attempt`.
pub fn after_spawn_attempt(attempt: u32, spawned: bool) -> (r: LaunchStep)
    requires
        1 <= attempt <= MAX_SPAWN_ATTEMPTS,
    ensures
        r == launch_step(attempt as nat, spawned),
{
    if spawned {
        LaunchStep::Spawned
    } else if attempt < MAX_SPAWN_ATTEMPTS {
        LaunchStep::RetryAfter(BACKOFF_STEP_MS * attempt as u64)
    } else {
        LaunchStep::GaveUp
    }
}

/// Running the policy from attempt number `attempt` on, where attempt `a`
/// succeeds exactly when `outcomes[a - 1]` holds: how many attempts are made
/// in all, and whether the process was started.
pub open spec fn run_launch(outcomes: Seq<bool>, attempt: nat) -> (nat, bool)
    recommends
        1 <= attempt <= MAX_SPAWN_ATTEMPTS,
        outcomes.len() >= MAX_SPAWN_ATTEMPTS,
    decreases MAX_SPAWN_ATTEMPTS - attempt,
{
    match launch_step(attempt, outcomes[attempt - 1]) {
        LaunchStep::Spawned => (attempt, true),
        LaunchStep::RetryAfter(_) => if attempt < MAX_SPAWN_ATTEMPTS {
            run_launch(outcomes, attempt + 1)
        } else {
            (attempt, false)
        },
        LaunchStep::GaveUp => (attempt, false),
    }
}

/// The launch policy makes attempts until the first success, never more than
/// three; it reports failure only when all three failed; and its pauses never
/// shrink from one attempt to the next.
pub proof fn launch_attempts(outcomes: Seq<bool>)
    requires
        outcomes.len() >= MAX_SPAWN_ATTEMPTS,
    ensures
        run_launch(outcomes, 1).1 <==> (outcomes[0] || outcomes[1] || outcomes[2]),
        outcomes[0] ==> run_launch(outcomes, 1).0 == 1,
        !outcomes[0] && outcomes[1] ==> run_launch(outcomes, 1).0 == 2,
        !outcomes[0] && !outcomes[1] ==> run_launch(outcomes, 1).0 == 3,
        forall|a: nat| 1 <= a < MAX_SPAWN_ATTEMPTS ==> #[trigger] backoff_ms(a) <= backoff_ms(a + 1),
{
    reveal_with_fuel(run_launch, 4);
    assert forall|a: nat| 1 <= a < MAX_SPAWN_ATTEMPTS implies #[trigger] backoff_ms(a)
        <= backoff_ms(a + 1) by {
        assert(500 * a <= 500 * (a + 1)) by (nonlinear_arith);
    }
}

} // verus!
