use backend_supervisor::launcher::{after_spawn_attempt, LaunchStep, MAX_SPAWN_ATTEMPTS};

/// Drives the policy over the given spawn results; returns the attempts made,
/// the pauses taken and whether the process started.
fn drive(outcomes: &[bool]) -> (u32, Vec<u64>, bool) {
    let mut pauses = Vec::new();
    let mut attempt: u32 = 1;
    loop {
        match after_spawn_attempt(attempt, outcomes[(attempt - 1) as usize]) {
            LaunchStep::Spawned => return (attempt, pauses, true),
            LaunchStep::RetryAfter(ms) => {
                pauses.push(ms);
                attempt += 1;
            }
            LaunchStep::GaveUp => return (attempt, pauses, false),
        }
    }
}

#[test]
fn backoff_schedule() {
    assert_eq!(after_spawn_attempt(1, false), LaunchStep::RetryAfter(500));
    assert_eq!(after_spawn_attempt(2, false), LaunchStep::RetryAfter(1000));
    assert_eq!(after_spawn_attempt(3, false), LaunchStep::GaveUp);
    assert_eq!(after_spawn_attempt(3, true), LaunchStep::Spawned);
    assert_eq!(MAX_SPAWN_ATTEMPTS, 3);
}

#[test]
fn all_attempts_fail() {
    let (attempts, pauses, ok) = drive(&[false, false, false]);
    assert_eq!(attempts, 3);
    assert!(!ok);
    assert_eq!(pauses, vec![500, 1000]);
    assert!(pauses.windows(2).all(|w| w[0] <= w[1]));
}

#[test]
fn success_on_second_attempt_stops() {
    let (attempts, pauses, ok) = drive(&[false, true, true]);
    assert_eq!(attempts, 2);
    assert!(ok);
    assert_eq!(pauses, vec![500]);
}

#[test]
fn success_on_first_attempt() {
    assert_eq!(drive(&[true, false, false]), (1, vec![], true));
}
