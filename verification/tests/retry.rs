use mining_cli::cooldown::ConfigurationError;
use mining_cli::retry::{
    AttemptOutcome, Backoff, RetryError, RetryExecutor, RetryPolicy, RetryStep,
};

fn drive(policy: RetryPolicy, outcomes: Vec<AttemptOutcome<u32, String>>) -> (u32, Vec<u64>, Option<Result<u32, RetryError<String>>>) {
    let mut executor = RetryExecutor::new(policy);
    let mut attempts: u32 = 0;
    let mut delays: Vec<u64> = Vec::new();
    for outcome in outcomes {
        attempts += 1;
        match executor.on_outcome(outcome) {
            RetryStep::Done(value) => return (attempts, delays, Some(Ok(value))),
            RetryStep::GiveUp(error) => return (attempts, delays, Some(Err(error))),
            RetryStep::RetryAfter { delay_ms, next } => {
                delays.push(delay_ms);
                executor = next;
            }
        }
    }
    (attempts, delays, None)
}

fn failures(count: u32) -> Vec<AttemptOutcome<u32, String>> {
    let mut outcomes = Vec::new();
    let mut i: u32 = 0;
    while i < count {
        outcomes.push(AttemptOutcome::Retryable(format!("timeout {}", i + 1)));
        i += 1;
    }
    outcomes
}

#[test]
fn always_failing_is_attempted_max_times() {
    let policy = RetryPolicy::new(5, Backoff::Fixed { delay_ms: 250 }).unwrap();
    let (attempts, delays, result) = drive(policy, failures(20));
    assert_eq!(attempts, 5);
    assert_eq!(delays, vec![250, 250, 250, 250]);
    match result {
        Some(Err(RetryError::PersistentFailure(error))) => assert_eq!(error, "timeout 5"),
        other => panic!("unexpected result: {:?}", other),
    }
}

#[test]
fn single_attempt_policy_gives_up_at_once() {
    let policy = RetryPolicy::new(1, Backoff::Fixed { delay_ms: 250 }).unwrap();
    let (attempts, delays, result) = drive(policy, failures(3));
    assert_eq!(attempts, 1);
    assert!(delays.is_empty());
    assert!(matches!(result, Some(Err(RetryError::PersistentFailure(_)))));
}

#[test]
fn failure_then_success_returns_the_success() {
    let policy = RetryPolicy::new(2, Backoff::Fixed { delay_ms: 10 }).unwrap();
    let outcomes = vec![
        AttemptOutcome::Retryable("timeout".to_string()),
        AttemptOutcome::Success(42),
    ];
    let (attempts, delays, result) = drive(policy, outcomes);
    assert_eq!(attempts, 2);
    assert_eq!(delays, vec![10]);
    assert!(matches!(result, Some(Ok(42))));
}

#[test]
fn terminal_failure_is_not_retried() {
    let policy = RetryPolicy::new(5, Backoff::Fixed { delay_ms: 10 }).unwrap();
    let outcomes = vec![
        AttemptOutcome::Terminal("invalid request".to_string()),
        AttemptOutcome::Success(1),
    ];
    let (attempts, delays, result) = drive(policy, outcomes);
    assert_eq!(attempts, 1);
    assert!(delays.is_empty());
    match result {
        Some(Err(RetryError::RemoteRejection(error))) => assert_eq!(error, "invalid request"),
        other => panic!("unexpected result: {:?}", other),
    }
}

#[test]
fn exponential_backoff_doubles_up_to_its_cap() {
    let backoff = Backoff::Exponential { base_ms: 100, cap_ms: 1000 };
    assert_eq!(backoff.delay_ms(0), 100);
    assert_eq!(backoff.delay_ms(1), 100);
    assert_eq!(backoff.delay_ms(2), 200);
    assert_eq!(backoff.delay_ms(3), 400);
    assert_eq!(backoff.delay_ms(4), 800);
    assert_eq!(backoff.delay_ms(5), 1000);
    assert_eq!(backoff.delay_ms(6), 1000);
    assert_eq!(backoff.delay_ms(u32::MAX), 1000);
}

#[test]
fn exponential_backoff_edge_cases() {
    assert_eq!(Backoff::Exponential { base_ms: 0, cap_ms: 1000 }.delay_ms(u32::MAX), 0);
    assert_eq!(Backoff::Exponential { base_ms: 5000, cap_ms: 1000 }.delay_ms(1), 1000);
    assert_eq!(Backoff::Exponential { base_ms: 7, cap_ms: 0 }.delay_ms(3), 0);
    assert_eq!(Backoff::Exponential { base_ms: 1, cap_ms: u64::MAX }.delay_ms(64), 1u64 << 63);
    assert_eq!(Backoff::Exponential { base_ms: 1, cap_ms: u64::MAX }.delay_ms(65), u64::MAX);
    assert_eq!(Backoff::Exponential { base_ms: 3, cap_ms: 12 }.delay_ms(3), 12);
}

#[test]
fn fixed_backoff_is_constant() {
    let backoff = Backoff::Fixed { delay_ms: 750 };
    assert_eq!(backoff.delay_ms(1), 750);
    assert_eq!(backoff.delay_ms(1000), 750);
}

#[test]
fn exponential_delays_in_a_run() {
    let policy =
        RetryPolicy::new(4, Backoff::Exponential { base_ms: 100, cap_ms: 250 }).unwrap();
    let (attempts, delays, result) = drive(policy, failures(4));
    assert_eq!(attempts, 4);
    assert_eq!(delays, vec![100, 200, 250]);
    assert!(matches!(result, Some(Err(RetryError::PersistentFailure(_)))));
}

#[test]
fn policy_without_attempts_is_rejected() {
    assert_eq!(
        RetryPolicy::new(0, Backoff::Fixed { delay_ms: 1 }),
        Err(ConfigurationError::NoAttemptAllowed)
    );
    assert_eq!(
        RetryPolicy::new(3, Backoff::Fixed { delay_ms: 1 }),
        Ok(RetryPolicy { max_attempts: 3, backoff: Backoff::Fixed { delay_ms: 1 } })
    );
}
