use th_commit::retry::{backoff_delay, next_retry, retry_run, RetryConfig, RetryDecision};
use th_commit::protocol::{classify_event, EventKind};

fn cfg(max_attempts: u32, base: u64, max_delay: u64) -> RetryConfig {
    RetryConfig { max_attempts, base_delay_ms: base, max_delay_ms: max_delay }
}

#[test]
fn third_attempt_succeeds_with_two_recorded_delays() {
    // A server refusing the first two attempts and accepting the third.
    let run = retry_run(&cfg(5, 100, 1000), &vec![false, false, true]);
    assert!(run.connected);
    assert_eq!(run.attempts, 3);
    assert_eq!(run.delays, vec![100, 200]);
}

#[test]
fn budget_exhaustion_surfaces_failure() {
    let run = retry_run(&cfg(2, 100, 1000), &vec![false, false, true]);
    assert!(!run.connected);
    assert_eq!(run.attempts, 2);
    assert_eq!(run.delays, vec![100]);
}

#[test]
fn first_attempt_success_needs_no_backoff() {
    let run = retry_run(&cfg(5, 100, 1000), &vec![true]);
    assert!(run.connected);
    assert_eq!(run.attempts, 1);
    assert!(run.delays.is_empty());
}

#[test]
fn no_attempt_budget_means_no_attempts() {
    let run = retry_run(&cfg(0, 100, 1000), &vec![true]);
    assert!(!run.connected);
    assert_eq!(run.attempts, 0);
    assert!(run.delays.is_empty());
}

#[test]
fn attempts_beyond_known_outcomes_fail() {
    let run = retry_run(&cfg(3, 50, 1000), &vec![]);
    assert!(!run.connected);
    assert_eq!(run.attempts, 3);
    assert_eq!(run.delays, vec![50, 100]);
}

#[test]
fn backoff_doubles_and_caps_at_the_maximum_delay() {
    let c = cfg(9, 600, 1000);
    assert_eq!(backoff_delay(&c, 0), 600);
    assert_eq!(backoff_delay(&c, 1), 1000);
    assert_eq!(backoff_delay(&c, 2), 1000);
    let run = retry_run(&c, &vec![false, false, false, true]);
    assert!(run.connected);
    assert_eq!(run.delays, vec![600, 1000, 1000]);
}

#[test]
fn backoff_never_decreases() {
    let c = cfg(9, 7, 5000);
    let mut last = 0u64;
    for failures in 0..12u32 {
        let d = backoff_delay(&c, failures);
        assert!(d >= last);
        assert!(d <= 5000);
        last = d;
    }
}

#[test]
fn base_above_cap_is_clamped() {
    assert_eq!(backoff_delay(&cfg(3, 5000, 1000), 0), 1000);
}

#[test]
fn next_retry_backs_off_until_the_budget_is_out() {
    let c = cfg(3, 100, 1000);
    assert_eq!(next_retry(&c, 1), RetryDecision::RetryAfter { delay_ms: 100 });
    assert_eq!(next_retry(&c, 2), RetryDecision::RetryAfter { delay_ms: 200 });
    assert_eq!(next_retry(&c, 3), RetryDecision::GiveUp);
    assert_eq!(next_retry(&c, 4), RetryDecision::GiveUp);
}

#[test]
fn event_types_classify_into_the_closed_enumeration() {
    assert_eq!(classify_event("git_status_check"), EventKind::GitStatusCheck);
    assert_eq!(classify_event("staging_files"), EventKind::StagingFiles);
    assert_eq!(classify_event("generating_message"), EventKind::GeneratingMessage);
    assert_eq!(classify_event("creating_commit"), EventKind::CreatingCommit);
    assert_eq!(classify_event("pushing_changes"), EventKind::PushingChanges);
    assert_eq!(classify_event("error"), EventKind::ErrorReport);
    assert_eq!(classify_event("something_else"), EventKind::Other);
    assert_eq!(classify_event(""), EventKind::Other);
}
