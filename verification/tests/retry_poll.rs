use xforth::poll::{await_scripted, poll_step, ConfirmationOutcome, PollDecision, StatusEvent};
use xforth::retry::{
    backoff_delay_ms, retry_step, run_scripted, AttemptOutcome, RetryDecision, RetryPolicy,
    RunVerdict,
};

fn policy() -> RetryPolicy {
    RetryPolicy { max_attempts: 5, base_delay_ms: 500 }
}

#[test]
fn backoff_doubles_from_base() {
    let p = policy();
    assert_eq!(backoff_delay_ms(&p, 1), 500);
    assert_eq!(backoff_delay_ms(&p, 2), 1000);
    assert_eq!(backoff_delay_ms(&p, 3), 2000);
    assert_eq!(backoff_delay_ms(&p, 4), 4000);
}

#[test]
fn rate_limited_attempt_waits_then_retries() {
    let p = policy();
    let d = retry_step(&p, 1, AttemptOutcome::RateLimited("429".to_string()));
    assert!(matches!(d, RetryDecision::WaitThenRetry(500)));
    let d = retry_step(&p, 3, AttemptOutcome::RateLimited("429".to_string()));
    assert!(matches!(d, RetryDecision::WaitThenRetry(2000)));
}

#[test]
fn rate_limited_final_attempt_exhausts() {
    let p = policy();
    let d = retry_step(&p, 5, AttemptOutcome::RateLimited("too many requests".to_string()));
    match d {
        RetryDecision::Exhausted(e) => assert_eq!(e, "too many requests"),
        _ => panic!("expected exhaustion on the final attempt"),
    }
}

#[test]
fn accepted_attempt_is_done_at_once() {
    let p = policy();
    let d = retry_step(&p, 2, AttemptOutcome::Accepted("sig".to_string()));
    match d {
        RetryDecision::Done(r) => assert_eq!(r, "sig"),
        _ => panic!("expected the receipt"),
    }
}

#[test]
fn terminal_failure_aborts_without_retry() {
    let p = policy();
    let d = retry_step(&p, 1, AttemptOutcome::Terminal("bad request".to_string()));
    match d {
        RetryDecision::Aborted(e) => assert_eq!(e, "bad request"),
        _ => panic!("expected an abort"),
    }
}

#[test]
fn all_rate_limited_run_makes_every_attempt() {
    let p = policy();
    let outcomes: Vec<AttemptOutcome> =
        (0..5).map(|_| AttemptOutcome::RateLimited("429".to_string())).collect();
    let (attempts, waited, verdict) = run_scripted(&p, &outcomes);
    assert_eq!(attempts, 5);
    assert_eq!(waited, 500 + 1000 + 2000 + 4000);
    assert_eq!(verdict, RunVerdict::Exhausted);
}

#[test]
fn terminal_run_makes_exactly_one_attempt() {
    let p = policy();
    let mut outcomes = vec![AttemptOutcome::Terminal("unreachable".to_string())];
    for _ in 0..4 {
        outcomes.push(AttemptOutcome::RateLimited("429".to_string()));
    }
    let (attempts, waited, verdict) = run_scripted(&p, &outcomes);
    assert_eq!(attempts, 1);
    assert_eq!(waited, 0);
    assert_eq!(verdict, RunVerdict::Aborted);
}

#[test]
fn rate_limited_thrice_then_accepted_succeeds_on_fourth() {
    let p = policy();
    let outcomes = vec![
        AttemptOutcome::RateLimited("429".to_string()),
        AttemptOutcome::RateLimited("429".to_string()),
        AttemptOutcome::RateLimited("429".to_string()),
        AttemptOutcome::Accepted("sig".to_string()),
        AttemptOutcome::RateLimited("429".to_string()),
    ];
    let (attempts, waited, verdict) = run_scripted(&p, &outcomes);
    assert_eq!(attempts, 4);
    assert_eq!(waited, 500 + 1000 + 2000);
    assert_eq!(verdict, RunVerdict::Succeeded);
}

#[test]
fn poll_step_stops_on_success() {
    let d = poll_step(30, 1, StatusEvent::Succeeded);
    assert!(matches!(d, PollDecision::Confirmed));
}

#[test]
fn poll_step_stops_on_failure_with_detail() {
    let d = poll_step(30, 7, StatusEvent::FailedOnChain("insufficient funds".to_string()));
    match d {
        PollDecision::Failed(e) => assert_eq!(e, "insufficient funds"),
        _ => panic!("expected the on-chain failure"),
    }
}

#[test]
fn poll_step_waits_while_budget_remains() {
    let d = poll_step(30, 29, StatusEvent::Absent);
    assert!(matches!(d, PollDecision::WaitThenPoll));
    let d = poll_step(30, 30, StatusEvent::Absent);
    assert!(matches!(d, PollDecision::TimedOut));
}

#[test]
fn thirty_absent_polls_time_out() {
    let events: Vec<StatusEvent> = (0..30).map(|_| StatusEvent::Absent).collect();
    let (polls, outcome) = await_scripted("receipt", 30, &events);
    assert_eq!(polls, 30);
    assert!(matches!(outcome, ConfirmationOutcome::TimedOut));
}

#[test]
fn success_confirms_without_extra_polling() {
    let mut events = vec![StatusEvent::Absent, StatusEvent::Succeeded];
    for _ in 0..28 {
        events.push(StatusEvent::Absent);
    }
    let (polls, outcome) = await_scripted("receipt", 30, &events);
    assert_eq!(polls, 2);
    match outcome {
        ConfirmationOutcome::Confirmed(r) => assert_eq!(r, "receipt"),
        _ => panic!("expected confirmation"),
    }
}

#[test]
fn on_chain_failure_is_not_a_timeout() {
    let mut events = vec![StatusEvent::Absent];
    events.push(StatusEvent::FailedOnChain("custom program error".to_string()));
    for _ in 0..28 {
        events.push(StatusEvent::Absent);
    }
    let (polls, outcome) = await_scripted("receipt", 30, &events);
    assert_eq!(polls, 2);
    match outcome {
        ConfirmationOutcome::Failed(e) => assert_eq!(e, "custom program error"),
        _ => panic!("expected the on-chain failure"),
    }
}
