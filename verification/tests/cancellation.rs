use enough::StopReason;
use imageflow_core::cancellation::{check_outcome, poll_outcome, CancellationToken, NO_POLL_COUNTDOWN};

#[test]
fn test_cancellation_token_implements_stop() {
    let token = CancellationToken::new();

    assert_eq!(token.check(), Ok(()));
    assert!(!token.should_stop());

    token.cancel_internal();
    assert_eq!(token.check(), Err(StopReason::Cancelled));
    assert!(token.should_stop());
}

#[test]
fn test_cancellation_token_stop_with_poll_countdown() {
    let token = CancellationToken::new();

    // fetch_sub returns the *previous* value, so countdown=2 means:
    // poll 1: prev=2, now=1, 2 >= 1 → Ok
    // poll 2: prev=1, now=0, 1 >= 1 → Ok
    // poll 3: prev=0, now=-1, 0 < 1 → Cancelled
    token.request_cancellation_after_n_polls(2);

    assert_eq!(token.check(), Ok(()));
    assert_eq!(token.check(), Ok(()));
    assert_eq!(token.check(), Err(StopReason::Cancelled));
    assert!(token.should_stop());
}

#[test]
fn clones_share_the_cancellation() {
    let token = CancellationToken::new();
    let other = token.clone();
    assert!(!other.cancellation_requested());
    token.cancel_internal();
    assert!(other.cancellation_requested());
}

#[test]
fn countdown_remaining_reports_what_is_left() {
    let token = CancellationToken::new();
    token.request_cancellation_after_n_polls(5);
    assert!(!token.cancellation_requested());
    assert_eq!(token.request_cancellation_after_n_polls_remaining(), 4);
}

#[test]
fn a_poll_reports_the_flag_or_a_countdown_that_ran_out() {
    assert!(poll_outcome(true, NO_POLL_COUNTDOWN));
    assert!(poll_outcome(true, 5));
    assert!(!poll_outcome(false, NO_POLL_COUNTDOWN));
    assert!(!poll_outcome(false, 1));
    assert!(poll_outcome(false, 0));
    assert!(poll_outcome(false, -3));
}

#[test]
fn a_stop_check_fails_exactly_when_the_poll_reports_cancellation() {
    assert_eq!(check_outcome(true), Err(StopReason::Cancelled));
    assert_eq!(check_outcome(false), Ok(()));
}
