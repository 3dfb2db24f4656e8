//! A cancellation flag shared by every clone of a token, with a countdown of polls after which
//! cancellation is reported, for exercising cancellation paths in tests.
use vstd::prelude::*;
use std::sync::Arc;
use std::sync::atomic::{AtomicBool, AtomicI64};
use std::sync::atomic::Ordering;

verus! {

#[verifier::external_type_specification]
#[verifier::external_body]
pub struct ExStopReason(enough::StopReason);

/// `enough::StopReason::Cancelled`, the reason given for an explicit cancellation.
#[verifier::external_body]
fn cancelled_reason() -> enough::StopReason {
    enough::StopReason::Cancelled
}

/// The countdown value that means no countdown was requested.
pub const NO_POLL_COUNTDOWN: i64 = 9223372036854775807i64;

/// What one poll reports, given the flag it read and the countdown it read before taking one
/// poll off it: cancellation when the flag is set, or when a countdown was requested and had
/// fewer than one poll left.
pub fn poll_outcome(flag: bool, countdown: i64) -> (r: bool)
    ensures
        r == (flag || (countdown != NO_POLL_COUNTDOWN && countdown < 1)),
{
    flag || (countdown != NO_POLL_COUNTDOWN && countdown < 1)
}

/// The result of a stop check from a poll: `Err` with the cancellation reason when the poll
/// reported cancellation, `Ok` otherwise.
pub fn check_outcome(cancelled: bool) -> (r: Result<(), enough::StopReason>)
    ensures
        r is Err <==> cancelled,
{
    if cancelled {
        Err(cancelled_reason())
    } else {
        Ok(())
    }
}

/// A token whose clones share one cancellation flag and one poll countdown.
///
/// The shared state lives in atomics that other clones, on other threads, may change at any
/// moment; nothing is stated of what a poll reads or returns.
#[derive(Clone)]
pub struct CancellationToken {
    flag: Arc<AtomicBool>,
    poll_countdown: Arc<AtomicI64>,
}

impl CancellationToken {
    /// A token that is not cancelled and has no poll countdown. Its state lives in atomics whose
    /// contents are not modelled, so nothing is stated of it.
    pub fn new() -> (r: CancellationToken) {
        CancellationToken {
            flag: Arc::new(AtomicBool::new(false)),
            poll_countdown: Arc::new(AtomicI64::new(NO_POLL_COUNTDOWN)),
        }
    }

    /// Polls the token: true once cancellation was requested, or once the poll countdown ran out.
    /// Other clones may change the shared state at any moment, so either answer is possible and
    /// nothing is stated of it; what is read is decided by `poll_outcome`.
    pub fn cancellation_requested(&self) -> (r: bool) {
        let flag = self.flag.load(Ordering::Relaxed);
        let countdown: i64 = if flag || self.poll_countdown.load(Ordering::Relaxed) == NO_POLL_COUNTDOWN {
            NO_POLL_COUNTDOWN
        } else {
            self.poll_countdown.fetch_sub(1, Ordering::Relaxed)
        };
        poll_outcome(flag, countdown)
    }

    /// Requests cancellation, for every clone of the token.
    pub fn cancel_internal(&self) {
        self.flag.store(true, Ordering::Relaxed);
    }

    /// Makes polls report cancellation once `cancel_after_polls` polls have passed.
    pub fn request_cancellation_after_n_polls(&self, cancel_after_polls: i64) {
        self.poll_countdown.store(cancel_after_polls, Ordering::SeqCst);
    }

    /// The polls left before cancellation is reported: whatever the shared countdown holds when
    /// it is read, which other clones may change at any moment.
    pub fn request_cancellation_after_n_polls_remaining(&self) -> (r: i64) {
        self.poll_countdown.load(Ordering::SeqCst)
    }
}

impl CancellationToken {
    /// Polls the token as a stop check: `Err` with the cancellation reason once cancellation was
    /// requested (or the poll countdown ran out), `Ok` otherwise. Which of the two comes out
    /// depends on the shared state; `check_outcome` decides from the poll.
    pub fn check(&self) -> (r: Result<(), enough::StopReason>) {
        check_outcome(self.cancellation_requested())
    }

    /// Polls the token: whether the work should stop. As for any poll, nothing is stated.
    pub fn should_stop(&self) -> (r: bool) {
        self.cancellation_requested()
    }
}

} // verus!
