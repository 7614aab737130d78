//! The polling engine for one URL.
//!
//! One URL is checked by a loop of attempts. Each attempt the caller performs
//! one HTTP request, classifies it (see [`crate::outcome`]), reads the clock,
//! and hands both to [`poll_step`], which decides everything else:
//!
//! * whether the check is done (a `2xx` answer), to be retried, or out of
//!   budget (the caller then terminates the process);
//! * whether a log line is owed for this attempt. A line is printed when the
//!   classification differs from the last one logged, or — as a heartbeat —
//!   when the same classification has held for more than five whole seconds
//!   since the last line. A clock that reads earlier than the last line's
//!   timestamp also earns a line, without moving that timestamp.
//!
//! Time is a `u64` count of milliseconds from an arbitrary origin, as the
//! caller's clock reports it. A reading smaller than a timestamp held in the
//! state models a clock that went backwards: the elapsed time is then unknown
//! for that check, which is reported but never changes the control flow.

use vstd::prelude::*;

use crate::outcome::Outcome;
use crate::outcome::Signal;
use crate::outcome::signal_of;

verus! {

/// The mutable state of one URL's check.
#[derive(Clone, Copy, Debug, PartialEq, Eq, Structural)]
pub struct PollState {
    /// Clock reading at the start of the check; the wait budget is measured
    /// from here. Never changes afterwards.
    pub start_millis: u64,
    /// The classification most recently logged, or `NoneYet`.
    pub last_signal: Signal,
    /// Clock reading when a line was last emitted for `last_signal`. Only
    /// moves when a line is actually emitted, and not on the lines that a
    /// backwards clock earns.
    pub last_log_millis: u64,
}

/// What the caller must do after one attempt.
#[derive(Clone, Copy, Debug, PartialEq, Eq, Structural)]
pub enum Next {
    /// The attempt succeeded with this status: print the confirmation line
    /// and return to the caller. The only normal exit from the loop.
    Done { status: u16 },
    /// The wait budget is spent: print the timeout indicator and terminate
    /// the whole process with the failure exit code.
    TimedOut,
    /// Sleep for the effective interval and try again.
    Retry,
}

/// The full decision for one attempt.
#[derive(Clone, Copy, Debug, PartialEq, Eq, Structural)]
pub struct StepResult {
    /// Print the status (or no-response) line for this attempt.
    pub emit: bool,
    /// The elapsed-time reading for the budget check failed (clock went
    /// backwards past the start): report it; the check is skipped this turn.
    pub clock_error: bool,
    /// How the loop continues.
    pub next: Next,
}

/// Number of whole seconds an unchanged classification stays quiet after a
/// log line before a heartbeat line is owed.
pub const QUIET_SECONDS: u64 = 5;

/// Whether this attempt earns a log line: the classification changed, or the
/// clock reads earlier than the last line (elapsed unknown), or more than
/// [`QUIET_SECONDS`] whole seconds have passed since the last line.
pub open spec fn emits(state: PollState, sig: Signal, now_millis: u64) -> bool {
    ||| sig != state.last_signal
    ||| now_millis < state.last_log_millis
    ||| (now_millis - state.last_log_millis) / 1000 > QUIET_SECONDS
}

/// Whether this attempt's line also moves `last_log_millis` to `now_millis`:
/// it does on a changed classification and on a heartbeat, but not on a line
/// earned only by a backwards clock.
pub open spec fn resets_log_clock(state: PollState, sig: Signal, now_millis: u64) -> bool {
    ||| sig != state.last_signal
    ||| (now_millis >= state.last_log_millis
        && (now_millis - state.last_log_millis) / 1000 > QUIET_SECONDS)
}

/// Whether the wait budget is spent: a budget of `0` never is; otherwise the
/// elapsed time in whole seconds must strictly exceed it. Meaningful only
/// when the clock did not go backwards past the start.
pub open spec fn budget_spent(state: PollState, now_millis: u64, timeout_seconds: u64) -> bool {
    &&& timeout_seconds > 0
    &&& now_millis >= state.start_millis
    &&& (now_millis - state.start_millis) / 1000 > timeout_seconds
}

/// The state after one attempt. A successful attempt leaves it untouched (the
/// check is over); otherwise only `last_log_millis` and `last_signal` may
/// move, as [`resets_log_clock`] says.
pub open spec fn step_state(state: PollState, outcome: Outcome, now_millis: u64) -> PollState {
    if outcome is Success {
        state
    } else {
        let sig = signal_of(outcome);
        if resets_log_clock(state, sig, now_millis) {
            PollState { start_millis: state.start_millis, last_signal: sig, last_log_millis: now_millis }
        } else {
            state
        }
    }
}

/// The decision for one attempt. Success short-circuits everything: the line
/// is owed unconditionally and neither the throttle nor the budget is
/// consulted. Otherwise the throttle decides `emit`, and the budget check
/// runs exactly once — skipped with `clock_error` when the clock went
/// backwards past the start.
pub open spec fn step_result(
    state: PollState,
    outcome: Outcome,
    now_millis: u64,
    timeout_seconds: u64,
) -> StepResult {
    match outcome {
        Outcome::Success { status } => StepResult {
            emit: true,
            clock_error: false,
            next: Next::Done { status },
        },
        _ => StepResult {
            emit: emits(state, signal_of(outcome), now_millis),
            clock_error: now_millis < state.start_millis,
            next: if budget_spent(state, now_millis, timeout_seconds) {
                Next::TimedOut
            } else {
                Next::Retry
            },
        },
    }
}

impl PollState {
    /// A fresh state for one URL, created at clock reading `now_millis`:
    /// nothing logged yet, and the budget measured from here.
    pub fn new(now_millis: u64) -> (state: PollState)
        ensures
            state.start_millis == now_millis,
            state.last_signal == Signal::NoneYet,
            state.last_log_millis == now_millis,
    {
        PollState { start_millis: now_millis, last_signal: Signal::NoneYet, last_log_millis: now_millis }
    }
}

/// Decide everything about one attempt: given the attempt's classification
/// and the clock reading, update the state and say whether to log, whether
/// the elapsed-time reading failed, and how the loop continues.
pub fn poll_step(
    state: &mut PollState,
    outcome: Outcome,
    now_millis: u64,
    timeout_seconds: u64,
) -> (r: StepResult)
    ensures
        *final(state) == step_state(*old(state), outcome, now_millis),
        r == step_result(*old(state), outcome, now_millis, timeout_seconds),
{
    match outcome {
        Outcome::Success { status } => StepResult {
            emit: true,
            clock_error: false,
            next: Next::Done { status },
        },
        _ => {
            let sig = crate::outcome::signal_key(outcome);
            let emit: bool;
            if sig != state.last_signal {
                state.last_signal = sig;
                state.last_log_millis = now_millis;
                emit = true;
            } else if now_millis < state.last_log_millis {
                emit = true;
            } else if (now_millis - state.last_log_millis) / 1000 > QUIET_SECONDS {
                state.last_log_millis = now_millis;
                emit = true;
            } else {
                emit = false;
            }
            let clock_error = now_millis < state.start_millis;
            let timed_out = !clock_error
                && timeout_seconds > 0
                && (now_millis - state.start_millis) / 1000 > timeout_seconds;
            StepResult {
                emit,
                clock_error,
                next: if timed_out {
                    Next::TimedOut
                } else {
                    Next::Retry
                },
            }
        },
    }
}

} // verus!
