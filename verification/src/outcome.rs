//! Classification of one HTTP attempt.
//!
//! The caller performs the request and reports it here as plain data: either
//! the server answered with some status, or the request failed but still
//! carries a status (a transport-level error reported with one), or it failed
//! with no status at all. Classification turns that report into an
//! [`Outcome`], and every non-successful outcome yields a [`Signal`], the key
//! by which repeated identical log lines are throttled.

use vstd::prelude::*;

verus! {

/// What one HTTP attempt reported, as plain data.
#[derive(Clone, Copy, Debug, PartialEq, Eq, Structural)]
pub enum HttpReport {
    /// The request completed and the server answered with this status.
    Response { status: u16 },
    /// The request failed, but the failure carries a status code.
    ErrorWithStatus { status: u16 },
    /// The request failed with no status code at all.
    ErrorNoStatus,
}

/// The classification of one attempt.
#[derive(Clone, Copy, Debug, PartialEq, Eq, Structural)]
pub enum Outcome {
    /// A status in `[200, 299]` from a completed request: the check is done.
    Success { status: u16 },
    /// The server was reached in some sense but the attempt failed; keyed by
    /// the status code it carried.
    Failure { status: u16 },
    /// No status code was available: connection, DNS or timeout failure.
    Transport,
}

/// The throttling key: what classification was last logged.
#[derive(Clone, Copy, Debug, PartialEq, Eq, Structural)]
pub enum Signal {
    /// Nothing has been logged yet for this URL.
    NoneYet,
    /// The last logged attempt carried this status code.
    Status { status: u16 },
    /// The last logged attempt had no status code.
    NoResponse,
}

/// A status counts as success exactly when it lies in `[200, 299]`.
pub open spec fn is_success_status(status: u16) -> bool {
    200 <= status <= 299
}

/// How a report is classified: a completed request with a `2xx` status is a
/// success; any other status — from a completed request or carried by a
/// failed one — is a failure keyed by that status; everything else is a
/// transport error.
pub open spec fn classify_spec(report: HttpReport) -> Outcome {
    match report {
        HttpReport::Response { status } => if is_success_status(status) {
            Outcome::Success { status }
        } else {
            Outcome::Failure { status }
        },
        HttpReport::ErrorWithStatus { status } => Outcome::Failure { status },
        HttpReport::ErrorNoStatus => Outcome::Transport,
    }
}

/// The throttling key of an outcome. Success never reaches the throttle, but
/// the function is total so that contracts need no side condition.
pub open spec fn signal_of(outcome: Outcome) -> Signal {
    match outcome {
        Outcome::Success { status } => Signal::Status { status },
        Outcome::Failure { status } => Signal::Status { status },
        Outcome::Transport => Signal::NoResponse,
    }
}

/// The throttling key of an outcome, computed.
pub fn signal_key(outcome: Outcome) -> (sig: Signal)
    ensures
        sig == signal_of(outcome),
{
    match outcome {
        Outcome::Success { status } => Signal::Status { status },
        Outcome::Failure { status } => Signal::Status { status },
        Outcome::Transport => Signal::NoResponse,
    }
}

/// Classify one attempt's report.
pub fn classify(report: HttpReport) -> (outcome: Outcome)
    ensures
        outcome == classify_spec(report),
{
    match report {
        HttpReport::Response { status } => if 200 <= status && status <= 299 {
            Outcome::Success { status }
        } else {
            Outcome::Failure { status }
        },
        HttpReport::ErrorWithStatus { status } => Outcome::Failure { status },
        HttpReport::ErrorNoStatus => Outcome::Transport,
    }
}

} // verus!
