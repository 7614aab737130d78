//! The guarantees of the polling engine, stated and proved as laws over the
//! decision model in [`crate::poller`].
//!
//! Throughout, a "sane" clock reading is one not earlier than the timestamp
//! it is compared against: the model treats an earlier reading as a clock
//! that went backwards.

use vstd::prelude::*;

use crate::outcome::Outcome;
use crate::outcome::Signal;
use crate::outcome::signal_of;
use crate::poller::Next;
use crate::poller::PollState;
use crate::poller::QUIET_SECONDS;
use crate::poller::StepResult;
use crate::poller::emits;
use crate::poller::resets_log_clock;
use crate::poller::step_result;
use crate::poller::step_state;

verus! {

/// The state after the first `i` of a sequence of attempts, each given as a
/// classification paired with the clock reading at which it was processed.
pub open spec fn state_after(
    state: PollState,
    attempts: Seq<(Outcome, u64)>,
    i: int,
) -> PollState
    decreases i,
{
    if i <= 0 {
        state
    } else {
        step_state(state_after(state, attempts, i - 1), attempts[i - 1].0, attempts[i - 1].1)
    }
}

/// Law: while the classification stays what was last logged and no more than
/// [`QUIET_SECONDS`] whole seconds have passed since the last line (sane
/// clock), the attempt is silent and leaves the state untouched.
pub proof fn lemma_unchanged_signal_stays_quiet(
    state: PollState,
    outcome: Outcome,
    now_millis: u64,
    timeout_seconds: u64,
)
    requires
        !(outcome is Success),
        signal_of(outcome) == state.last_signal,
        state.last_log_millis <= now_millis,
        (now_millis - state.last_log_millis) / 1000 <= QUIET_SECONDS,
    ensures
        !step_result(state, outcome, now_millis, timeout_seconds).emit,
        step_state(state, outcome, now_millis) == state,
{
}

/// Law: an attempt whose classification differs from the last one logged is
/// logged immediately, whatever the clock reads, and the line's timestamp
/// and the logged classification are both updated.
pub proof fn lemma_changed_signal_logs_immediately(
    state: PollState,
    outcome: Outcome,
    now_millis: u64,
    timeout_seconds: u64,
)
    requires
        !(outcome is Success),
        signal_of(outcome) != state.last_signal,
    ensures
        step_result(state, outcome, now_millis, timeout_seconds).emit,
        step_state(state, outcome, now_millis).last_signal == signal_of(outcome),
        step_state(state, outcome, now_millis).last_log_millis == now_millis,
{
}

/// Law: under a sane clock, every line moves the throttle's reference
/// timestamp to the moment it was emitted, and a silent attempt moves
/// nothing; so the reference always marks the latest line.
pub proof fn lemma_line_resets_reference(
    state: PollState,
    outcome: Outcome,
    now_millis: u64,
    timeout_seconds: u64,
)
    requires
        !(outcome is Success),
        state.last_log_millis <= now_millis,
    ensures
        step_result(state, outcome, now_millis, timeout_seconds).emit
            ==> step_state(state, outcome, now_millis).last_log_millis == now_millis,
        !step_result(state, outcome, now_millis, timeout_seconds).emit
            ==> step_state(state, outcome, now_millis) == state,
{
}

/// Law: once a line has been emitted, an attempt with that same
/// classification at a later (sane) clock reading is logged exactly when
/// more than [`QUIET_SECONDS`] whole seconds have passed since that line —
/// under an unchanged classification, lines come at most once per quiet
/// period after the first.
pub proof fn lemma_throttle_spacing(
    state: PollState,
    first: Outcome,
    first_millis: u64,
    second: Outcome,
    second_millis: u64,
    timeout_seconds: u64,
)
    requires
        !(first is Success),
        !(second is Success),
        signal_of(second) == signal_of(first),
        state.last_log_millis <= first_millis,
        first_millis <= second_millis,
        step_result(state, first, first_millis, timeout_seconds).emit,
    ensures
        step_state(state, first, first_millis).last_log_millis == first_millis,
        step_result(
            step_state(state, first, first_millis),
            second,
            second_millis,
            timeout_seconds,
        ).emit <==> (second_millis - first_millis) / 1000 > QUIET_SECONDS,
{
}

/// Whether the attempt at position `i` of a run is logged.
pub open spec fn run_emits_at(
    state: PollState,
    attempts: Seq<(Outcome, u64)>,
    i: int,
    timeout_seconds: u64,
) -> bool {
    step_result(state_after(state, attempts, i), attempts[i].0, attempts[i].1, timeout_seconds).emit
}

/// A run in which every attempt carries the same non-success classification
/// `sig`, processed at non-decreasing clock readings that start no earlier
/// than the last line already in `state`.
pub open spec fn steady_run(
    state: PollState,
    attempts: Seq<(Outcome, u64)>,
    sig: Signal,
) -> bool {
    &&& forall|k: int|
        0 <= k < attempts.len() ==> !(#[trigger] attempts[k].0 is Success) && signal_of(
            attempts[k].0,
        ) == sig
    &&& forall|k: int, l: int|
        0 <= k <= l < attempts.len() ==> #[trigger] attempts[k].1 <= #[trigger] attempts[l].1
    &&& attempts.len() > 0 ==> state.last_log_millis <= attempts[0].1
}

/// In a steady run the throttle's reference timestamp never runs ahead of
/// the clock, and from the second attempt on the logged classification is
/// the run's own.
proof fn lemma_steady_run_state(
    state: PollState,
    attempts: Seq<(Outcome, u64)>,
    sig: Signal,
    k: int,
)
    requires
        steady_run(state, attempts, sig),
        0 <= k < attempts.len(),
    ensures
        state_after(state, attempts, k).last_log_millis <= attempts[k].1,
        k >= 1 ==> state_after(state, attempts, k).last_signal == sig,
    decreases k,
{
    if k > 0 {
        lemma_steady_run_state(state, attempts, sig, k - 1);
    }
}

/// Between a line and the next attempt that is logged, a steady run keeps
/// the reference timestamp at the moment of that line.
proof fn lemma_steady_run_reference_holds(
    state: PollState,
    attempts: Seq<(Outcome, u64)>,
    sig: Signal,
    timeout_seconds: u64,
    i: int,
    k: int,
)
    requires
        steady_run(state, attempts, sig),
        0 <= i < attempts.len(),
        i < k <= attempts.len(),
        run_emits_at(state, attempts, i, timeout_seconds),
        forall|m: int| i < m < k ==> !run_emits_at(state, attempts, m, timeout_seconds),
    ensures
        k < attempts.len() ==> state_after(state, attempts, k).last_log_millis == attempts[i].1
            && state_after(state, attempts, k).last_signal == sig,
        k == attempts.len() && k > 0 ==> state_after(
            state,
            attempts,
            k,
        ).last_log_millis == attempts[i].1,
    decreases k - i,
{
    lemma_steady_run_state(state, attempts, sig, i);
    if k == i + 1 {
        // The line at `i` was emitted under a sane clock, so it moved the
        // reference to its own timestamp and set the logged classification.
        let st = state_after(state, attempts, i);
        let o = attempts[i].0;
        let t = attempts[i].1;
        assert(!(o is Success) && signal_of(o) == sig);
        assert(emits(st, sig, t));
        assert(resets_log_clock(st, sig, t));
        assert(state_after(state, attempts, k) == step_state(st, o, t));
    } else {
        lemma_steady_run_reference_holds(state, attempts, sig, timeout_seconds, i, k - 1);
        // The attempt at `k - 1` was silent, so it changed nothing.
        lemma_steady_run_state(state, attempts, sig, k - 1);
        let st = state_after(state, attempts, k - 1);
        let o = attempts[k - 1].0;
        let t = attempts[k - 1].1;
        assert(!(o is Success) && signal_of(o) == sig);
        assert(!run_emits_at(state, attempts, k - 1, timeout_seconds));
        assert(!emits(st, sig, t));
        assert(!resets_log_clock(st, sig, t));
        assert(state_after(state, attempts, k) == step_state(st, o, t));
        assert(step_state(st, o, t) == st);
    }
}

/// Law: in a steady run — one classification held over any number of
/// attempts, clock never going backwards — two consecutively logged attempts
/// lie more than [`QUIET_SECONDS`] whole seconds apart: after the first
/// line, lines come at most once per quiet period.
pub proof fn lemma_steady_run_throttles(
    state: PollState,
    attempts: Seq<(Outcome, u64)>,
    sig: Signal,
    timeout_seconds: u64,
    i: int,
    j: int,
)
    requires
        steady_run(state, attempts, sig),
        0 <= i < j < attempts.len(),
        run_emits_at(state, attempts, i, timeout_seconds),
        run_emits_at(state, attempts, j, timeout_seconds),
        forall|m: int| i < m < j ==> !run_emits_at(state, attempts, m, timeout_seconds),
    ensures
        (attempts[j].1 - attempts[i].1) / 1000 > QUIET_SECONDS,
{
    lemma_steady_run_reference_holds(state, attempts, sig, timeout_seconds, i, j);
}

/// Law: with a wait budget of `0` no attempt ever decides that time ran
/// out, whatever the state, the classification and the clock read.
pub proof fn lemma_unlimited_budget_never_times_out(
    state: PollState,
    outcome: Outcome,
    now_millis: u64,
)
    ensures
        step_result(state, outcome, now_millis, 0).next != Next::TimedOut,
{
}

/// Law: with a wait budget of `0`, a whole run of attempts — any number of
/// them, from any starting state — contains no attempt that decides that
/// time ran out.
pub proof fn lemma_unlimited_budget_run_never_times_out(
    state: PollState,
    attempts: Seq<(Outcome, u64)>,
)
    ensures
        forall|i: int|
            0 <= i < attempts.len() ==> #[trigger] step_result(
                state_after(state, attempts, i),
                attempts[i].0,
                attempts[i].1,
                0,
            ).next != Next::TimedOut,
{
}

/// Law: the start of the check never moves, so every budget check of a run
/// measures from the same origin.
pub proof fn lemma_start_is_fixed(state: PollState, attempts: Seq<(Outcome, u64)>, i: int)
    requires
        0 <= i,
    ensures
        state_after(state, attempts, i).start_millis == state.start_millis,
    decreases i,
{
    if i > 0 {
        lemma_start_is_fixed(state, attempts, i - 1);
    }
}

/// Law: with a positive wait budget `timeout_seconds` and a sane clock, a
/// failing attempt decides that time ran out exactly when the elapsed whole
/// seconds since the start strictly exceed the budget — the first check made
/// after the budget is exceeded is the one that stops the run.
pub proof fn lemma_budget_exceeded_exactly(
    state: PollState,
    outcome: Outcome,
    now_millis: u64,
    timeout_seconds: u64,
)
    requires
        !(outcome is Success),
        timeout_seconds > 0,
        state.start_millis <= now_millis,
    ensures
        step_result(state, outcome, now_millis, timeout_seconds).next == Next::TimedOut
            <==> (now_millis - state.start_millis) / 1000 > timeout_seconds,
        !step_result(state, outcome, now_millis, timeout_seconds).clock_error,
{
}

/// Law: a successful attempt ends the check at once: the confirmation line
/// is owed, no budget check runs, and the state is left untouched.
pub proof fn lemma_success_short_circuits(
    state: PollState,
    outcome: Outcome,
    now_millis: u64,
    timeout_seconds: u64,
)
    requires
        outcome is Success,
    ensures
        step_result(state, outcome, now_millis, timeout_seconds) == (StepResult {
            emit: true,
            clock_error: false,
            next: Next::Done { status: outcome->Success_status },
        }),
        step_state(state, outcome, now_millis) == state,
{
}

} // verus!
