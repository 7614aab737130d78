use urlwait::outcome::HttpReport;
use urlwait::outcome::Outcome;
use urlwait::outcome::Signal;
use urlwait::outcome::classify;
use urlwait::outcome::signal_key;
use urlwait::poller::Next;
use urlwait::poller::PollState;
use urlwait::poller::poll_step;

#[test]
fn classify_2xx_is_success() {
    assert_eq!(classify(HttpReport::Response { status: 200 }), Outcome::Success { status: 200 });
    assert_eq!(classify(HttpReport::Response { status: 204 }), Outcome::Success { status: 204 });
    assert_eq!(classify(HttpReport::Response { status: 299 }), Outcome::Success { status: 299 });
}

#[test]
fn classify_other_status_is_failure() {
    assert_eq!(classify(HttpReport::Response { status: 199 }), Outcome::Failure { status: 199 });
    assert_eq!(classify(HttpReport::Response { status: 300 }), Outcome::Failure { status: 300 });
    assert_eq!(classify(HttpReport::Response { status: 404 }), Outcome::Failure { status: 404 });
    assert_eq!(classify(HttpReport::Response { status: 500 }), Outcome::Failure { status: 500 });
}

#[test]
fn classify_error_with_status_is_failure_even_for_2xx() {
    assert_eq!(
        classify(HttpReport::ErrorWithStatus { status: 502 }),
        Outcome::Failure { status: 502 }
    );
    assert_eq!(
        classify(HttpReport::ErrorWithStatus { status: 200 }),
        Outcome::Failure { status: 200 }
    );
}

#[test]
fn classify_error_without_status_is_transport() {
    assert_eq!(classify(HttpReport::ErrorNoStatus), Outcome::Transport);
}

#[test]
fn signal_key_distinguishes_no_response_from_any_status() {
    assert_eq!(signal_key(Outcome::Transport), Signal::NoResponse);
    assert_eq!(signal_key(Outcome::Failure { status: 500 }), Signal::Status { status: 500 });
    assert_ne!(signal_key(Outcome::Transport), signal_key(Outcome::Failure { status: 500 }));
}

#[test]
fn fresh_state_measures_from_now() {
    let state = PollState::new(1_000);
    assert_eq!(state.start_millis, 1_000);
    assert_eq!(state.last_signal, Signal::NoneYet);
    assert_eq!(state.last_log_millis, 1_000);
}

#[test]
fn first_failure_is_logged_immediately() {
    let mut state = PollState::new(0);
    let r = poll_step(&mut state, Outcome::Failure { status: 500 }, 0, 300);
    assert!(r.emit);
    assert!(!r.clock_error);
    assert_eq!(r.next, Next::Retry);
    assert_eq!(state.last_signal, Signal::Status { status: 500 });
}

#[test]
fn repeated_failure_is_quiet_within_five_seconds() {
    let mut state = PollState::new(0);
    poll_step(&mut state, Outcome::Failure { status: 500 }, 0, 300);
    let r = poll_step(&mut state, Outcome::Failure { status: 500 }, 1_000, 300);
    assert!(!r.emit);
    let r = poll_step(&mut state, Outcome::Failure { status: 500 }, 5_999, 300);
    assert!(!r.emit);
    assert_eq!(state.last_log_millis, 0);
}

#[test]
fn repeated_failure_heartbeats_after_five_whole_seconds() {
    let mut state = PollState::new(0);
    poll_step(&mut state, Outcome::Failure { status: 500 }, 0, 300);
    let r = poll_step(&mut state, Outcome::Failure { status: 500 }, 6_000, 300);
    assert!(r.emit);
    assert_eq!(state.last_log_millis, 6_000);
    // The heartbeat restarts the quiet period.
    let r = poll_step(&mut state, Outcome::Failure { status: 500 }, 11_999, 300);
    assert!(!r.emit);
    let r = poll_step(&mut state, Outcome::Failure { status: 500 }, 12_001, 300);
    assert!(r.emit);
}

#[test]
fn changed_status_is_logged_at_once() {
    let mut state = PollState::new(0);
    poll_step(&mut state, Outcome::Failure { status: 500 }, 0, 300);
    // A different status right away: logged despite the quiet period.
    let r = poll_step(&mut state, Outcome::Failure { status: 404 }, 100, 300);
    assert!(r.emit);
    assert_eq!(state.last_signal, Signal::Status { status: 404 });
    assert_eq!(state.last_log_millis, 100);
}

#[test]
fn switch_between_status_and_no_response_is_logged_at_once() {
    let mut state = PollState::new(0);
    poll_step(&mut state, Outcome::Failure { status: 503 }, 0, 300);
    let r = poll_step(&mut state, Outcome::Transport, 200, 300);
    assert!(r.emit);
    assert_eq!(state.last_signal, Signal::NoResponse);
    let r = poll_step(&mut state, Outcome::Failure { status: 503 }, 400, 300);
    assert!(r.emit);
}

#[test]
fn outage_then_recovery_logs_throttled_then_succeeds() {
    // A URL that answers 500 for a while, then 200: the 500 is logged first
    // immediately and then only as throttled heartbeats, and the 200 ends
    // the check without the budget ever being consulted on the way.
    let mut state = PollState::new(0);
    let mut emitted: Vec<u64> = Vec::new();
    let times: [u64; 5] = [0, 250, 3_000, 6_500, 9_000];
    for t in times {
        let r = poll_step(&mut state, Outcome::Failure { status: 500 }, t, 300);
        assert_eq!(r.next, Next::Retry);
        if r.emit {
            emitted.push(t);
        }
    }
    assert_eq!(emitted, vec![0, 6_500]);
    let r = poll_step(&mut state, Outcome::Success { status: 200 }, 9_250, 300);
    assert!(r.emit);
    assert_eq!(r.next, Next::Done { status: 200 });
}

#[test]
fn zero_budget_never_times_out() {
    let mut state = PollState::new(0);
    let mut t: u64 = 0;
    for _ in 0..50 {
        let r = poll_step(&mut state, Outcome::Failure { status: 500 }, t, 0);
        assert_eq!(r.next, Next::Retry);
        t += 100_000;
    }
    let r = poll_step(&mut state, Outcome::Transport, u64::MAX, 0);
    assert_eq!(r.next, Next::Retry);
}

#[test]
fn budget_times_out_on_first_check_past_it() {
    let mut state = PollState::new(0);
    // Exactly ten whole seconds elapsed: not yet past a ten-second budget.
    let r = poll_step(&mut state, Outcome::Failure { status: 500 }, 10_999, 10);
    assert_eq!(r.next, Next::Retry);
    // Eleven whole seconds: the first check past the budget stops the run.
    let r = poll_step(&mut state, Outcome::Failure { status: 500 }, 11_000, 10);
    assert_eq!(r.next, Next::TimedOut);
}

#[test]
fn success_short_circuits_even_past_the_budget() {
    let mut state = PollState::new(0);
    let r = poll_step(&mut state, Outcome::Success { status: 201 }, 1_000_000, 10);
    assert!(r.emit);
    assert!(!r.clock_error);
    assert_eq!(r.next, Next::Done { status: 201 });
}

#[test]
fn backwards_clock_on_throttle_logs_without_moving_the_reference() {
    let mut state = PollState::new(10_000);
    poll_step(&mut state, Outcome::Failure { status: 500 }, 10_000, 300);
    // The clock reads earlier than the last line: the line is printed, the
    // reference timestamp stays where it was.
    let r = poll_step(&mut state, Outcome::Failure { status: 500 }, 9_000, 300);
    assert!(r.emit);
    assert_eq!(state.last_log_millis, 10_000);
}

#[test]
fn backwards_clock_on_budget_check_is_reported_and_skipped() {
    let mut state = PollState::new(10_000);
    // The clock reads earlier than the start: the budget check is skipped
    // and reported, and the loop goes on even with a tiny budget.
    let r = poll_step(&mut state, Outcome::Transport, 9_000, 1);
    assert!(r.clock_error);
    assert_eq!(r.next, Next::Retry);
}
