//! Tests of the timer state machine, driving the pure transitions with
//! simulated clock instants where exact values matter, and the real `Timer`
//! (which reads the monotonic clock) where wall time is involved.

use flow_timer::{Phase, Timer, TimerState};

fn paused_state(remaining: u64) -> TimerState {
    TimerState { phase: Phase::Focus, remaining, is_running: false, started_at: None }
}

#[test]
fn start_then_immediate_query_returns_duration() {
    let s = paused_state(7);
    let running = s.started(1500, 1000);
    assert_eq!(running.seconds_left(1000), 1500);
    assert!(running.is_running);
    assert_eq!(running.started_at, Some(1000));
}

#[test]
fn start_overwrites_prior_remaining() {
    let s = paused_state(42);
    let running = s.started(10, 500);
    assert_eq!(running.remaining, 10);
    assert_eq!(running.seconds_left(500), 10);
}

#[test]
fn pause_after_elapsed_is_exact() {
    // start(d), wait e <= d, pause: exactly d - e remains.
    let s = paused_state(0);
    let running = s.started(100, 1000);
    // Polling before the pause does not mutate and does not drift.
    assert_eq!(running.seconds_left(1010), 90);
    assert_eq!(running.seconds_left(1010), 90);
    assert_eq!(running.seconds_left(1030), 70);
    let paused = running.paused(1030);
    assert_eq!(paused.remaining, 70);
    assert!(!paused.is_running);
    assert_eq!(paused.started_at, None);
    assert_eq!(paused.seconds_left(9999), 70);
}

#[test]
fn query_is_idempotent_at_one_instant() {
    let s = paused_state(0).started(60, 200);
    let first = s.seconds_left(230);
    let second = s.seconds_left(230);
    assert_eq!(first, second);
    assert_eq!(first, 30);
}

#[test]
fn double_pause_equals_single_pause() {
    let s = paused_state(0).started(500, 100);
    let once = s.paused(160);
    let twice = once.paused(9000);
    assert_eq!(once, twice);
    assert_eq!(once.remaining, 440);
}

#[test]
fn reset_yields_stopped_timer_with_given_duration() {
    // From a running state.
    let running = paused_state(0).started(777, 50);
    let r = running.reset_to(300);
    assert!(!r.is_running);
    assert_eq!(r.remaining, 300);
    assert_eq!(r.started_at, None);
    // From a paused state with an arbitrary prior remaining.
    let r2 = paused_state(123456).reset_to(300);
    assert!(!r2.is_running);
    assert_eq!(r2.remaining, 300);
    assert_eq!(r2.started_at, None);
}

#[test]
fn remaining_never_goes_negative() {
    // Elapsed wait far larger than the countdown: zero, not an error.
    let running = paused_state(0).started(10, 1000);
    assert_eq!(running.seconds_left(5000), 0);
    assert_eq!(running.paused(5000).remaining, 0);
    // Largest possible elapsed interval.
    let running = paused_state(0).started(1, 0);
    assert_eq!(running.seconds_left(u64::MAX), 0);
}

#[test]
fn clock_reading_before_start_counts_as_zero_elapsed() {
    // A reading earlier than the recorded start must not underflow.
    let running = paused_state(0).started(100, 1000);
    assert_eq!(running.seconds_left(999), 100);
    assert_eq!(running.paused(0).remaining, 100);
}

#[test]
fn zero_duration_countdown() {
    let running = paused_state(55).started(0, 10);
    assert_eq!(running.seconds_left(10), 0);
    assert_eq!(running.seconds_left(11), 0);
    assert_eq!(running.paused(10).remaining, 0);
}

#[test]
fn largest_duration_countdown() {
    let running = paused_state(0).started(u64::MAX, 0);
    assert_eq!(running.seconds_left(0), u64::MAX);
    assert_eq!(running.seconds_left(1), u64::MAX - 1);
}

#[test]
fn pomodoro_pause_scenario() {
    // start(1500) — 25 minutes — then 300 s elapse, then pause: 1200 left.
    let s = paused_state(0).started(1500, 10_000);
    let paused = s.paused(10_300);
    assert_eq!(paused.remaining, 1200);
    assert!(!paused.is_running);
    // Resuming is an explicit new start at the paused value: the baseline
    // restarts at 1200, it does not remember the earlier interval.
    let resumed = paused.started(1200, 20_000);
    assert_eq!(resumed.seconds_left(20_000), 1200);
    assert_eq!(resumed.seconds_left(20_060), 1140);
}

#[test]
fn transitions_keep_phase() {
    let s = TimerState {
        phase: Phase::ShortBreak,
        remaining: 0,
        is_running: false,
        started_at: None,
    };
    assert_eq!(s.started(10, 0).phase, Phase::ShortBreak);
    assert_eq!(s.started(10, 0).paused(4).phase, Phase::ShortBreak);
    assert_eq!(s.reset_to(10).phase, Phase::ShortBreak);
}

#[test]
fn new_timer_defaults() {
    let t = Timer::new();
    assert!(!t.is_running());
    assert_eq!(t.get_remaining(), 25 * 60);
    assert_eq!(t.phase(), Phase::Focus);
    let snap = t.snapshot();
    assert_eq!(snap.remaining, 1500);
    assert_eq!(snap.started_at, None);
}

#[test]
fn timer_start_query_within_tolerance() {
    let mut t = Timer::new();
    t.start(1500);
    assert!(t.is_running());
    // Immediately after the start, less than a second has elapsed.
    let r = t.get_remaining();
    assert!(r == 1500 || r == 1499);
}

#[test]
fn timer_double_pause_is_noop() {
    let mut t = Timer::new();
    t.start(600);
    t.pause();
    let once = t.snapshot();
    t.pause();
    assert_eq!(t.snapshot(), once);
    assert!(!t.is_running());
}

#[test]
fn timer_reset_while_running() {
    let mut t = Timer::new();
    t.start(1500);
    assert!(t.is_running());
    t.reset(300);
    assert!(!t.is_running());
    // Not running, so the query is exact whatever the clock does.
    assert_eq!(t.get_remaining(), 300);
    assert_eq!(t.snapshot().started_at, None);
}

#[test]
fn timer_set_phase_changes_only_phase() {
    let mut t = Timer::new();
    t.reset(300);
    t.set_phase(Phase::LongBreak);
    assert_eq!(t.phase(), Phase::LongBreak);
    assert!(!t.is_running());
    assert_eq!(t.get_remaining(), 300);
}

#[test]
fn timer_pause_without_start_keeps_remaining() {
    let mut t = Timer::new();
    t.pause();
    assert_eq!(t.get_remaining(), 1500);
    assert!(!t.is_running());
}
