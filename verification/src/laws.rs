//! The guarantees the timer gives its callers, stated once over the state
//! machine and proved for every state, duration and instant.

use vstd::prelude::*;

use crate::timer::TimerState;

verus! {

/// Starting a countdown of `d` seconds and querying at the same instant
/// yields `d` exactly, for every non-negative `d`.
pub proof fn lemma_start_then_query(s: TimerState, d: u64, now: u64)
    ensures
        s.after_start(d, now).remaining_at(now) == d,
{
}

/// Starting a countdown of `d` seconds at `t0` and pausing after `e <= d`
/// elapsed seconds leaves exactly `d - e` remaining: no drift, however often
/// the timer was polled in between, since queries do not mutate the state.
pub proof fn lemma_pause_after_elapsed(s: TimerState, d: u64, t0: u64, e: u64)
    requires
        e <= d,
        t0 + e <= u64::MAX,
    ensures
        s.after_start(d, t0).after_pause((t0 + e) as u64).remaining == d - e,
        s.after_start(d, t0).remaining_at((t0 + e) as u64) == d - e,
{
}

/// Querying is idempotent up to the clock: the remaining time is a function
/// of the state and the instant alone, two reads a clock interval apart
/// differ by at most that interval, and the value never increases while the
/// state is left alone.
pub proof fn lemma_query_stable(s: TimerState, n1: u64, n2: u64)
    requires
        n1 <= n2,
    ensures
        s.remaining_at(n2) <= s.remaining_at(n1),
        s.remaining_at(n1) - s.remaining_at(n2) <= n2 - n1,
{
}

/// Pausing while already paused is a no-op: the state after a double pause
/// equals the state after the single pause, whatever instants the two
/// pauses read from the clock.
pub proof fn lemma_double_pause(s: TimerState, n1: u64, n2: u64)
    ensures
        s.after_pause(n1).after_pause(n2) == s.after_pause(n1),
{
}

/// A reset always yields a stopped timer holding exactly `d` seconds with no
/// start instant recorded, regardless of the prior state.
pub proof fn lemma_reset(s: TimerState, d: u64)
    ensures
        !s.after_reset(d).is_running,
        s.after_reset(d).remaining == d,
        s.after_reset(d).started_at is None,
        s.after_reset(d).phase == s.phase,
{
}

/// The remaining time never goes negative: once more time has elapsed than
/// the countdown held, a query reports exactly zero, and a pause leaves
/// exactly zero — never an error and never a wrapped value.
pub proof fn lemma_expired_reports_zero(s: TimerState, d: u64, t0: u64, e: u64)
    requires
        e > d,
        t0 + e <= u64::MAX,
    ensures
        s.after_start(d, t0).remaining_at((t0 + e) as u64) == 0,
        s.after_start(d, t0).after_pause((t0 + e) as u64).remaining == 0,
{
}

/// Every transition leaves a well-formed state — a start instant is recorded
/// exactly while the timer runs — so an observer serialized by the host's
/// lock never sees a half-updated record such as a running timer without a
/// start instant.
pub proof fn lemma_transitions_well_formed(s: TimerState, d: u64, now: u64)
    ensures
        s.after_start(d, now).wf(),
        s.after_pause(now).wf(),
        s.after_reset(d).wf(),
{
}

} // verus!
