//! The timer state machine: a phase tag, a remaining-seconds counter, and a
//! drift-free rule for how the counter evolves while the timer runs.

use vstd::prelude::*;

use crate::clock;

verus! {

/// Which countdown is active. The tag carries no data; phase sequencing
/// (how many focus sessions before a long break, auto-start policy) is the
/// caller's concern.
#[derive(Clone, Copy, Debug, PartialEq, Eq, Structural)]
pub enum Phase {
    Focus,
    ShortBreak,
    LongBreak,
}

/// Subtraction on seconds clamped at zero: a countdown never goes negative.
pub open spec fn sub_saturating(a: u64, b: u64) -> u64 {
    if a >= b {
        (a - b) as u64
    } else {
        0
    }
}

/// A snapshot of the timer.
///
/// `remaining` is the authoritative number of seconds left only while the
/// timer is not running; while it runs, the authoritative value is
/// `remaining` minus the seconds elapsed since `started_at`, floored at zero
/// (see [`TimerState::remaining_at`]).
///
/// Well-formed states have `started_at` present exactly while `is_running`
/// is set (see [`TimerState::wf`]).
#[derive(Clone, Copy, Debug, PartialEq, Eq, Structural)]
pub struct TimerState {
    pub phase: Phase,
    /// Seconds left as of the last pause or start, excluding time elapsed
    /// while running.
    pub remaining: u64,
    /// Whether the countdown is actively decrementing.
    pub is_running: bool,
    /// The instant (in clock seconds) when the current running interval
    /// began; `None` while not running.
    pub started_at: Option<u64>,
}

impl TimerState {
    /// The start instant is recorded exactly while the timer runs.
    pub open spec fn wf(self) -> bool {
        self.is_running <==> self.started_at is Some
    }

    /// The state a fresh timer holds: a focus phase of 25 minutes, paused.
    pub open spec fn initial() -> TimerState {
        TimerState { phase: Phase::Focus, remaining: 1500, is_running: false, started_at: None }
    }

    /// The state after starting a countdown of `duration` seconds at
    /// instant `now`: the baseline is reset to `duration` regardless of any
    /// prior remaining value, and the phase is kept.
    pub open spec fn after_start(self, duration: u64, now: u64) -> TimerState {
        TimerState {
            phase: self.phase,
            remaining: duration,
            is_running: true,
            started_at: Some(now),
        }
    }

    /// The state after pausing at instant `now`: the seconds elapsed since
    /// the recorded start are charged against `remaining` (saturating at
    /// zero) and the timer stops. Pausing an already-paused timer changes
    /// nothing but is harmless.
    pub open spec fn after_pause(self, now: u64) -> TimerState {
        TimerState {
            phase: self.phase,
            remaining: self.remaining_at(now),
            is_running: false,
            started_at: None,
        }
    }

    /// The state after a reset to `duration` seconds: stopped, with the
    /// counter set unconditionally, whatever ran before.
    pub open spec fn after_reset(self, duration: u64) -> TimerState {
        TimerState {
            phase: self.phase,
            remaining: duration,
            is_running: false,
            started_at: None,
        }
    }

    /// The authoritative seconds left at instant `now`: while running, the
    /// baseline minus the elapsed time, floored at zero; while paused, the
    /// baseline itself. Clock readings earlier than the recorded start
    /// count as zero elapsed time.
    pub open spec fn remaining_at(self, now: u64) -> u64 {
        match self.started_at {
            Some(started) => sub_saturating(self.remaining, sub_saturating(now, started)),
            None => self.remaining,
        }
    }

    /// Start a countdown of `duration` seconds at instant `now`.
    pub fn started(&self, duration: u64, now: u64) -> (r: TimerState)
        ensures
            r == self.after_start(duration, now),
            r.wf(),
    {
        TimerState {
            phase: self.phase,
            remaining: duration,
            is_running: true,
            started_at: Some(now),
        }
    }

    /// Pause at instant `now`, charging the elapsed time against the
    /// remaining seconds.
    pub fn paused(&self, now: u64) -> (r: TimerState)
        ensures
            r == self.after_pause(now),
            r.wf(),
    {
        let remaining: u64 = self.seconds_left(now);
        TimerState { phase: self.phase, remaining, is_running: false, started_at: None }
    }

    /// Reset to a stopped countdown of `duration` seconds.
    pub fn reset_to(&self, duration: u64) -> (r: TimerState)
        ensures
            r == self.after_reset(duration),
            r.wf(),
    {
        TimerState {
            phase: self.phase,
            remaining: duration,
            is_running: false,
            started_at: None,
        }
    }

    /// The seconds left at instant `now`, computed without mutating the
    /// state.
    pub fn seconds_left(&self, now: u64) -> (r: u64)
        ensures
            r == self.remaining_at(now),
    {
        match self.started_at {
            Some(started) => {
                let elapsed: u64 = now.saturating_sub(started);
                self.remaining.saturating_sub(elapsed)
            },
            None => self.remaining,
        }
    }
}

/// The countdown timer: a [`TimerState`] together with the clock origin its
/// start instants are measured from.
///
/// The view of a `Timer` is its current [`TimerState`]; every well-formed
/// timer satisfies [`TimerState::wf`]. Each operation reads the clock at
/// most once and applies one state transition, so a host may guard a shared
/// `Timer` with a mutual-exclusion lock around single calls: no call leaves
/// a half-updated state behind.
pub struct Timer {
    origin: std::time::Instant,
    state: TimerState,
}

impl View for Timer {
    type V = TimerState;

    closed spec fn view(&self) -> TimerState {
        self.state
    }
}

impl Timer {
    #[verifier::type_invariant]
    spec fn inv(self) -> bool {
        self.state.wf()
    }

    /// A fresh timer: focus phase, 25 minutes, not running.
    pub fn new() -> (t: Timer)
        ensures
            t@ == TimerState::initial(),
    {
        Timer {
            origin: clock::instant_now(),
            state: TimerState {
                phase: Phase::Focus,
                remaining: 25 * 60,  // 25 minutes default
                is_running: false,
                started_at: None,
            },
        }
    }

    /// Start a countdown of `duration` seconds at the current instant.
    /// The baseline is reset to `duration` whatever ran before: starting
    /// never resumes a prior pause. The phase tag is kept.
    pub fn start(&mut self, duration: u64)
        ensures
            (final(self)@.started_at matches Some(now) && final(self)@ == old(
                self,
            )@.after_start(duration, now)),
            final(self)@.is_running,
            final(self)@.remaining == duration,
            final(self)@.phase == old(self)@.phase,
    {
        let now_instant = clock::instant_now();
        let now: u64 = clock::seconds_between(&self.origin, &now_instant);
        let next = self.state.started(duration, now);
        self.state = next;
    }

    /// Pause at the current instant: the seconds elapsed since the recorded
    /// start are charged against the remaining time, saturating at zero, and
    /// the timer stops. Pausing an already-paused timer changes nothing.
    pub fn pause(&mut self)
        ensures
            !final(self)@.is_running,
            final(self)@.started_at is None,
            final(self)@.phase == old(self)@.phase,
            final(self)@.remaining <= old(self)@.remaining,
            !old(self)@.is_running ==> final(self)@ == old(self)@,
            exists|now: u64| final(self)@ == old(self)@.after_pause(now),
    {
        proof {
            use_type_invariant(&*self);
        }
        let now_instant = clock::instant_now();
        let now: u64 = clock::seconds_between(&self.origin, &now_instant);
        let next = self.state.paused(now);
        self.state = next;
        proof {
            assert(self@ == old(self)@.after_pause(now));
        }
    }

    /// Reset to a stopped countdown of `duration` seconds, unconditionally:
    /// used both for phase transitions and for an explicit user reset.
    pub fn reset(&mut self, duration: u64)
        ensures
            final(self)@ == old(self)@.after_reset(duration),
            !final(self)@.is_running,
            final(self)@.remaining == duration,
            final(self)@.started_at is None,
    {
        let next = self.state.reset_to(duration);
        self.state = next;
    }

    /// The seconds left right now: while running, the baseline minus the
    /// elapsed time, floored at zero; while paused, the baseline exactly.
    /// A pure read: the state is not touched, so repeated calls need no
    /// coordination beyond the host's lock.
    pub fn get_remaining(&self) -> (r: u64)
        ensures
            !self@.is_running ==> r == self@.remaining,
            r <= self@.remaining,
            exists|now: u64| r == self@.remaining_at(now),
    {
        proof {
            use_type_invariant(self);
        }
        let now_instant = clock::instant_now();
        let now: u64 = clock::seconds_between(&self.origin, &now_instant);
        let r = self.state.seconds_left(now);
        proof {
            assert(r == self@.remaining_at(now));
        }
        r
    }

    /// Whether the countdown is actively decrementing. A pure read.
    pub fn is_running(&self) -> (r: bool)
        ensures
            r == self@.is_running,
    {
        self.state.is_running
    }

    /// The current phase tag. A pure read.
    pub fn phase(&self) -> (r: Phase)
        ensures
            r == self@.phase,
    {
        self.state.phase
    }

    /// Record which countdown the current phase belongs to; nothing else
    /// changes. The host sets this alongside `start` or `reset` when it
    /// advances the phase sequence.
    pub fn set_phase(&mut self, phase: Phase)
        ensures
            final(self)@.phase == phase,
            final(self)@.remaining == old(self)@.remaining,
            final(self)@.is_running == old(self)@.is_running,
            final(self)@.started_at == old(self)@.started_at,
    {
        proof {
            use_type_invariant(&*self);
        }
        let next = TimerState {
            phase,
            remaining: self.state.remaining,
            is_running: self.state.is_running,
            started_at: self.state.started_at,
        };
        self.state = next;
    }

    /// A copy of the whole state, for rendering. A pure read.
    pub fn snapshot(&self) -> (r: TimerState)
        ensures
            r == self@,
            r.wf(),
    {
        proof {
            use_type_invariant(self);
        }
        self.state
    }
}

} // verus!
