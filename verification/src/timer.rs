//! The Pomodoro timer state machine: phases, run-states and elapsed-time
//! accounting.
//!
//! All methods are total state transitions over plain values. The caller
//! supplies the current reading of a monotonic clock (in whole seconds) to
//! the operations that depend on time, so every transition is a pure
//! function of its arguments and is verified as such.

use vstd::prelude::*;

use crate::models::Config;

verus! {

/// The current phase of the pomodoro cycle.
#[derive(Debug, Clone, Copy, PartialEq, Eq, Structural)]
pub enum TimerPhase {
    Work,
    ShortBreak,
    LongBreak,
}

impl TimerPhase {
    pub fn label(&self) -> (r: &'static str)
        ensures
            self is Work ==> r@ == "WORK SESSION"@,
            self is ShortBreak ==> r@ == "SHORT BREAK"@,
            self is LongBreak ==> r@ == "LONG BREAK"@,
    {
        match self {
            TimerPhase::Work => "WORK SESSION",
            TimerPhase::ShortBreak => "SHORT BREAK",
            TimerPhase::LongBreak => "LONG BREAK",
        }
    }

    pub fn is_break(&self) -> (r: bool)
        ensures
            r == (self is ShortBreak || self is LongBreak),
    {
        matches!(self, TimerPhase::ShortBreak | TimerPhase::LongBreak)
    }
}

/// The current run-state of the timer.
///
/// `started` is a reading of the caller's monotonic clock, in seconds;
/// `elapsed_before_pause` and `elapsed` are in seconds as well.
#[derive(Debug, Clone, Copy, PartialEq, Eq, Structural)]
pub enum TimerState {
    Idle,
    Running { started: u64, elapsed_before_pause: u64 },
    Paused { elapsed: u64 },
}

/// The pomodoro timer state machine.
///
/// Durations are in whole seconds.
#[derive(Debug, Clone, Copy)]
pub struct PomodoroTimer {
    pub phase: TimerPhase,
    pub state: TimerState,
    pub work_duration: u64,
    pub short_break: u64,
    pub long_break: u64,
    pub sessions_until_long: u64,
    pub sessions_completed: u64,
}

impl PomodoroTimer {
    /// Well-formedness: every configured value fits the range that a stored
    /// session record (signed 64-bit seconds) can hold, the long-break
    /// threshold is positive, and the completed-session counter has not
    /// outgrown that range either.
    pub open spec fn wf(self) -> bool {
        &&& 1 <= self.sessions_until_long <= i64::MAX
        &&& self.sessions_completed <= i64::MAX
        &&& self.work_duration <= i64::MAX
        &&& self.short_break <= i64::MAX
        &&& self.long_break <= i64::MAX
    }

    /// The configured duration of the currently active phase, in seconds.
    pub open spec fn phase_duration(self) -> u64 {
        match self.phase {
            TimerPhase::Work => self.work_duration,
            TimerPhase::ShortBreak => self.short_break,
            TimerPhase::LongBreak => self.long_break,
        }
    }

    /// Whether `now` is an acceptable reading of the monotonic clock for
    /// this state: while running, the clock cannot be earlier than the
    /// recorded start, and the accumulated elapsed time must fit in `u64`.
    pub open spec fn time_ok(self, now: u64) -> bool {
        match self.state {
            TimerState::Running { started, elapsed_before_pause } =>
                started <= now && elapsed_before_pause + now - started <= u64::MAX,
            _ => true,
        }
    }

    /// The elapsed time of the current phase at clock reading `now`, in
    /// seconds: zero while idle, frozen while paused, and accumulating
    /// while running.
    pub open spec fn elapsed_at(self, now: u64) -> int {
        match self.state {
            TimerState::Idle => 0,
            TimerState::Running { started, elapsed_before_pause } =>
                elapsed_before_pause + now - started,
            TimerState::Paused { elapsed } => elapsed as int,
        }
    }

    /// The remaining time of the current phase at clock reading `now`:
    /// the phase duration less the elapsed time, never below zero.
    pub open spec fn remaining_at(self, now: u64) -> int {
        if self.elapsed_at(now) >= self.phase_duration() {
            0
        } else {
            self.phase_duration() - self.elapsed_at(now)
        }
    }

    /// Create a new pomodoro timer with the default settings: a 25 minute
    /// work phase, 5 and 15 minute breaks, and a long break every 4th
    /// completed work session.
    pub fn new() -> (r: Self)
        ensures
            r.phase is Work,
            r.state is Idle,
            r.work_duration == 1500,
            r.short_break == 300,
            r.long_break == 900,
            r.sessions_until_long == 4,
            r.sessions_completed == 0,
            r.wf(),
    {
        PomodoroTimer {
            phase: TimerPhase::Work,
            state: TimerState::Idle,
            work_duration: 1500,
            short_break: 300,
            long_break: 900,
            sessions_until_long: 4,
            sessions_completed: 0,
        }
    }

    /// Get the duration of the current phase, in seconds.
    pub fn current_phase_duration(&self) -> (r: u64)
        ensures
            r == self.phase_duration(),
    {
        match self.phase {
            TimerPhase::Work => self.work_duration,
            TimerPhase::ShortBreak => self.short_break,
            TimerPhase::LongBreak => self.long_break,
        }
    }

    /// Get the elapsed time of the current phase, in seconds, at monotonic
    /// clock reading `now`.
    pub fn elapsed(&self, now: u64) -> (r: u64)
        requires
            self.time_ok(now),
        ensures
            r == self.elapsed_at(now),
    {
        match self.state {
            TimerState::Idle => 0,
            TimerState::Running { started, elapsed_before_pause } =>
                elapsed_before_pause + (now - started),
            TimerState::Paused { elapsed } => elapsed,
        }
    }

    /// Get the remaining time of the current phase, in seconds, at
    /// monotonic clock reading `now`. Saturates at zero.
    pub fn remaining(&self, now: u64) -> (r: u64)
        requires
            self.time_ok(now),
        ensures
            r == self.remaining_at(now),
    {
        let total = self.current_phase_duration();
        let done = self.elapsed(now);
        if done >= total {
            0
        } else {
            total - done
        }
    }

    /// Check whether the current phase is finished at clock reading `now`:
    /// the elapsed time has reached the configured phase duration.
    pub fn is_finished(&self, now: u64) -> (r: bool)
        requires
            self.time_ok(now),
        ensures
            r == (self.elapsed_at(now) >= self.phase_duration()),
    {
        self.elapsed(now) >= self.current_phase_duration()
    }

    /// Check if the timer is currently running.
    pub fn is_running(&self) -> (r: bool)
        ensures
            r == (self.state is Running),
    {
        matches!(self.state, TimerState::Running { .. })
    }

    /// Check if the timer is paused.
    pub fn is_paused(&self) -> (r: bool)
        ensures
            r == (self.state is Paused),
    {
        matches!(self.state, TimerState::Paused { .. })
    }

    /// Check if the timer is idle (not started).
    pub fn is_idle(&self) -> (r: bool)
        ensures
            r == (self.state is Idle),
    {
        matches!(self.state, TimerState::Idle)
    }

    /// The state after `start` at clock reading `now`: idle begins running
    /// from zero, paused resumes carrying its frozen elapsed time, and an
    /// already running timer is left untouched.
    pub open spec fn start_spec(self, now: u64) -> Self {
        match self.state {
            TimerState::Idle => PomodoroTimer {
                state: TimerState::Running { started: now, elapsed_before_pause: 0 },
                ..self
            },
            TimerState::Paused { elapsed } => PomodoroTimer {
                state: TimerState::Running { started: now, elapsed_before_pause: elapsed },
                ..self
            },
            TimerState::Running { .. } => self,
        }
    }

    /// Start or resume the timer at monotonic clock reading `now`.
    pub fn start(&mut self, now: u64)
        ensures
            *final(self) == old(self).start_spec(now),
    {
        match self.state {
            TimerState::Idle => {
                self.state = TimerState::Running { started: now, elapsed_before_pause: 0 };
            }
            TimerState::Paused { elapsed } => {
                self.state = TimerState::Running { started: now, elapsed_before_pause: elapsed };
            }
            TimerState::Running { .. } => {}
        }
    }

    /// The state after `pause` at clock reading `now`: a running timer
    /// freezes at its current elapsed value; idle and paused are untouched.
    pub open spec fn pause_spec(self, now: u64) -> Self {
        match self.state {
            TimerState::Running { .. } => PomodoroTimer {
                state: TimerState::Paused { elapsed: self.elapsed_at(now) as u64 },
                ..self
            },
            _ => self,
        }
    }

    /// Pause the timer at monotonic clock reading `now`.
    pub fn pause(&mut self, now: u64)
        requires
            old(self).time_ok(now),
        ensures
            *final(self) == old(self).pause_spec(now),
    {
        if let TimerState::Running { .. } = self.state {
            let done = self.elapsed(now);
            self.state = TimerState::Paused { elapsed: done };
        }
    }

    /// Reset the timer to the idle state, discarding all elapsed time of
    /// the current phase. The phase itself is kept.
    pub fn reset(&mut self)
        ensures
            *final(self) == (PomodoroTimer { state: TimerState::Idle, ..*old(self) }),
    {
        self.state = TimerState::Idle;
    }

    /// The state after `advance_phase`. Completing a work phase counts it;
    /// when the count reaches the threshold the long break starts and the
    /// count resets, otherwise a short break starts. Completing either
    /// break returns to work with the count untouched. The run-state always
    /// returns to idle.
    pub open spec fn advance_spec(self) -> Self {
        match self.phase {
            TimerPhase::Work => {
                if self.sessions_completed + 1 >= self.sessions_until_long {
                    PomodoroTimer {
                        phase: TimerPhase::LongBreak,
                        state: TimerState::Idle,
                        sessions_completed: 0,
                        ..self
                    }
                } else {
                    PomodoroTimer {
                        phase: TimerPhase::ShortBreak,
                        state: TimerState::Idle,
                        sessions_completed: (self.sessions_completed + 1) as u64,
                        ..self
                    }
                }
            }
            TimerPhase::ShortBreak | TimerPhase::LongBreak => PomodoroTimer {
                phase: TimerPhase::Work,
                state: TimerState::Idle,
                ..self
            },
        }
    }

    /// Advance to the next phase.
    pub fn advance_phase(&mut self)
        requires
            old(self).wf(),
        ensures
            *final(self) == old(self).advance_spec(),
            final(self).wf(),
    {
        match self.phase {
            TimerPhase::Work => {
                let done = self.sessions_completed + 1;
                if done >= self.sessions_until_long {
                    self.phase = TimerPhase::LongBreak;
                    self.sessions_completed = 0;
                } else {
                    self.phase = TimerPhase::ShortBreak;
                    self.sessions_completed = done;
                }
            }
            TimerPhase::ShortBreak | TimerPhase::LongBreak => {
                self.phase = TimerPhase::Work;
            }
        }
        self.state = TimerState::Idle;
    }

    /// The state after `skip_break`: from either break, straight back to
    /// work and idle; from work, no change at all.
    pub open spec fn skip_break_spec(self) -> Self {
        if self.phase is ShortBreak || self.phase is LongBreak {
            PomodoroTimer { phase: TimerPhase::Work, state: TimerState::Idle, ..self }
        } else {
            self
        }
    }

    /// Skip the current break and return to an idle work phase. A no-op
    /// while the phase is work.
    pub fn skip_break(&mut self)
        ensures
            *final(self) == old(self).skip_break_spec(),
    {
        if self.phase.is_break() {
            self.phase = TimerPhase::Work;
            self.state = TimerState::Idle;
        }
    }

    /// The state after `apply_config`: the three durations and the
    /// threshold are overwritten; phase, run-state and the completed
    /// counter are untouched.
    pub open spec fn apply_config_spec(self, c: Config) -> Self {
        PomodoroTimer {
            work_duration: c.work_duration_secs as u64,
            short_break: c.short_break_secs as u64,
            long_break: c.long_break_secs as u64,
            sessions_until_long: c.sessions_until_long_break as u64,
            ..self
        }
    }

    /// Apply validated configuration settings to the timer. Progress in
    /// the current phase is kept; if the new duration is shorter than the
    /// time already elapsed, the next finished-check will see the phase
    /// as complete.
    pub fn apply_config(&mut self, config: &Config)
        requires
            old(self).wf(),
            config.valid(),
        ensures
            *final(self) == old(self).apply_config_spec(*config),
            final(self).wf(),
    {
        self.work_duration = config.work_duration_secs as u64;
        self.short_break = config.short_break_secs as u64;
        self.long_break = config.long_break_secs as u64;
        self.sessions_until_long = config.sessions_until_long_break as u64;
    }
}

/// Law: while running, elapsed time never decreases as the clock moves
/// forward; while paused or idle it does not move at all.
pub proof fn lemma_elapsed_monotonic(t: PomodoroTimer, n1: u64, n2: u64)
    requires
        t.time_ok(n1),
        t.time_ok(n2),
        n1 <= n2,
    ensures
        t.elapsed_at(n1) <= t.elapsed_at(n2),
        !(t.state is Running) ==> t.elapsed_at(n1) == t.elapsed_at(n2),
{
}

/// Law: pausing freezes the elapsed value exactly. Immediately after
/// `pause` at clock `n_pause`, the elapsed time equals the elapsed time
/// just before it, and it stays that value at every later reading.
pub proof fn lemma_pause_conserves_elapsed(t: PomodoroTimer, n_pause: u64, n_later: u64)
    requires
        t.time_ok(n_pause),
    ensures
        t.pause_spec(n_pause).elapsed_at(n_later) == t.elapsed_at(n_pause),
{
}

/// Law: resuming a paused timer accumulates additively. Pausing at
/// `n_pause`, resuming at `n_resume` and reading at `n_read` gives the
/// elapsed time from before the pause plus the running time since the
/// resume; nothing is lost or reset.
pub proof fn lemma_pause_resume_accumulates(
    t: PomodoroTimer,
    n_pause: u64,
    n_resume: u64,
    n_read: u64,
)
    requires
        t.time_ok(n_pause),
        n_resume <= n_read,
        t.elapsed_at(n_pause) + n_read - n_resume <= u64::MAX,
    ensures
        t.pause_spec(n_pause).start_spec(n_resume).elapsed_at(n_read) == t.elapsed_at(n_pause) + (
        n_read - n_resume),
{
}

/// Law: the elapsed time is zero in the initial state, after `reset`,
/// and in any idle state whatever the clock reads.
pub proof fn lemma_idle_elapsed_zero(t: PomodoroTimer, now: u64)
    requires
        t.state is Idle,
    ensures
        t.elapsed_at(now) == 0,
{
}

/// Law: with a threshold of 4 and the counter at 0, the phase cycle runs
/// Work, ShortBreak, Work, ShortBreak, Work, ShortBreak, Work and then
/// reaches LongBreak on the fourth completed work phase, with the
/// counter reset to 0.
pub proof fn lemma_phase_cycle_long_break(t: PomodoroTimer)
    requires
        t.phase is Work,
        t.sessions_completed == 0,
        t.sessions_until_long == 4,
    ensures
        t.advance_spec().phase is ShortBreak,
        t.advance_spec().sessions_completed == 1,
        t.advance_spec().advance_spec().phase is Work,
        t.advance_spec().advance_spec().advance_spec().phase is ShortBreak,
        t.advance_spec().advance_spec().advance_spec().sessions_completed == 2,
        t.advance_spec().advance_spec().advance_spec().advance_spec().phase is Work,
        t.advance_spec().advance_spec().advance_spec().advance_spec().advance_spec().phase
            is ShortBreak,
        t.advance_spec().advance_spec().advance_spec().advance_spec().advance_spec().sessions_completed
            == 3,
        t.advance_spec().advance_spec().advance_spec().advance_spec().advance_spec().advance_spec().phase
            is Work,
        t.advance_spec().advance_spec().advance_spec().advance_spec().advance_spec().advance_spec().advance_spec().phase
            is LongBreak,
        t.advance_spec().advance_spec().advance_spec().advance_spec().advance_spec().advance_spec().advance_spec().sessions_completed
            == 0,
{
}

/// Law: skipping a break while the phase is work changes nothing at all;
/// from either break it lands on an idle work phase.
pub proof fn lemma_skip_break_work_noop(t: PomodoroTimer)
    ensures
        t.phase is Work ==> t.skip_break_spec() == t,
        t.phase is ShortBreak || t.phase is LongBreak ==> t.skip_break_spec().phase is Work
            && t.skip_break_spec().state is Idle,
{
}

/// Law: once the elapsed time has reached the configured duration, the
/// remaining time is exactly zero; it never goes negative.
pub proof fn lemma_remaining_never_negative(t: PomodoroTimer, now: u64)
    ensures
        t.remaining_at(now) >= 0,
        t.elapsed_at(now) >= t.phase_duration() ==> t.remaining_at(now) == 0,
{
}

} // verus!
